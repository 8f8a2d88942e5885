use vstd::prelude::*;
use vstd::string::StringExecFns;

use crate::decimal::{decimal, push_decimal};

verus! {

/// A length of time in one of three units.
pub enum Duration {
    MilliSeconds(u64),
    Seconds(u32),
    Minutes(u16),
}

impl Duration {
    /// The length in milliseconds.
    pub open spec fn millis(&self) -> int {
        match self {
            Duration::MilliSeconds(ms) => *ms as int,
            Duration::Seconds(s) => *s as int * 1000,
            Duration::Minutes(m) => *m as int * 60000,
        }
    }

    /// The length in milliseconds, followed by `ms`.
    pub fn to_string(&self) -> (r: String)
        ensures
            r@ == decimal(self.millis() as nat) + seq!['m', 's'],
    {
        let ms: u64 = match self {
            Duration::MilliSeconds(ms) => *ms,
            Duration::Seconds(s) => *s as u64 * 1000,
            Duration::Minutes(m) => *m as u64 * 60000,
        };
        let mut out = String::new();
        push_decimal(&mut out, ms);
        proof {
            reveal_strlit("ms");
        }
        out.append("ms");
        assert(out@ =~= decimal(self.millis() as nat) + seq!['m', 's']);
        out
    }
}

impl PartialEq for Duration {
    /// Two durations are equal when they are equally long, whatever their
    /// units.
    fn eq(&self, other: &Duration) -> (r: bool)
        ensures
            r == (self.millis() == other.millis()),
    {
        match (self, other) {
            (Duration::MilliSeconds(a), Duration::MilliSeconds(b)) => *a == *b,
            (Duration::MilliSeconds(a), Duration::Seconds(b)) => *a == *b as u64 * 1000,
            (Duration::MilliSeconds(a), Duration::Minutes(b)) => *a == *b as u64 * 60000,
            (Duration::Seconds(a), Duration::MilliSeconds(b)) => *a as u64 * 1000 == *b,
            (Duration::Seconds(a), Duration::Seconds(b)) => *a == *b,
            (Duration::Seconds(a), Duration::Minutes(b)) => *a as u64 == *b as u64 * 60,
            (Duration::Minutes(a), Duration::MilliSeconds(b)) => *a as u64 * 60000 == *b,
            (Duration::Minutes(a), Duration::Seconds(b)) => *a as u64 * 60 == *b as u64,
            (Duration::Minutes(a), Duration::Minutes(b)) => *a == *b,
        }
    }
}

impl vstd::std_specs::cmp::PartialEqSpecImpl for Duration {
    open spec fn obeys_eq_spec() -> bool {
        true
    }

    open spec fn eq_spec(&self, other: &Duration) -> bool {
        self.millis() == other.millis()
    }
}

} // verus!
