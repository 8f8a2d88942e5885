use vstd::prelude::*;
use vstd::string::StringExecFns;

use crate::decimal::{decimal, push_decimal};

verus! {

/// Builds a text from an optional string and an optional number.
pub struct Builder {
    string: Option<String>,
    number: Option<usize>,
}

/// The text of a builder holding `string` and `number`: both, separated by
/// a space, when both are set; the one that is set otherwise; nothing when
/// neither is.
pub open spec fn built_text(string: Option<Seq<char>>, number: Option<usize>) -> Seq<char> {
    match (string, number) {
        (Some(s), Some(n)) => s + seq![' '] + decimal(n as nat),
        (Some(s), None) => s,
        (None, Some(n)) => decimal(n as nat),
        (None, None) => Seq::empty(),
    }
}

impl Builder {
    /// The string set, if any.
    pub closed spec fn spec_string(&self) -> Option<Seq<char>> {
        match &self.string {
            Some(s) => Some(s@),
            None => None,
        }
    }

    /// The number set, if any.
    pub closed spec fn spec_number(&self) -> Option<usize> {
        self.number
    }

    /// Sets the string, replacing any earlier one.
    pub fn string(self, s: &str) -> (r: Builder)
        ensures
            r.spec_string() == Some(s@),
            r.spec_number() == self.spec_number(),
    {
        Builder { string: Some(String::from_str(s)), number: self.number }
    }

    /// Sets the number, replacing any earlier one.
    pub fn number(self, n: usize) -> (r: Builder)
        ensures
            r.spec_string() == self.spec_string(),
            r.spec_number() == Some(n),
    {
        Builder { string: self.string, number: Some(n) }
    }

    /// The text built from what is set.
    pub fn to_string(&self) -> (r: String)
        ensures
            r@ == built_text(self.spec_string(), self.spec_number()),
    {
        let mut out = String::new();
        match &self.string {
            Some(s) => {
                out.append(s.as_str());
                if let Some(n) = self.number {
                    proof {
                        reveal_strlit(" ");
                    }
                    out.append(" ");
                    push_decimal(&mut out, n as u64);
                }
            },
            None => {
                if let Some(n) = self.number {
                    push_decimal(&mut out, n as u64);
                }
            },
        }
        assert(out@ =~= built_text(self.spec_string(), self.spec_number()));
        out
    }
}

impl Default for Builder {
    /// A builder with nothing set.
    fn default() -> (r: Builder)
        ensures
            r.spec_string() is None,
            r.spec_number() is None,
    {
        Builder { string: None, number: None }
    }
}

} // verus!
