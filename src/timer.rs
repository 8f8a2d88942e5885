use vstd::prelude::*;

verus! {

/// Offset of the system timer's registers from the peripheral base.
pub const TIMER_REG_OFFSET: usize = 0x3000;

/// The counter wraps to zero after this many microseconds.
pub open spec fn counter_period() -> int {
    0x1_0000_0000_0000_0000
}

/// The 64-bit microsecond counter made of its high and low 32-bit halves.
pub fn counter_value(high: u32, low: u32) -> (r: u64)
    ensures
        r == high as int * 0x1_0000_0000 + low as int,
{
    let r = ((high as u64) << 32u64) | (low as u64);
    assert(r == (high as u64) * 0x1_0000_0000u64 + (low as u64)) by (bit_vector)
        requires
            r == ((high as u64) << 32u64) | (low as u64),
    ;
    r
}

/// A busy wait of `us` microseconds begun when the counter read `start`.
/// It is fed each later reading of the counter and says when the wait is
/// over. When `start + us` passes the top of the counter, the wait first
/// lasts until the counter has wrapped to below `start`.
pub struct SpinSleep {
    start: u64,
    us: u64,
    end: u64,
    wraps: bool,
    awaiting_wrap: bool,
}

impl SpinSleep {
    /// The reading of the counter when the wait began.
    pub closed spec fn spec_start(&self) -> u64 {
        self.start
    }

    /// The length of the wait, in microseconds.
    pub closed spec fn spec_us(&self) -> u64 {
        self.us
    }

    /// Whether the wait ends only after the counter has wrapped.
    pub closed spec fn spec_wraps(&self) -> bool {
        self.wraps
    }

    /// Whether the wrap of the counter is still awaited.
    pub closed spec fn spec_awaiting_wrap(&self) -> bool {
        self.awaiting_wrap
    }

    /// The fields agree with each other.
    pub closed spec fn wf(&self) -> bool {
        &&& self.wraps == (self.start as int + self.us as int >= counter_period())
        &&& self.end as int == (self.start as int + self.us as int) % counter_period()
        &&& self.awaiting_wrap ==> self.wraps
    }

    /// The microseconds from the start to a reading `now` of the counter,
    /// counting the wrap once it has been seen.
    pub open spec fn elapsed(&self, now: u64) -> int {
        if self.spec_wraps() && !self.spec_awaiting_wrap() {
            now as int + counter_period() - self.spec_start() as int
        } else {
            now as int - self.spec_start() as int
        }
    }

    /// A wait of `us` microseconds from the reading `start`.
    pub fn new(start: u64, us: u64) -> (r: Self)
        ensures
            r.wf(),
            r.spec_start() == start,
            r.spec_us() == us,
            r.spec_wraps() == (start as int + us as int >= counter_period()),
            r.spec_awaiting_wrap() == r.spec_wraps(),
    {
        let end = start.wrapping_add(us);
        let wraps = end < start;
        SpinSleep { start, us, end, wraps, awaiting_wrap: wraps }
    }

    /// A wait of `ms` milliseconds, that is `ms * 1000` microseconds, from
    /// the reading `start`.
    pub fn for_ms(start: u64, ms: u64) -> (r: Self)
        requires
            ms <= u64::MAX / 1000,
        ensures
            r.wf(),
            r.spec_start() == start,
            r.spec_us() == ms * 1000,
            r.spec_wraps() == (start as int + ms * 1000 >= counter_period()),
            r.spec_awaiting_wrap() == r.spec_wraps(),
    {
        SpinSleep::new(start, ms * 1000)
    }

    /// Takes the reading `now` of the counter and says whether the wait is
    /// over. While the wrap is awaited it ends at the first reading below
    /// `start`; the wait is over at the first reading, after that, that
    /// reaches `start + us` (modulo the counter's period). When the wait is
    /// over, at least `us` microseconds have elapsed.
    pub fn observe(&mut self, now: u64) -> (done: bool)
        requires
            old(self).wf(),
        ensures
            final(self).wf(),
            final(self).spec_start() == old(self).spec_start(),
            final(self).spec_us() == old(self).spec_us(),
            final(self).spec_wraps() == old(self).spec_wraps(),
            final(self).spec_awaiting_wrap() == (old(self).spec_awaiting_wrap() && now
                >= old(self).spec_start()),
            done == (!final(self).spec_awaiting_wrap() && now as int >= (old(self).spec_start()
                as int + old(self).spec_us() as int) % counter_period()),
            done ==> final(self).elapsed(now) >= old(self).spec_us(),
    {
        if self.awaiting_wrap && now < self.start {
            self.awaiting_wrap = false;
        }
        !self.awaiting_wrap && now >= self.end
    }
}

} // verus!
