//! Frame timing with an injected clock: all instants are nanoseconds read
//! from a monotonic clock by the host and handed in.
use vstd::prelude::*;

verus! {

/// Saturating difference of two clock readings, as a monotonic clock's
/// instants subtract: an earlier `now` gives zero, never a negative span.
pub open spec fn span(from: u64, now: u64) -> nat {
    if now >= from {
        (now - from) as nat
    } else {
        0
    }
}

/// Tracks the start of the run, the last frame sample and the span between
/// the last two samples, all in nanoseconds.
pub struct Timing {
    start: u64,
    last: u64,
    delta: u64,
}

impl Timing {
    pub closed spec fn start_spec(&self) -> u64 {
        self.start
    }

    pub closed spec fn last_spec(&self) -> u64 {
        self.last
    }

    pub closed spec fn delta_spec(&self) -> u64 {
        self.delta
    }

    /// A fresh accumulator started at `now`; the delta is zero until the
    /// first sample.
    pub fn new(now: u64) -> (r: Timing)
        ensures
            r.start_spec() == now,
            r.last_spec() == now,
            r.delta_spec() == 0,
    {
        Timing { start: now, last: now, delta: 0 }
    }

    /// Samples the clock once per frame: the delta becomes the span since the
    /// previous sample (or since construction), then `now` becomes the last
    /// sample.
    pub fn update(&mut self, now: u64)
        ensures
            final(self).delta_spec() as nat == span(old(self).last_spec(), now),
            final(self).last_spec() == now,
            final(self).start_spec() == old(self).start_spec(),
    {
        self.delta = now.saturating_sub(self.last);
        self.last = now;
    }

    /// The span between the last two samples, in nanoseconds.
    pub fn time_delta(&self) -> (r: u64)
        ensures
            r == self.delta_spec(),
    {
        self.delta
    }

    /// The span from the start of the run to `now`, in nanoseconds.
    pub fn time_since_startup(&self, now: u64) -> (r: u64)
        ensures
            r as nat == span(self.start_spec(), now),
    {
        now.saturating_sub(self.start)
    }
}

/// Samples taken from a clock that never runs backwards, starting no earlier
/// than the last sample: every delta is exactly the gap between consecutive
/// readings (so never negative), and the time since startup read at later
/// samples is never smaller.
pub proof fn lemma_monotone_samples(t: Timing, nows: Seq<u64>)
    requires
        forall|i: int, j: int| 0 <= i <= j < nows.len() ==> nows[i] <= nows[j],
        nows.len() > 0 ==> t.last_spec() <= nows[0],
    ensures
        nows.len() > 0 ==> span(t.last_spec(), nows[0]) == nows[0] - t.last_spec(),
        forall|i: int|
            0 < i < nows.len() ==> #[trigger] span(nows[i - 1], nows[i]) == nows[i] - nows[i - 1],
        forall|i: int, j: int|
            0 <= i <= j < nows.len() ==> span(t.start_spec(), nows[i]) <= span(
                t.start_spec(),
                nows[j],
            ),
{
}

} // verus!
