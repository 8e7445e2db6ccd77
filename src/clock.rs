use vstd::prelude::*;

verus! {

/// A repeating timer counted in nanoseconds: elapsed time accumulates until a
/// full period has passed, and consuming the tick keeps what ran past it.
#[derive(Clone, Copy, Debug, PartialEq, Eq, Structural)]
pub struct TickClock {
    pub elapsed_nanos: u64,
    pub period_nanos: u64,
}

/// Tick period of the game: 150 ms.
pub const TICK_NANOS: u64 = 150_000_000;

impl TickClock {
    /// The period is not zero.
    pub open spec fn wf(&self) -> bool {
        self.period_nanos > 0
    }

    /// Elapsed time after `delta` more nanoseconds (held at `u64::MAX`).
    pub open spec fn advanced(elapsed: nat, delta: nat) -> nat {
        if elapsed + delta <= u64::MAX {
            elapsed + delta
        } else {
            u64::MAX as nat
        }
    }

    /// A full period has elapsed.
    pub open spec fn ready(&self) -> bool {
        self.elapsed_nanos >= self.period_nanos
    }

    /// A clock of the given period with nothing elapsed.
    pub fn new(period_nanos: u64) -> (r: TickClock)
        requires
            period_nanos > 0,
        ensures
            r.wf(),
            r.elapsed_nanos == 0,
            r.period_nanos == period_nanos,
    {
        TickClock { elapsed_nanos: 0, period_nanos }
    }

    /// The clock of the game, with a 150 ms period.
    pub fn game() -> (r: TickClock)
        ensures
            r.wf(),
            r.elapsed_nanos == 0,
            r.period_nanos == TICK_NANOS,
    {
        TickClock::new(TICK_NANOS)
    }

    /// Adds `delta_nanos` of wall time.
    pub fn advance(&mut self, delta_nanos: u64)
        ensures
            final(self).period_nanos == old(self).period_nanos,
            final(self).elapsed_nanos == Self::advanced(
                old(self).elapsed_nanos as nat,
                delta_nanos as nat,
            ),
    {
        self.elapsed_nanos = self.elapsed_nanos.saturating_add(delta_nanos);
    }

    /// When a full period has elapsed, returns true and keeps only the time
    /// past the last whole period; otherwise returns false and changes
    /// nothing.
    pub fn consume_if_ready(&mut self) -> (fired: bool)
        requires
            old(self).wf(),
        ensures
            fired == old(self).ready(),
            final(self).period_nanos == old(self).period_nanos,
            fired ==> final(self).elapsed_nanos == old(self).elapsed_nanos
                % old(self).period_nanos,
            !fired ==> *final(self) == *old(self),
    {
        if self.elapsed_nanos >= self.period_nanos {
            self.elapsed_nanos = self.elapsed_nanos % self.period_nanos;
            true
        } else {
            false
        }
    }
}

} // verus!
