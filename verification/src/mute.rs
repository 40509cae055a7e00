//! The mute gate: one timestamp before which recognized turns are dropped.

use vstd::prelude::*;

verus! {

/// Milliseconds in one second.
pub const MILLIS_PER_SECOND: u64 = 1000;

/// Holds the single "suppressed until" timestamp, in milliseconds.
#[derive(Clone, Copy, Debug, PartialEq, Eq, Structural)]
pub struct MuteGate {
    pub suppressed_until: u64,
}

impl MuteGate {
    /// The moment that `seconds` of suppression starting at `now` end.
    pub open spec fn deadline(now: u64, seconds: u32) -> int {
        now + seconds * MILLIS_PER_SECOND
    }

    /// Whether turns recognized at `now` are suppressed.
    pub open spec fn suppresses(self, now: u64) -> bool {
        self.suppressed_until > now
    }

    /// A gate with no suppression at `now`.
    pub fn new(now: u64) -> (gate: MuteGate)
        ensures
            gate.suppressed_until == now,
            !gate.suppresses(now),
    {
        MuteGate { suppressed_until: now }
    }

    /// A mute gate after suppressing for `seconds` from `now`, where the
    /// deadline can be represented.
    pub open spec fn suppressed_for(self, now: u64, seconds: u32) -> MuteGate {
        MuteGate { suppressed_until: MuteGate::deadline(now, seconds) as u64 }
    }

    /// Suppresses for `seconds` from `now`, replacing whatever was set before.
    pub fn suppress_for(&mut self, now: u64, seconds: u32)
        requires
            MuteGate::deadline(now, seconds) <= u64::MAX,
        ensures
            *final(self) == old(self).suppressed_for(now, seconds),
            final(self).suppressed_until == MuteGate::deadline(now, seconds),
    {
        let span: u64 = (seconds as u64) * MILLIS_PER_SECOND;
        self.suppressed_until = now + span;
    }

    /// Whether turns recognized at `now` are suppressed.
    pub fn is_suppressed(&self, now: u64) -> (suppressed: bool)
        ensures
            suppressed == self.suppresses(now),
    {
        self.suppressed_until > now
    }

    /// Ends any suppression: nothing is suppressed from `now` on.
    pub fn reset(&mut self, now: u64)
        ensures
            final(self).suppressed_until == now,
            !final(self).suppresses(now),
    {
        self.suppressed_until = now;
    }
}

/// Suppressing overwrites: the outcome is the same whatever was set before,
/// and the suppression ends `seconds` after `now`. Suppressing a second
/// time does not add to the first: only the second counts.
pub proof fn lemma_suppression_overwrites(
    before: MuteGate,
    other: MuteGate,
    now: u64,
    seconds: u32,
    earlier: u64,
    earlier_seconds: u32,
)
    requires
        MuteGate::deadline(now, seconds) <= u64::MAX,
    ensures
        before.suppressed_for(now, seconds) == other.suppressed_for(now, seconds),
        before.suppressed_for(now, seconds).suppressed_until == now + seconds * MILLIS_PER_SECOND,
        before.suppressed_for(earlier, earlier_seconds).suppressed_for(now, seconds)
            == before.suppressed_for(now, seconds),
{
}

} // verus!
