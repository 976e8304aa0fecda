use vstd::prelude::*;

verus! {

/// Playback offset bookkeeping for one player, in milliseconds.
///
/// `last_position` is the logical offset inside the track that had been
/// reached when the playback parameters last changed; `last_player_position`
/// is the offset the transport reported at that same moment. Keeping both
/// lets the logical position stay consistent across speed changes without
/// re-seeking the transport.
#[derive(Clone, Copy, Debug, PartialEq, Eq, Structural)]
pub struct Position {
    /// Last reconciled logical offset into the track, in milliseconds.
    pub last_position: u64,
    /// Transport-reported offset at the moment of the last reconciliation,
    /// in milliseconds.
    pub last_player_position: u64,
}

pub const MILLIS_PER_SECOND: u64 = 1000;

impl Position {
    /// The position of a freshly started track: both offsets at zero.
    pub fn default() -> (r: Self)
        ensures
            r == (Position { last_position: 0u64, last_player_position: 0u64 }),
    {
        Position { last_position: 0, last_player_position: 0 }
    }

    /// A logical position of `secs` seconds, with the transport offset
    /// reset. An offset too large for milliseconds saturates.
    pub fn from_secs(secs: u64) -> (r: Self)
        ensures
            r.last_position == (if secs * MILLIS_PER_SECOND <= u64::MAX {
                (secs * MILLIS_PER_SECOND) as int
            } else {
                u64::MAX as int
            }),
            r.last_player_position == 0,
    {
        let last_position = match secs.checked_mul(MILLIS_PER_SECOND) {
            Some(ms) => ms,
            None => u64::MAX,
        };
        Position { last_position, last_player_position: 0 }
    }

    /// A logical position of `millis` milliseconds, with the transport offset
    /// reset.
    pub fn from_millis(millis: u64) -> (r: Self)
        ensures
            r == (Position { last_position: millis, last_player_position: 0u64 }),
    {
        Position { last_position: millis, last_player_position: 0 }
    }

    /// The logical offset implied by a transport report of `reported_ms`
    /// under `speed_milli`: the reconciled offset, plus the transport's
    /// progress since the reconciliation scaled by the speed, plus a 200 ms
    /// lead for the latency of the query itself.
    pub open spec fn spec_advanced(self, reported_ms: u64, speed_milli: u64) -> int {
        self.last_position + (reported_ms - self.last_player_position) * speed_milli / (
        MILLIS_PER_SECOND as int) + 200
    }

    /// The current logical offset, computed from the transport's report and
    /// the present speed; pinned at `u64::MAX` in the degenerate case where
    /// the exact value would not fit.
    pub fn current_position_ms(&self, reported_ms: u64, speed_milli: u64) -> (r: u64)
        requires
            reported_ms >= self.last_player_position,
        ensures
            r == (if self.spec_advanced(reported_ms, speed_milli) <= u64::MAX {
                self.spec_advanced(reported_ms, speed_milli)
            } else {
                u64::MAX as int
            }),
    {
        let delta = (reported_ms - self.last_player_position) as u128;
        let speed = speed_milli as u128;
        proof {
            assert(delta * speed <= (u64::MAX as u128) * (u64::MAX as u128)) by (nonlinear_arith)
                requires
                    delta <= u64::MAX as u128,
                    speed <= u64::MAX as u128,
            ;
            assert(delta * speed / 1000 <= delta * speed) by (nonlinear_arith);
        }
        let scaled = delta * speed / 1000;
        let total = (self.last_position as u128) + scaled + 200;
        if total > u64::MAX as u128 {
            u64::MAX
        } else {
            total as u64
        }
    }

    /// Reconciles for a speed change: folds the transport's progress since
    /// the last reconciliation into the logical offset at the speed that
    /// governed it, and records the transport's reported offset, so that the
    /// new speed applies only prospectively.
    pub fn reconcile_speed(&mut self, reported_ms: u64, old_speed_milli: u64)
        requires
            reported_ms >= old(self).last_player_position,
        ensures
            final(self).last_position == (if old(self).spec_advanced(reported_ms, old_speed_milli)
                <= u64::MAX {
                old(self).spec_advanced(reported_ms, old_speed_milli)
            } else {
                u64::MAX as int
            }),
            final(self).last_player_position == reported_ms,
    {
        self.last_position = self.current_position_ms(reported_ms, old_speed_milli);
        self.last_player_position = reported_ms;
    }
}

} // verus!
