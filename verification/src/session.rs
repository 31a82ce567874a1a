//! The decisions of a player's socket session: the message rate limit, the
//! heartbeat, when the game starts by itself, and when leaving is for good.
use vstd::prelude::*;
use std::time::Instant;
use crate::clock::{now, nanos_between};
use crate::game_loop::state::{GameLoop, GameLoopView};

verus! {

/// The most messages a player may send within one window.
pub const MAX_MSGS_PER_WINDOW: u64 = 15;
/// The length of a rate window, in nanoseconds.
pub const RATE_WINDOW_NS: u64 = 1000000000;
/// How long a player may stay silent to pings, in nanoseconds.
pub const PONG_TIMEOUT_NS: u64 = 30000000000;

/// The messages a player sent in the current rate window.
#[derive(Debug)]
pub struct RateWindow {
    pub window_start: Instant,
    pub count: u64,
}

/// The count after one more message, `elapsed_ns` after the window opened: a
/// window older than its length opens anew.
pub open spec fn count_after(count: u64, elapsed_ns: u64) -> int {
    if elapsed_ns > RATE_WINDOW_NS { 1 } else { count + 1 }
}

impl RateWindow {
    pub fn new() -> (r: RateWindow)
        ensures
            r.count == 0,
    {
        RateWindow { window_start: now(), count: 0 }
    }

    /// Counts a message that came `elapsed_ns` after the window opened, and says
    /// whether it is within the limit. Whether the window opened anew is given
    /// back, so that its start can be moved to the message's time.
    pub fn count_message_after(&mut self, elapsed_ns: u64) -> (r: (bool, bool))
        requires
            old(self).count < u64::MAX,
        ensures
            final(self).count == count_after(old(self).count, elapsed_ns),
            r.0 == (final(self).count <= MAX_MSGS_PER_WINDOW),
            r.1 == (elapsed_ns > RATE_WINDOW_NS),
    {
        let reopened = elapsed_ns > RATE_WINDOW_NS;
        if reopened {
            self.count = 0;
        }
        self.count = self.count + 1;
        (self.count <= MAX_MSGS_PER_WINDOW, reopened)
    }

    /// Counts a message arriving now, and says whether it is within the limit.
    pub fn count_message(&mut self) -> (r: bool)
        requires
            old(self).count < u64::MAX,
        ensures
            final(self).count == 1 || final(self).count == old(self).count + 1,
            r == (final(self).count <= MAX_MSGS_PER_WINDOW),
    {
        let t = now();
        let elapsed = nanos_between(&self.window_start, &t);
        let (ok, reopened) = self.count_message_after(elapsed);
        if reopened {
            self.window_start = t;
        }
        ok
    }
}

/// Whether an answer to a ping `elapsed_ns` old is too old: the session ends.
pub fn heartbeat_missed_after(elapsed_ns: u64) -> (r: bool)
    ensures
        r == (elapsed_ns > PONG_TIMEOUT_NS),
{
    elapsed_ns > PONG_TIMEOUT_NS
}

/// Whether the last answer to a ping is too old, reading the clock: the
/// session ends.
pub fn heartbeat_missed(last_pong: &Instant) -> bool {
    heartbeat_missed_after(nanos_between(last_pong, &now()))
}

/// The game starts by itself when both seats are taken and it has not started.
pub fn should_auto_start(both_connected: bool, game: &GameLoop) -> (r: bool)
    ensures
        r == (both_connected && !game@.running && !game@.started),
{
    both_connected && !game.running && !game.started
}

/// A player who leaves a game that never started leaves for good; otherwise
/// the seat is kept for a return.
pub fn leaves_for_good(game: &GameLoop) -> (r: bool)
    ensures
        r == (!game@.started && !game@.running),
{
    !game.started && !game.running
}

} // verus!
