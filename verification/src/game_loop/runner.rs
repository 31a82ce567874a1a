//! The decisions of the loop that watches a game once a second: when it stops,
//! when an abandoned game is removed, and when a player loses on time.
use vstd::prelude::*;
use std::time::Instant;
use crate::board::types::Color;
use crate::clock::{now, millis_between, is_later};
use crate::game_loop::state::{GameLoop, GameLoopView, clock_readings_kept};
use crate::game_loop::timer::clock_tick;

verus! {

/// How long a game that never started may stay without players, in ms.
pub const STOP_GRACE_MS: u64 = 300000;

/// What the loop does after one of its ticks.
#[derive(Debug, Clone, Copy, PartialEq, Eq, Structural)]
pub enum LoopAction {
    /// The game has ended: the loop stops.
    Stop,
    /// The loop goes on, and forgets since when the game was idle.
    Continue,
    /// The game waits without players: the loop goes on and keeps counting.
    Idle,
    /// The game waited without players longer than the grace period: it is
    /// reported cancelled and removed, and the loop stops.
    Abandon,
    /// White did not move before the first-move deadline: the game is
    /// cancelled and has ended.
    CancelFirstMove,
    /// The player to move ran out of time and lost; the game has ended.
    Timeout { loser: Color },
}

pub open spec fn game_ended(g: GameLoopView) -> GameLoopView {
    GameLoopView { running: false, ended: true, ..g }
}

/// One tick of the watching loop. `players_connected` says whether any player
/// is in the lobby, `grace_over` whether the game has been idle for the grace
/// period, `first_move_overdue` whether the first-move deadline has passed, and
/// `elapsed` the milliseconds since the clocks were last read.
pub open spec fn loop_step_spec(
    g: GameLoopView,
    players_connected: bool,
    grace_over: bool,
    first_move_overdue: bool,
    elapsed: u64,
) -> (GameLoopView, LoopAction) {
    if g.ended {
        (g, LoopAction::Stop)
    } else if !g.running {
        if g.started || players_connected {
            (g, LoopAction::Continue)
        } else if grace_over {
            (g, LoopAction::Abandon)
        } else {
            (g, LoopAction::Idle)
        }
    } else if !g.first_move_played && first_move_overdue {
        (game_ended(g), LoopAction::CancelFirstMove)
    } else {
        let (g1, lost) = clock_tick(g, elapsed);
        match lost {
            Some(loser) => (game_ended(g1), LoopAction::Timeout { loser }),
            None => (g1, LoopAction::Continue),
        }
    }
}

/// One tick of the watching loop, the clocks read `elapsed_ms` after the last
/// reading.
pub fn loop_step_after(
    game: &mut GameLoop,
    players_connected: bool,
    grace_over: bool,
    first_move_overdue: bool,
    elapsed_ms: u64,
) -> (r: LoopAction)
    ensures
        (final(game)@, r) == loop_step_spec(old(game)@, players_connected, grace_over, first_move_overdue, elapsed_ms),
        clock_readings_kept(*old(game), *final(game)),
{
    if game.ended {
        return LoopAction::Stop;
    }
    if !game.running {
        if game.started || players_connected {
            return LoopAction::Continue;
        }
        if grace_over {
            return LoopAction::Abandon;
        }
        return LoopAction::Idle;
    }
    if !game.first_move_played && first_move_overdue {
        game.end();
        return LoopAction::CancelFirstMove;
    }
    match game.tick_after(elapsed_ms) {
        Some(loser) => {
            game.end();
            LoopAction::Timeout { loser }
        }
        None => LoopAction::Continue,
    }
}

/// Whether a tick of the watching loop charges the clocks, and so takes a new
/// reading of the clock as the last-move instant: the game runs, has not
/// ended, is not cancelled for want of a first move, and its clocks run.
pub open spec fn clock_read_by_step(g: GameLoopView, first_move_overdue: bool) -> bool {
    !g.ended && g.running && !(!g.first_move_played && first_move_overdue) && g.timer_running
}

/// One tick of the watching loop, reading the clock for the game clocks.
pub fn loop_step(game: &mut GameLoop, players_connected: bool, grace_over: bool, first_move_overdue: bool) -> (r: LoopAction)
    ensures
        exists|elapsed: u64|
            (final(game)@, r) == #[trigger] loop_step_spec(old(game)@, players_connected, grace_over, first_move_overdue, elapsed),
        final(game).first_move_deadline == old(game).first_move_deadline,
        !clock_read_by_step(old(game)@, first_move_overdue) ==> final(game).last_move_time == old(game).last_move_time,
{
    let t = now();
    let elapsed = millis_between(&game.last_move_time, &t);
    let reads_clock = !game.ended && game.running && !(!game.first_move_played && first_move_overdue)
        && game.timer_running;
    assert(reads_clock == clock_read_by_step(game@, first_move_overdue));
    let r = loop_step_after(game, players_connected, grace_over, first_move_overdue, elapsed);
    if reads_clock {
        game.last_move_time = t;
    }
    r
}

/// Whether a game idle for `elapsed_ms` has waited out the grace period.
pub fn grace_over_after(elapsed_ms: u64) -> (r: bool)
    ensures
        r == (elapsed_ms >= STOP_GRACE_MS),
{
    elapsed_ms >= STOP_GRACE_MS
}

/// Starts counting the idle time if it was not counted yet, and reads the
/// clock to say whether the grace period has passed since.
pub fn idle_grace_over(stopped_at: &mut Option<Instant>) -> (r: bool)
    ensures
        (*final(stopped_at)) is Some,
        (*old(stopped_at)) is Some ==> *final(stopped_at) == *old(stopped_at),
{
    let t = now();
    let since = match stopped_at {
        Some(s) => *s,
        None => t,
    };
    *stopped_at = Some(since);
    grace_over_after(millis_between(&since, &t))
}

/// Reads the clock to say whether the first-move deadline has passed.
pub fn first_move_overdue(game: &GameLoop) -> bool {
    is_later(&now(), &game.first_move_deadline)
}

/// The time left for white's first move, while the game runs and white has not
/// moved yet.
pub fn first_move_remaining_ms(game: &GameLoop) -> (r: Option<u64>)
    ensures
        r is None <==> !game@.running || game@.first_move_played,
{
    if !game.running {
        return None;
    }
    if game.first_move_played {
        return None;
    }
    let t = now();
    Some(millis_between(&t, &game.first_move_deadline))
}

} // verus!
