//! The two game clocks: what a move or a tick of the loop takes from them.
use vstd::prelude::*;
use crate::board::BoardView;
use crate::board::types::Color;
use crate::cards::state::{CardStateView, time_multiplier_of};
use crate::clock::{now, millis_between};
use crate::game_loop::state::{GameLoop, GameLoopView, current_turn, clock_readings_kept};

verus! {

pub open spec fn sat_mul(a: u64, b: u64) -> u64 {
    if a * b > u64::MAX { u64::MAX } else { (a * b) as u64 }
}

pub open spec fn sat_sub(a: u64, b: u64) -> u64 {
    if a < b { 0 } else { (a - b) as u64 }
}

/// The milliseconds that `elapsed` real milliseconds cost the player to move:
/// scaled by that player's clock multiplier, capped at the largest `u64`.
pub open spec fn charged_ms(g: GameLoopView, elapsed: u64) -> u64 {
    sat_mul(elapsed, time_multiplier_of(g.board.card_state, current_turn(g)) as u64)
}

/// The remaining time of `c`.
pub open spec fn time_of(g: GameLoopView, c: Color) -> u64 {
    match c {
        Color::White => g.white_time_ms,
        Color::Black => g.black_time_ms,
    }
}

pub open spec fn with_time(g: GameLoopView, c: Color, t: u64) -> GameLoopView {
    match c {
        Color::White => GameLoopView { white_time_ms: t, ..g },
        Color::Black => GameLoopView { black_time_ms: t, ..g },
    }
}

/// The game after the player to move has moved, `elapsed` milliseconds after
/// the previous move. White's first move starts the clocks and costs nothing;
/// otherwise the mover's clock loses the charged time and the mover's
/// multiplier returns to 1. The turn passes either way.
pub open spec fn clock_after_move(g: GameLoopView, elapsed: u64) -> GameLoopView {
    if !g.timer_running && g.is_white_turn {
        GameLoopView { timer_running: true, first_move_played: true, is_white_turn: false, ..g }
    } else {
        let active = current_turn(g);
        let b = BoardView {
            card_state: CardStateView {
                time_multiplier: g.board.card_state.time_multiplier.spec_set(active, Some(1)),
                ..g.board.card_state
            },
            ..g.board
        };
        let g1 = with_time(g, active, sat_sub(time_of(g, active), charged_ms(g, elapsed)));
        GameLoopView { board: b, is_white_turn: !g.is_white_turn, ..g1 }
    }
}

/// One tick of the loop, `elapsed` milliseconds after the last reading: the
/// running clock of the player to move loses the charged time, and that player
/// has lost on time when nothing is left.
pub open spec fn clock_tick(g: GameLoopView, elapsed: u64) -> (GameLoopView, Option<Color>) {
    if !g.timer_running {
        (g, None)
    } else {
        let active = current_turn(g);
        let remaining = sat_sub(time_of(g, active), charged_ms(g, elapsed));
        (with_time(g, active, remaining), if remaining == 0 { Some(active) } else { None })
    }
}

/// Both clocks back to the starting time, stopped.
pub open spec fn clock_reset(g: GameLoopView) -> GameLoopView {
    GameLoopView {
        white_time_ms: g.initial_time_ms,
        black_time_ms: g.initial_time_ms,
        timer_running: false,
        ..g
    }
}

/// The clocks only run down, and only the clock of the player to move runs: a
/// move passes the turn, a tick keeps it, and a player who loses on time is
/// the player to move, with nothing left.
pub proof fn law_clocks_run_down(g: GameLoopView, elapsed: u64, c: Color)
    ensures
        time_of(clock_after_move(g, elapsed), c) <= time_of(g, c),
        time_of(clock_tick(g, elapsed).0, c) <= time_of(g, c),
        c != current_turn(g) ==> time_of(clock_after_move(g, elapsed), c) == time_of(g, c),
        c != current_turn(g) ==> time_of(clock_tick(g, elapsed).0, c) == time_of(g, c),
        clock_after_move(g, elapsed).is_white_turn == !g.is_white_turn,
        clock_tick(g, elapsed).0.is_white_turn == g.is_white_turn,
        clock_tick(g, elapsed).1 matches Some(l) ==> l == current_turn(g) && time_of(clock_tick(g, elapsed).0, l) == 0,
{
}

fn saturating_mul(a: u64, b: u64) -> (r: u64)
    ensures
        r == sat_mul(a, b),
{
    match a.checked_mul(b) {
        Some(v) => v,
        None => u64::MAX,
    }
}

impl GameLoop {
    /// The clocks after a move made `elapsed_ms` after the previous one.
    pub fn record_move_after(&mut self, elapsed_ms: u64)
        ensures
            clock_readings_kept(*old(self), *final(self)),
            final(self)@ == clock_after_move(old(self)@, elapsed_ms),
    {
        let is_white = self.is_white_turn;
        if !self.timer_running && is_white {
            self.timer_running = true;
            self.first_move_played = true;
        } else {
            let active_color = if is_white { Color::White } else { Color::Black };
            let multiplier = self.board.card_state.get_time_multiplier(active_color);
            let charged = saturating_mul(elapsed_ms, multiplier as u64);
            self.board.card_state.set_time_multiplier(active_color, 1);
            if is_white {
                self.white_time_ms = self.white_time_ms.saturating_sub(charged);
            } else {
                self.black_time_ms = self.black_time_ms.saturating_sub(charged);
            }
        }
        self.is_white_turn = !is_white;
    }

    /// One tick of the clocks, `elapsed_ms` after the last reading; the colour
    /// that ran out of time, if one did.
    pub fn tick_after(&mut self, elapsed_ms: u64) -> (r: Option<Color>)
        ensures
            clock_readings_kept(*old(self), *final(self)),
            (final(self)@, r) == clock_tick(old(self)@, elapsed_ms),
    {
        if !self.timer_running {
            return None;
        }
        let active_color = if self.is_white_turn { Color::White } else { Color::Black };
        let multiplier = self.board.card_state.get_time_multiplier(active_color);
        let charged = saturating_mul(elapsed_ms, multiplier as u64);
        let remaining = if self.is_white_turn {
            self.white_time_ms = self.white_time_ms.saturating_sub(charged);
            self.white_time_ms
        } else {
            self.black_time_ms = self.black_time_ms.saturating_sub(charged);
            self.black_time_ms
        };
        if remaining == 0 {
            Some(active_color)
        } else {
            None
        }
    }
}

pub trait GameTimer {
    fn record_move(&mut self);

    fn get_times(&self) -> (u64, u64);

    fn reset_timer(&mut self);

    fn tick(&mut self) -> Option<Color>;
}

impl GameTimer for GameLoop {
    /// Reads the clock and charges the move to the player who made it.
    fn record_move(&mut self)
        ensures
            exists|elapsed: u64| final(self)@ == #[trigger] clock_after_move(old(self)@, elapsed),
            final(self).first_move_deadline == old(self).first_move_deadline,
    {
        let t = now();
        let elapsed = millis_between(&self.last_move_time, &t);
        self.record_move_after(elapsed);
        self.last_move_time = t;
    }

    fn get_times(&self) -> (r: (u64, u64))
        ensures
            r == (self@.white_time_ms, self@.black_time_ms),
    {
        (self.white_time_ms, self.black_time_ms)
    }

    fn reset_timer(&mut self)
        ensures
            final(self)@ == clock_reset(old(self)@),
            final(self).first_move_deadline == old(self).first_move_deadline,
    {
        let initial = self.initial_time_ms;
        self.white_time_ms = initial;
        self.black_time_ms = initial;
        self.timer_running = false;
        self.last_move_time = now();
    }

    /// Reads the clock and charges the time since the last reading to the player
    /// to move, while the clocks run.
    fn tick(&mut self) -> (r: Option<Color>)
        ensures
            exists|elapsed: u64| (final(self)@, r) == #[trigger] clock_tick(old(self)@, elapsed),
            final(self).first_move_deadline == old(self).first_move_deadline,
            !old(self).timer_running ==> final(self).last_move_time == old(self).last_move_time,
    {
        if !self.timer_running {
            proof {
                assert((self@, None::<Color>) == clock_tick(self@, 0));
            }
            return None;
        }
        let t = now();
        let elapsed = millis_between(&self.last_move_time, &t);
        let r = self.tick_after(elapsed);
        self.last_move_time = t;
        r
    }
}

} // verus!
