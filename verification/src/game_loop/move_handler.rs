//! A move of a player: checked, played, and the turn handed over.
use vstd::prelude::*;
use crate::board::{Board, BoardView, board_wf, piece_at};
use crate::board::types::{Color, PieceType, Square, valid_sq};
use crate::board::apply::{MoveApplier, spec_apply_move};
use crate::board::checks::{CheckAnalyzer, spec_in_check};
use crate::board::moves::{MoveCalculator, spec_has_legal_moves, with_moves_computed};
use crate::cards::state::{
    CardStateView, record_last_move, spec_record_last_move, fog_decremented, spec_decrement_sniper, spec_clear_ninja,
};
use crate::game_loop::state::{
    GameLoop, GameLoopView, game_wf, current_turn, turn_card_discarded, cards_missing, draws_outcome,
    clock_readings_kept,
};
use crate::game_loop::timer::{GameTimer, clock_after_move};

verus! {

/// What a played move reports: the clocks, whose turn it now is, and whether
/// that player is in check or checkmated.
#[derive(Debug, Clone, Copy, PartialEq, Eq, Structural)]
pub struct MoveResult {
    pub white_ms: u64,
    pub black_ms: u64,
    pub current_player: Color,
    pub check: bool,
    pub checkmate: bool,
    pub winner: Option<Color>,
}

/// Whether `player` may move the piece on `from` to `to`. A player moves their
/// own pieces, and under the traitor card also an enemy pawn onto a square held
/// by the pawn's own side; the move must be among the piece's allowed moves.
pub open spec fn move_gate(g: GameLoopView, from: Square, to: Square, player: Color) -> Result<(), &'static str> {
    let b = g.board;
    if player != current_turn(g) {
        Err("not your turn")
    } else {
        match piece_at(b, from) {
            None => Err("no piece at source square"),
            Some(p) => if p.color != player && !(b.card_state.traitor == Some(player) && p.piece_type == PieceType::Pawn
                && (piece_at(b, to) matches Some(t) && t.color == p.color)) {
                Err("not your piece")
            } else if !p.move_set.allowed.contains(to) {
                Err("move not allowed")
            } else {
                Ok(())
            },
        }
    }
}

/// The board at the end of the mover's turn: one fog turn passes, the mover's
/// sniper marks age, the traitor card lapses, the ninja's time runs on, and the
/// moves of every piece are computed again.
pub open spec fn turn_finished(b: BoardView, player: Color) -> BoardView {
    let b1 = BoardView { card_state: fog_decremented(b.card_state), ..b };
    let b2 = spec_decrement_sniper(b1, player);
    let b3 = BoardView { card_state: CardStateView { traitor: None, ..b2.card_state }, ..b2 };
    let b4 = match b3.card_state.ninja {
        Some((_, owner)) => if owner != player {
            BoardView { card_state: CardStateView { ninja_expire_after_opponent_move: true, ..b3.card_state }, ..b3 }
        } else if b3.card_state.ninja_expire_after_opponent_move {
            let c = spec_clear_ninja(b3);
            BoardView { card_state: CardStateView { ninja_expire_after_opponent_move: false, ..c.card_state }, ..c }
        } else {
            b3
        },
        None => b3,
    };
    BoardView { squares: with_moves_computed(b4), ..b4 }
}

/// What the move reports about the finished game state `after`.
pub open spec fn move_report(after: GameLoopView, player: Color) -> MoveResult {
    let opponent = player.spec_other();
    let check = spec_in_check(after.board, opponent);
    let checkmate = check && !spec_has_legal_moves(after.board, opponent);
    MoveResult {
        white_ms: after.white_time_ms,
        black_ms: after.black_time_ms,
        current_player: opponent,
        check,
        checkmate,
        winner: if checkmate { Some(player) } else { None },
    }
}

/// What a move may leave and return. A refused move changes nothing. A move
/// the board refuses leaves the board as the refusal left it, without a last
/// move. Otherwise the clock is charged, the mover draws back to a full hand,
/// and the turn is finished on the board.
pub open spec fn move_outcome(
    g: GameLoopView,
    from: Square,
    to: Square,
    player: Color,
    promotion: Option<PieceType>,
    after: GameLoopView,
    r: Result<MoveResult, &'static str>,
) -> bool {
    match move_gate(g, from, to, player) {
        Err(e) => r == Err::<MoveResult, &'static str>(e) && after == g,
        Ok(()) => {
            let b1 = spec_record_last_move(g.board, from, to);
            let (b2, res) = spec_apply_move(b1, from, to, promotion);
            match res {
                Err(e) => {
                    &&& r == Err::<MoveResult, &'static str>(e)
                    &&& after == (GameLoopView {
                        board: BoardView { card_state: CardStateView { last_move: None, ..b2.card_state }, ..b2 },
                        ..g
                    })
                },
                Ok(()) => exists|elapsed: u64, drawn: GameLoopView|
                    #[trigger] draws_outcome(
                        turn_card_discarded(clock_after_move(GameLoopView { board: b2, ..g }, elapsed)),
                        player,
                        cards_missing(clock_after_move(GameLoopView { board: b2, ..g }, elapsed), player),
                        drawn,
                    )
                    && after == (GameLoopView { board: turn_finished(drawn.board, player), ..drawn })
                    && r == Ok::<MoveResult, &'static str>(move_report(after, player)),
            }
        },
    }
}

/// A player moves only on their turn, only to a square among the piece's
/// allowed moves, and only their own pieces, or, under the traitor card played
/// on the opponent, an enemy pawn onto a square held by the pawn's own side. A
/// move of any other piece of the opponent, on the player's turn, is refused
/// with "not your piece" and leaves the game as it was.
pub proof fn law_players_move_their_own_pieces(
    g: GameLoopView,
    from: Square,
    to: Square,
    player: Color,
    promotion: Option<PieceType>,
    after: GameLoopView,
    r: Result<MoveResult, &'static str>,
)
    requires
        move_outcome(g, from, to, player, promotion, after, r),
    ensures
        player != (if g.is_white_turn { Color::White } else { Color::Black })
            ==> r == Err::<MoveResult, &'static str>("not your turn") && after == g,
        r is Ok ==> {
            &&& player == (if g.is_white_turn { Color::White } else { Color::Black })
            &&& piece_at(g.board, from) is Some
            &&& piece_at(g.board, from)->0.move_set.allowed.contains(to)
            &&& piece_at(g.board, from)->0.color == player || {
                &&& g.board.card_state.traitor == Some(player)
                &&& piece_at(g.board, from)->0.piece_type == PieceType::Pawn
                &&& piece_at(g.board, to) is Some
                &&& piece_at(g.board, to)->0.color == piece_at(g.board, from)->0.color
            }
        },
        ({
            &&& player == (if g.is_white_turn { Color::White } else { Color::Black })
            &&& piece_at(g.board, from) is Some
            &&& piece_at(g.board, from)->0.color != player
            &&& !(g.board.card_state.traitor == Some(player)
                && piece_at(g.board, from)->0.piece_type == PieceType::Pawn
                && piece_at(g.board, to) is Some
                && piece_at(g.board, to)->0.color == piece_at(g.board, from)->0.color)
        }) ==> r == Err::<MoveResult, &'static str>("not your piece") && after == g,
{
}

/// A move, a card or a discard that is refused before it takes effect changes
/// nothing; a card or a discard that is accepted uses the card action of the
/// turn.
pub proof fn law_refusals_change_nothing(
    g: GameLoopView,
    from: Square,
    to: Square,
    card: crate::cards::types::CardId,
    target: crate::cards::types::CardTarget,
    player: Color,
    promotion: Option<PieceType>,
    after: GameLoopView,
    rm: Result<MoveResult, &'static str>,
    rp: Result<(crate::cards::types::CardResultView, u8), &'static str>,
    rd: Result<u8, &'static str>,
)
    ensures
        move_outcome(g, from, to, player, promotion, after, rm) && move_gate(g, from, to, player) is Err ==> after == g,
        crate::game_loop::state::play_outcome(g, card, player, target, after, rp)
            && crate::game_loop::state::play_gate(g, card, player) is Err ==> after == g,
        crate::game_loop::state::play_outcome(g, card, player, target, after, rp) && rp is Ok
            ==> after.action_taken_this_turn && after.card_played_this_turn is Some,
        crate::game_loop::state::discard_outcome(g, card, player, after, rd)
            && crate::game_loop::state::discard_gate(g, card, player) is Err ==> after == g,
        crate::game_loop::state::discard_outcome(g, card, player, after, rd) && rd is Ok ==> after.action_taken_this_turn,
{
}

impl GameLoop {
    /// Checks the move against the turn, the piece's owner and its allowed moves.
    pub fn validate_move(&self, from: Square, to: Square, player_color: Color) -> (r: Result<(), &'static str>)
        requires
            game_wf(self@),
            valid_sq(from),
            valid_sq(to),
        ensures
            r == move_gate(self@, from, to, player_color),
    {
        let current_turn = if self.is_white_turn { Color::White } else { Color::Black };
        if player_color != current_turn {
            return Err("not your turn");
        }
        let piece = match self.board.get_piece_at(from) {
            Some(p) => p,
            None => return Err("no piece at source square"),
        };
        if piece.color != player_color {
            let is_traitor = self.board.card_state.traitor == Some(player_color) && piece.piece_type == PieceType::Pawn
                && match self.board.get_piece_at(to) {
                Some(t) => t.color == piece.color,
                None => false,
            };
            if !is_traitor {
                return Err("not your piece");
            }
        }
        if !self.board.is_move_allowed(from, to) {
            return Err("move not allowed");
        }
        Ok(())
    }
}

/// Ends the mover's turn on the board.
pub fn finish_turn(board: &mut Board, player_color: Color)
    requires
        board_wf(old(board)@),
    ensures
        final(board)@ == turn_finished(old(board)@, player_color),
        board_wf(final(board)@),
{
    board.card_state.decrement_fog();
    board.decrement_sniper(player_color);
    board.clear_traitor();
    match board.card_state.ninja {
        Some((_, owner)) => {
            if owner != player_color {
                board.card_state.ninja_expire_after_opponent_move = true;
            } else if board.card_state.ninja_expire_after_opponent_move {
                board.clear_ninja();
                board.card_state.ninja_expire_after_opponent_move = false;
            }
        }
        None => {}
    }
    board.compute_allowed_moves();
}

pub trait MoveHandler {
    /// The game is well formed and both squares lie on the board.
    spec fn move_ok(&self, from: Square, to: Square) -> bool;

    fn make_move(&mut self, from: Square, to: Square, player_color: Color, promotion: Option<PieceType>) -> Result<MoveResult, &'static str>
        requires
            old(self).move_ok(from, to),
    ;
}

impl MoveHandler for GameLoop {
    open spec fn move_ok(&self, from: Square, to: Square) -> bool {
        game_wf(self@) && valid_sq(from) && valid_sq(to)
    }

    fn make_move(&mut self, from: Square, to: Square, player_color: Color, promotion: Option<PieceType>) -> (r: Result<MoveResult, &'static str>)
        ensures
            move_outcome(old(self)@, from, to, player_color, promotion, final(self)@, r),
            game_wf(final(self)@),
            r is Err ==> clock_readings_kept(*old(self), *final(self)),
            final(self).first_move_deadline == old(self).first_move_deadline,
    {
        match self.validate_move(from, to, player_color) {
            Ok(()) => {}
            Err(e) => return Err(e),
        }
        let ghost g = self@;
        record_last_move(&mut self.board, from, to);
        match self.board.apply_move(from, to, promotion) {
            Ok(()) => {}
            Err(e) => {
                self.board.card_state.clear_last_move();
                return Err(e);
            }
        }
        let ghost g1 = self@;
        self.record_move();
        let ghost g2 = self@;
        let elapsed: Ghost<u64> = Ghost(choose|e: u64| g2 == clock_after_move(g1, e));
        self.discard_and_draw_if_needed(player_color);
        let ghost drawn = self@;
        finish_turn(&mut self.board, player_color);
        let opponent = player_color.other();
        let check = self.board.is_in_check(opponent);
        let checkmate = check && self.board.is_checkmate(opponent);
        let (white_ms, black_ms) = self.get_times();
        let result = MoveResult {
            white_ms,
            black_ms,
            current_player: opponent,
            check,
            checkmate,
            winner: if checkmate { Some(player_color) } else { None },
        };
        assert(draws_outcome(
            turn_card_discarded(clock_after_move(GameLoopView { board: g1.board, ..g }, elapsed@)),
            player_color,
            cards_missing(clock_after_move(GameLoopView { board: g1.board, ..g }, elapsed@), player_color),
            drawn,
        ));
        Ok(result)
    }
}

} // verus!
