//! The lasting state that played cards leave on a game.
use vstd::prelude::*;
use crate::board::types::{Color, Square, Piece, PieceView, PieceType, CellView, opt_piece_view, valid_sq, spec_is_sniper, spec_is_ninja};
use crate::board::utils::{square_to_index, spec_index};
use crate::board::{Board, BoardView, board_wf, piece_at};

verus! {

/// A value for each colour, each possibly absent.
#[derive(Debug, Clone, Copy, PartialEq, Eq, Structural)]
pub struct ColorMap {
    pub white: Option<u8>,
    pub black: Option<u8>,
}

impl ColorMap {
    pub open spec fn spec_get(self, color: Color) -> Option<u8> {
        match color {
            Color::White => self.white,
            Color::Black => self.black,
        }
    }

    pub open spec fn spec_set(self, color: Color, v: Option<u8>) -> ColorMap {
        match color {
            Color::White => ColorMap { white: v, ..self },
            Color::Black => ColorMap { black: v, ..self },
        }
    }

    pub fn new() -> (r: ColorMap)
        ensures
            r.white is None,
            r.black is None,
    {
        ColorMap { white: None, black: None }
    }

    pub fn get(&self, color: Color) -> (r: Option<u8>)
        ensures
            r == self.spec_get(color),
    {
        match color {
            Color::White => self.white,
            Color::Black => self.black,
        }
    }

    pub fn insert(&mut self, color: Color, v: u8)
        ensures
            *final(self) == old(self).spec_set(color, Some(v)),
    {
        match color {
            Color::White => self.white = Some(v),
            Color::Black => self.black = Some(v),
        }
    }

    pub fn remove(&mut self, color: Color)
        ensures
            *final(self) == old(self).spec_set(color, None),
    {
        match color {
            Color::White => self.white = None,
            Color::Black => self.black = None,
        }
    }
}

#[derive(Debug, Clone)]
pub struct LastMove {
    pub from: Square,
    pub to: Square,
    pub moved: Piece,
    pub captured: Option<Piece>,
}

pub struct LastMoveView {
    pub from: Square,
    pub to: Square,
    pub moved: PieceView,
    pub captured: Option<PieceView>,
}

impl View for LastMove {
    type V = LastMoveView;

    open spec fn view(&self) -> LastMoveView {
        LastMoveView {
            from: self.from,
            to: self.to,
            moved: self.moved@,
            captured: opt_piece_view(self.captured),
        }
    }
}

impl LastMove {
    pub fn duplicate(&self) -> (r: LastMove)
        ensures
            r@ == self@,
    {
        LastMove {
            from: self.from,
            to: self.to,
            moved: self.moved.duplicate(),
            captured: match &self.captured {
                Some(p) => Some(p.duplicate()),
                None => None,
            },
        }
    }
}

#[derive(Debug, Clone)]
pub struct CardState {
    pub fog_remaining_turns: u8,
    pub fog_rarity: u8,
    pub fog_creator: Option<Color>,
    pub time_multiplier: ColorMap,
    pub sniper_remaining: ColorMap,
    pub battlefield: Option<(Square, u8)>,
    pub last_move: Option<LastMove>,
    pub magnetism: Option<(Square, Color)>,
    pub bastion: Option<(Square, Color)>,
    pub ninja: Option<(Square, Color)>,
    pub ninja_expire_after_opponent_move: bool,
    pub traitor: Option<Color>,
}

pub struct CardStateView {
    pub fog_remaining_turns: u8,
    pub fog_rarity: u8,
    pub fog_creator: Option<Color>,
    pub time_multiplier: ColorMap,
    pub sniper_remaining: ColorMap,
    pub battlefield: Option<(Square, u8)>,
    pub last_move: Option<LastMoveView>,
    pub magnetism: Option<(Square, Color)>,
    pub bastion: Option<(Square, Color)>,
    pub ninja: Option<(Square, Color)>,
    pub ninja_expire_after_opponent_move: bool,
    pub traitor: Option<Color>,
}

impl View for CardState {
    type V = CardStateView;

    open spec fn view(&self) -> CardStateView {
        CardStateView {
            fog_remaining_turns: self.fog_remaining_turns,
            fog_rarity: self.fog_rarity,
            fog_creator: self.fog_creator,
            time_multiplier: self.time_multiplier,
            sniper_remaining: self.sniper_remaining,
            battlefield: self.battlefield,
            last_move: match self.last_move {
                Some(m) => Some(m@),
                None => None,
            },
            magnetism: self.magnetism,
            bastion: self.bastion,
            ninja: self.ninja,
            ninja_expire_after_opponent_move: self.ninja_expire_after_opponent_move,
            traitor: self.traitor,
        }
    }
}

/// Every square that the card state names lies on the board.
pub open spec fn card_state_wf(s: CardStateView) -> bool {
    &&& (s.battlefield matches Some((c, _)) ==> valid_sq(c))
    &&& (s.magnetism matches Some((c, _)) ==> valid_sq(c))
    &&& (s.bastion matches Some((c, _)) ==> valid_sq(c))
    &&& (s.ninja matches Some((c, _)) ==> valid_sq(c))
    &&& (s.last_move matches Some(m) ==> valid_sq(m.from) && valid_sq(m.to))
}

/// The card state of a game in which no card has been played.
pub open spec fn initial_card_state() -> CardStateView {
    CardStateView {
        fog_remaining_turns: 0,
        fog_rarity: 0,
        fog_creator: None,
        time_multiplier: ColorMap { white: None, black: None },
        sniper_remaining: ColorMap { white: None, black: None },
        battlefield: None,
        last_move: None,
        magnetism: None,
        bastion: None,
        ninja: None,
        ninja_expire_after_opponent_move: false,
        traitor: None,
    }
}

/// The clock multiplier of a colour: 1 unless a card set another.
pub open spec fn time_multiplier_of(s: CardStateView, color: Color) -> u8 {
    match s.time_multiplier.spec_get(color) {
        Some(m) => m,
        None => 1,
    }
}

/// The card state after one fog turn has passed.
pub open spec fn fog_decremented(s: CardStateView) -> CardStateView {
    if s.fog_remaining_turns > 0 {
        let t = (s.fog_remaining_turns - 1) as u8;
        CardStateView {
            fog_remaining_turns: t,
            fog_creator: if t == 0 { None } else { s.fog_creator },
            ..s
        }
    } else {
        s
    }
}

impl CardState {
    pub fn new() -> (r: CardState)
        ensures
            r@ == initial_card_state(),
    {
        CardState {
            fog_remaining_turns: 0,
            fog_rarity: 0,
            fog_creator: None,
            time_multiplier: ColorMap::new(),
            sniper_remaining: ColorMap::new(),
            battlefield: None,
            last_move: None,
            magnetism: None,
            bastion: None,
            ninja: None,
            ninja_expire_after_opponent_move: false,
            traitor: None,
        }
    }

    pub fn duplicate(&self) -> (r: CardState)
        ensures
            r@ == self@,
    {
        CardState {
            fog_remaining_turns: self.fog_remaining_turns,
            fog_rarity: self.fog_rarity,
            fog_creator: self.fog_creator,
            time_multiplier: self.time_multiplier,
            sniper_remaining: self.sniper_remaining,
            battlefield: self.battlefield,
            last_move: match &self.last_move {
                Some(m) => Some(m.duplicate()),
                None => None,
            },
            magnetism: self.magnetism,
            bastion: self.bastion,
            ninja: self.ninja,
            ninja_expire_after_opponent_move: self.ninja_expire_after_opponent_move,
            traitor: self.traitor,
        }
    }

    pub fn set_time_multiplier(&mut self, color: Color, multiplier: u8)
        ensures
            final(self)@ == (CardStateView {
                time_multiplier: old(self)@.time_multiplier.spec_set(color, Some(multiplier)),
                ..old(self)@
            }),
    {
        self.time_multiplier.insert(color, multiplier);
    }

    pub fn get_time_multiplier(&self, color: Color) -> (r: u8)
        ensures
            r == time_multiplier_of(self@, color),
    {
        match self.time_multiplier.get(color) {
            Some(m) => m,
            None => 1,
        }
    }

    pub fn start_fog(&mut self, creator: Color, turns: u8, rarity: u8)
        ensures
            final(self)@ == (CardStateView {
                fog_creator: Some(creator),
                fog_remaining_turns: turns,
                fog_rarity: rarity,
                ..old(self)@
            }),
    {
        self.fog_creator = Some(creator);
        self.fog_remaining_turns = turns;
        self.fog_rarity = rarity;
    }

    pub fn is_fog_active(&self) -> (r: bool)
        ensures
            r == (self.fog_remaining_turns > 0),
    {
        self.fog_remaining_turns > 0
    }

    pub fn decrement_fog(&mut self)
        ensures
            final(self)@ == fog_decremented(old(self)@),
    {
        if self.fog_remaining_turns > 0 {
            self.fog_remaining_turns = self.fog_remaining_turns - 1;
            if self.fog_remaining_turns == 0 {
                self.fog_creator = None;
            }
        }
    }

    pub fn set_sniper(&mut self, color: Color, turns: u8)
        ensures
            final(self)@ == (CardStateView {
                sniper_remaining: old(self)@.sniper_remaining.spec_set(color, Some(turns)),
                ..old(self)@
            }),
    {
        self.sniper_remaining.insert(color, turns);
    }

    pub fn set_last_move(&mut self, last_move: LastMove)
        ensures
            final(self)@ == (CardStateView { last_move: Some(last_move@), ..old(self)@ }),
    {
        self.last_move = Some(last_move);
    }

    pub fn clear_last_move(&mut self)
        ensures
            final(self)@ == (CardStateView { last_move: None, ..old(self)@ }),
    {
        self.last_move = None;
    }
}

impl Default for CardState {
    fn default() -> (r: CardState)
        ensures
            r@ == initial_card_state(),
    {
        CardState::new()
    }
}

/// The cells with the sniper mark taken off every piece of `color`.
pub open spec fn clear_snipers(cells: Seq<CellView>, color: Color) -> Seq<CellView> {
    Seq::new(
        cells.len(),
        |i: int| match cells[i].piece {
            Some(p) => if p.color == color && spec_is_sniper(p) {
                CellView { piece: Some(PieceView { piece_modifier: None, ..p }), ..cells[i] }
            } else {
                cells[i]
            },
            None => cells[i],
        },
    )
}

/// One turn of the sniper card of `color` has passed.
pub open spec fn spec_decrement_sniper(b: BoardView, color: Color) -> BoardView {
    match b.card_state.sniper_remaining.spec_get(color) {
        None => b,
        Some(t) => {
            let t2: u8 = if t > 0 { (t - 1) as u8 } else { 0 };
            if t2 == 0 {
                BoardView {
                    squares: clear_snipers(b.squares, color),
                    card_state: CardStateView {
                        sniper_remaining: b.card_state.sniper_remaining.spec_set(color, None),
                        ..b.card_state
                    },
                    ..b
                }
            } else {
                BoardView {
                    card_state: CardStateView {
                        sniper_remaining: b.card_state.sniper_remaining.spec_set(color, Some(t2)),
                        ..b.card_state
                    },
                    ..b
                }
            }
        },
    }
}

/// The ninja mark is taken off the ninja piece and the ninja forgotten.
pub open spec fn spec_clear_ninja(b: BoardView) -> BoardView {
    let squares = match b.card_state.ninja {
        Some((sq, _)) => match piece_at(b, sq) {
            Some(p) => if spec_is_ninja(p) {
                b.squares.update(spec_index(sq), CellView { piece: Some(PieceView { piece_modifier: None, ..p }), ..b.squares[spec_index(sq)] })
            } else {
                b.squares
            },
            None => b.squares,
        },
        None => b.squares,
    };
    BoardView { squares, card_state: CardStateView { ninja: None, ..b.card_state }, ..b }
}

/// The move from `from` to `to` about to be played, as the last move.
pub open spec fn spec_record_last_move(b: BoardView, from: Square, to: Square) -> BoardView {
    let moved = piece_at(b, from);
    let direct = piece_at(b, to);
    let captured = if direct is None && (moved matches Some(m) && m.piece_type == PieceType::Pawn) {
        match b.en_passant_target {
            Some(ep) => if to == ep && from.file != to.file {
                piece_at(b, Square { file: to.file, rank: from.rank })
            } else {
                direct
            },
            None => direct,
        }
    } else {
        direct
    };
    match moved {
        Some(m) => BoardView {
            card_state: CardStateView {
                last_move: Some(LastMoveView { from, to, moved: m, captured }),
                ..b.card_state
            },
            ..b
        },
        None => b,
    }
}

impl Board {
    pub fn decrement_sniper(&mut self, color: Color)
        requires
            board_wf(old(self)@),
        ensures
            final(self)@ == spec_decrement_sniper(old(self)@, color),
            board_wf(final(self)@),
    {
        let turns = match self.card_state.sniper_remaining.get(color) {
            Some(t) => t,
            None => return,
        };
        let left: u8 = if turns > 0 { turns - 1 } else { 0 };
        if left > 0 {
            self.card_state.sniper_remaining.insert(color, left);
            return;
        }
        self.card_state.sniper_remaining.remove(color);
        let ghost before = self@;
        let mut i: usize = 0;
        while i < self.squares.len()
            invariant
                i <= 64,
                board_wf(before),
                self.squares@.len() == 64,
                self@.squares.len() == 64,
                forall|j: int| 0 <= j < i ==> self@.squares[j] == clear_snipers(before.squares, color)[j],
                forall|j: int| i <= j < 64 ==> self@.squares[j] == before.squares[j],
                self@.captured_pieces == before.captured_pieces,
                self@.en_passant_target == before.en_passant_target,
                self@.castling_rights == before.castling_rights,
                self@.card_state == before.card_state,
            decreases 64 - i,
        {
            let ghost pre = self@;
            let hit = match self.squares[i].as_ref() {
                Some(piece) => piece.color == color && piece.is_sniper(),
                None => false,
            };
            if hit {
                match self.squares[i].as_mut() {
                    Some(piece) => {
                        piece.piece_modifier = None;
                    }
                    None => {}
                }
                assert(self@.squares =~= pre.squares.update(i as int, clear_snipers(before.squares, color)[i as int]));
            }
            assert(self@.squares[i as int] == clear_snipers(before.squares, color)[i as int]);
            i = i + 1;
        }
        assert(self@.squares =~= clear_snipers(before.squares, color));
    }

    pub fn clear_traitor(&mut self)
        ensures
            final(self)@ == (BoardView { card_state: CardStateView { traitor: None, ..old(self)@.card_state }, ..old(self)@ }),
    {
        self.card_state.traitor = None;
    }

    pub fn clear_ninja(&mut self)
        requires
            board_wf(old(self)@),
        ensures
            final(self)@ == spec_clear_ninja(old(self)@),
            board_wf(final(self)@),
    {
        let ghost before = self@;
        match self.card_state.ninja {
            Some((square, _)) => {
                let idx = square_to_index(square);
                let is_ninja = match self.squares[idx].as_ref() {
                    Some(piece) => piece.is_ninja(),
                    None => false,
                };
                if is_ninja {
                    match self.squares[idx].as_mut() {
                        Some(piece) => {
                            piece.piece_modifier = None;
                        }
                        None => {}
                    }
                }
                assert(self@.squares =~= spec_clear_ninja(before).squares);
            }
            None => {}
        }
        self.card_state.ninja = None;
    }
}

pub fn record_last_move(board: &mut Board, from: Square, to: Square)
    requires
        board_wf(old(board)@),
        valid_sq(from),
        valid_sq(to),
    ensures
        final(board)@ == spec_record_last_move(old(board)@, from, to),
        board_wf(final(board)@),
{
    let from_idx = square_to_index(from);
    let to_idx = square_to_index(to);
    let moved: Option<Piece> = match board.squares[from_idx].as_ref() {
        Some(p) => Some(p.duplicate()),
        None => None,
    };
    let mut captured: Option<Piece> = match board.squares[to_idx].as_ref() {
        Some(p) => Some(p.duplicate()),
        None => None,
    };
    let mover_is_pawn = match board.squares[from_idx].as_ref() {
        Some(p) => p.piece_type == PieceType::Pawn,
        None => false,
    };
    if captured.is_none() && mover_is_pawn {
        match board.en_passant_target {
            Some(ep) => {
                if to == ep && from.file != to.file {
                    let victim = Square { file: to.file, rank: from.rank };
                    captured = match board.squares[square_to_index(victim)].as_ref() {
                        Some(p) => Some(p.duplicate()),
                        None => None,
                    };
                }
            }
            None => {}
        }
    }
    match moved {
        Some(moved) => {
            board.card_state.set_last_move(LastMove { from, to, moved, captured });
        }
        None => {}
    }
}

} // verus!
