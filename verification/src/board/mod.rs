//! The board: 64 cells, captured pieces, en-passant and castling state,
//! and the state that cards leave behind.
pub mod types;
pub mod utils;
pub mod sorted;
pub mod checks;
pub mod apply;
pub mod moves;
pub mod sight;

use vstd::prelude::*;
use crate::board::types::{
    Square, valid_sq, Piece, PieceView, PieceType, Color, SquareCell, CellView, SquareModifier,
    CastlingRights, fresh_piece,
};
use crate::board::utils::{square_to_index, index_to_square, signed_of, as_signed, spec_index, spec_square_of};
use crate::board::sorted::{strictly_sorted, insert_all_sorted};
use crate::cards::state::{CardState, CardStateView, card_state_wf, initial_card_state};

verus! {

#[derive(Debug, Clone)]
pub struct Board {
    pub squares: Vec<SquareCell>,
    pub captured_pieces: Vec<Piece>,
    pub en_passant_target: Option<Square>,
    pub castling_rights: CastlingRights,
    pub card_state: CardState,
}

#[derive(Debug, Clone)]
pub struct Card {}

pub struct BoardView {
    pub squares: Seq<CellView>,
    pub captured_pieces: Seq<PieceView>,
    pub en_passant_target: Option<Square>,
    pub castling_rights: CastlingRights,
    pub card_state: CardStateView,
}

impl View for Board {
    type V = BoardView;

    open spec fn view(&self) -> BoardView {
        BoardView {
            squares: self.squares@.map_values(|c: SquareCell| c@),
            captured_pieces: self.captured_pieces@.map_values(|p: Piece| p@),
            en_passant_target: self.en_passant_target,
            castling_rights: self.castling_rights,
            card_state: self.card_state@,
        }
    }
}

/// A board of 64 cells whose recorded squares all lie on the board.
pub open spec fn board_wf(b: BoardView) -> bool {
    &&& b.squares.len() == 64
    &&& (b.en_passant_target matches Some(s) ==> valid_sq(s))
    &&& card_state_wf(b.card_state)
}

pub open spec fn piece_at(b: BoardView, sq: Square) -> Option<PieceView> {
    b.squares[spec_index(sq)].piece
}

pub open spec fn occupied(b: BoardView, sq: Square) -> bool {
    b.squares[spec_index(sq)].piece is Some
}

pub open spec fn is_battlefield_cell(c: CellView) -> bool {
    c.modifier matches Some(SquareModifier::Battlefield { .. })
}

pub open spec fn is_deadly_cell(c: CellView) -> bool {
    c.modifier matches Some(SquareModifier::DeadlyZone { .. })
}

pub open spec fn spec_is_deadly(b: BoardView, sq: Square) -> bool {
    is_deadly_cell(b.squares[spec_index(sq)])
}

pub open spec fn spec_is_ninja_square(b: BoardView, sq: Square) -> bool {
    b.card_state.ninja matches Some((s, _)) && s == sq
}

/// `sq` is on the board and within one file and one rank of `c`.
pub open spec fn in_box(c: Square, sq: Square) -> bool {
    &&& valid_sq(sq)
    &&& as_signed(c.file) - 1 <= sq.file <= as_signed(c.file) + 1
    &&& as_signed(c.rank) - 1 <= sq.rank <= as_signed(c.rank) + 1
}

/// The cells with the battlefield marks around `c` removed.
pub open spec fn clear_box(cells: Seq<CellView>, c: Square) -> Seq<CellView> {
    Seq::new(
        cells.len(),
        |i: int|
            if in_box(c, spec_square_of(i)) && is_battlefield_cell(cells[i]) {
                CellView { modifier: None, ..cells[i] }
            } else {
                cells[i]
            },
    )
}

/// The cells with every cell around `c` that is not a deadly zone marked as battlefield.
pub open spec fn paint_box(cells: Seq<CellView>, c: Square, rarity: u8) -> Seq<CellView> {
    Seq::new(
        cells.len(),
        |i: int|
            if in_box(c, spec_square_of(i)) && !is_deadly_cell(cells[i]) {
                CellView { modifier: Some(SquareModifier::Battlefield { rarity }), ..cells[i] }
            } else {
                cells[i]
            },
    )
}

pub open spec fn spec_clear_battlefield(b: BoardView) -> BoardView {
    match b.card_state.battlefield {
        None => b,
        Some((c, _)) => BoardView {
            squares: clear_box(b.squares, c),
            card_state: CardStateView { battlefield: None, ..b.card_state },
            ..b
        },
    }
}

pub open spec fn spec_move_battlefield(b: BoardView, old_center: Square, new_center: Square) -> BoardView {
    match b.card_state.battlefield {
        None => b,
        Some((_, rarity)) => BoardView {
            squares: paint_box(clear_box(b.squares, old_center), new_center, rarity),
            card_state: CardStateView { battlefield: Some((new_center, rarity)), ..b.card_state },
            ..b
        },
    }
}

/// The cell holds a piece of `color` that may move to `sq`.
pub open spec fn cell_reaches(c: CellView, color: Color, sq: Square) -> bool {
    match c.piece {
        Some(p) => p.color == color && p.move_set.allowed.contains(sq),
        None => false,
    }
}

/// A square that some piece of `color` may move to.
pub open spec fn spec_reachable(b: BoardView, color: Color, sq: Square) -> bool {
    exists|i: int|
        0 <= i < 64 && cell_reaches(#[trigger] b.squares[i], color, sq)
}

/// The back-rank piece on file number `f` (0-based).
pub open spec fn back_rank(f: int) -> PieceType {
    if f == 0 || f == 7 {
        PieceType::Rook
    } else if f == 1 || f == 6 {
        PieceType::Knight
    } else if f == 2 || f == 5 {
        PieceType::Bishop
    } else if f == 3 {
        PieceType::Queen
    } else {
        PieceType::King
    }
}

/// The piece on cell `i` at the start of a game.
pub open spec fn initial_piece(i: int) -> Option<PieceView> {
    if 0 <= i < 8 {
        Some(fresh_piece(back_rank(i), Color::White))
    } else if 8 <= i < 16 {
        Some(fresh_piece(PieceType::Pawn, Color::White))
    } else if 48 <= i < 56 {
        Some(fresh_piece(PieceType::Pawn, Color::Black))
    } else if 56 <= i < 64 {
        Some(fresh_piece(back_rank(i - 56), Color::Black))
    } else {
        None
    }
}

/// The board at the start of a game.
pub open spec fn initial_board() -> BoardView {
    BoardView {
        squares: Seq::new(64, |i: int| CellView { piece: initial_piece(i), modifier: None }),
        captured_pieces: Seq::empty(),
        en_passant_target: None,
        castling_rights: CastlingRights {
            white_king_side: true,
            white_queen_side: true,
            black_king_side: true,
            black_queen_side: true,
        },
        card_state: initial_card_state(),
    }
}

fn back_rank_piece(f: usize) -> (r: PieceType)
    requires
        f < 8,
    ensures
        r == back_rank(f as int),
{
    if f == 0 || f == 7 {
        PieceType::Rook
    } else if f == 1 || f == 6 {
        PieceType::Knight
    } else if f == 2 || f == 5 {
        PieceType::Bishop
    } else if f == 3 {
        PieceType::Queen
    } else {
        PieceType::King
    }
}

impl Board {
    /// Whether the board is well formed: 64 cells, and every square that it
    /// records lies on the board.
    pub fn is_well_formed(&self) -> (r: bool)
        ensures
            r == board_wf(self@),
    {
        let on_board = |s: Square| -> (b: bool)
            ensures
                b == valid_sq(s),
        { 1 <= s.file && s.file <= 8 && 1 <= s.rank && s.rank <= 8 };
        let ep = match self.en_passant_target {
            Some(s) => on_board(s),
            None => true,
        };
        let cs = &self.card_state;
        let battlefield = match cs.battlefield {
            Some((c, _)) => on_board(c),
            None => true,
        };
        let magnetism = match cs.magnetism {
            Some((c, _)) => on_board(c),
            None => true,
        };
        let bastion = match cs.bastion {
            Some((c, _)) => on_board(c),
            None => true,
        };
        let ninja = match cs.ninja {
            Some((c, _)) => on_board(c),
            None => true,
        };
        let last = match &cs.last_move {
            Some(m) => on_board(m.from) && on_board(m.to),
            None => true,
        };
        self.squares.len() == 64 && ep && battlefield && magnetism && bastion && ninja && last
    }

    /// A copy with the same contents.
    pub fn duplicate(&self) -> (r: Board)
        ensures
            r@ == self@,
    {
        let mut squares: Vec<SquareCell> = Vec::new();
        let mut i: usize = 0;
        while i < self.squares.len()
            invariant
                i <= self.squares.len(),
                squares@.len() == i,
                forall|j: int| 0 <= j < i ==> (#[trigger] squares@[j])@ == self.squares@[j]@,
            decreases self.squares.len() - i,
        {
            squares.push(self.squares[i].duplicate());
            i = i + 1;
        }
        let mut captured: Vec<Piece> = Vec::new();
        let mut k: usize = 0;
        while k < self.captured_pieces.len()
            invariant
                k <= self.captured_pieces.len(),
                captured@.len() == k,
                forall|j: int| 0 <= j < k ==> (#[trigger] captured@[j])@ == self.captured_pieces@[j]@,
            decreases self.captured_pieces.len() - k,
        {
            captured.push(self.captured_pieces[k].duplicate());
            k = k + 1;
        }
        let r = Board {
            squares,
            captured_pieces: captured,
            en_passant_target: self.en_passant_target,
            castling_rights: self.castling_rights,
            card_state: self.card_state.duplicate(),
        };
        assert(r@.squares =~= self@.squares);
        assert(r@.captured_pieces =~= self@.captured_pieces);
        r
    }

    pub fn get_piece_at(&self, square: Square) -> (r: Option<&Piece>)
        requires
            board_wf(self@),
            valid_sq(square),
        ensures
            r is Some <==> piece_at(self@, square) is Some,
            r is Some ==> r->0@ == piece_at(self@, square)->0,
    {
        self.squares[square_to_index(square)].as_ref()
    }

    pub fn is_battlefield_square(&self, index: usize) -> (r: bool)
        requires
            index < self.squares@.len(),
        ensures
            r == is_battlefield_cell(self@.squares[index as int]),
    {
        match self.squares[index].modifier {
            Some(SquareModifier::Battlefield { .. }) => true,
            _ => false,
        }
    }

    pub fn is_deadly_zone_square(&self, index: usize) -> (r: bool)
        requires
            index < self.squares@.len(),
        ensures
            r == is_deadly_cell(self@.squares[index as int]),
    {
        match self.squares[index].modifier {
            Some(SquareModifier::DeadlyZone { .. }) => true,
            _ => false,
        }
    }

    pub fn is_ninja_square(&self, square: Square) -> (r: bool)
        ensures
            r == spec_is_ninja_square(self@, square),
    {
        match self.card_state.ninja {
            Some((sq, _)) => sq == square,
            None => false,
        }
    }

    pub fn is_deadly_zone(&self, square: Square) -> (r: bool)
        requires
            board_wf(self@),
            valid_sq(square),
        ensures
            r == spec_is_deadly(self@, square),
    {
        self.is_deadly_zone_square(square_to_index(square))
    }

    /// Replaces the modifier of cell `i`.
    pub fn set_cell_modifier(&mut self, i: usize, m: Option<SquareModifier>)
        requires
            i < old(self).squares@.len(),
        ensures
            final(self)@ == (BoardView {
                squares: old(self)@.squares.update(i as int, CellView { modifier: m, ..old(self)@.squares[i as int] }),
                ..old(self)@
            }),
    {
        let ghost before = self@;
        self.squares[i].modifier = m;
        assert(self@.squares =~= before.squares.update(i as int, CellView { modifier: m, ..before.squares[i as int] }));
    }

    /// Removes the battlefield marks around `c` (one step of clearing).
    fn clear_box_cells(&mut self, c: Square)
        requires
            board_wf(old(self)@),
        ensures
            final(self)@ == (BoardView { squares: clear_box(old(self)@.squares, c), ..old(self)@ }),
    {
        let ghost before = self@;
        let cf: i16 = signed_of(c.file);
        let cr: i16 = signed_of(c.rank);
        let mut i: usize = 0;
        while i < 64
            invariant
                i <= 64,
                cf == as_signed(c.file),
                cr == as_signed(c.rank),
                board_wf(before),
                self@.squares.len() == 64,
                forall|j: int| 0 <= j < i ==> self@.squares[j] == clear_box(before.squares, c)[j],
                forall|j: int| i <= j < 64 ==> self@.squares[j] == before.squares[j],
                self@.captured_pieces == before.captured_pieces,
                self@.en_passant_target == before.en_passant_target,
                self@.castling_rights == before.castling_rights,
                self@.card_state == before.card_state,
            decreases 64 - i,
        {
            let sq = index_to_square(i);
            let f: i16 = sq.file as i16;
            let r: i16 = sq.rank as i16;
            if cf - 1 <= f && f <= cf + 1 && cr - 1 <= r && r <= cr + 1 && self.is_battlefield_square(i) {
                self.set_cell_modifier(i, None);
            }
            i = i + 1;
        }
        assert(self@.squares =~= clear_box(before.squares, c));
    }

    /// Marks every cell around `c` that is not a deadly zone as battlefield.
    pub(crate) fn paint_box_cells(&mut self, c: Square, rarity: u8)
        requires
            board_wf(old(self)@),
        ensures
            final(self)@ == (BoardView { squares: paint_box(old(self)@.squares, c, rarity), ..old(self)@ }),
    {
        let ghost before = self@;
        let cf: i16 = signed_of(c.file);
        let cr: i16 = signed_of(c.rank);
        let mut i: usize = 0;
        while i < 64
            invariant
                i <= 64,
                cf == as_signed(c.file),
                cr == as_signed(c.rank),
                board_wf(before),
                self@.squares.len() == 64,
                forall|j: int| 0 <= j < i ==> self@.squares[j] == paint_box(before.squares, c, rarity)[j],
                forall|j: int| i <= j < 64 ==> self@.squares[j] == before.squares[j],
                self@.captured_pieces == before.captured_pieces,
                self@.en_passant_target == before.en_passant_target,
                self@.castling_rights == before.castling_rights,
                self@.card_state == before.card_state,
            decreases 64 - i,
        {
            let sq = index_to_square(i);
            let f: i16 = sq.file as i16;
            let r: i16 = sq.rank as i16;
            if cf - 1 <= f && f <= cf + 1 && cr - 1 <= r && r <= cr + 1 && !self.is_deadly_zone_square(i) {
                self.set_cell_modifier(i, Some(SquareModifier::Battlefield { rarity }));
                assert(self@.squares[i as int] == paint_box(before.squares, c, rarity)[i as int]);
            } else {
                assert(self@.squares[i as int] == paint_box(before.squares, c, rarity)[i as int]);
            }
            assert(forall|j: int| 0 <= j < i + 1 ==> self@.squares[j] == paint_box(before.squares, c, rarity)[j]);
            i = i + 1;
        }
        assert(self@.squares =~= paint_box(before.squares, c, rarity));
    }

    pub fn clear_battlefield(&mut self)
        requires
            board_wf(old(self)@),
        ensures
            final(self)@ == spec_clear_battlefield(old(self)@),
            board_wf(final(self)@),
    {
        let center = match self.card_state.battlefield {
            Some((c, _)) => c,
            None => return,
        };
        self.card_state.battlefield = None;
        self.clear_box_cells(center);
    }

    pub fn move_battlefield(&mut self, old_center: Square, new_center: Square)
        requires
            board_wf(old(self)@),
        ensures
            final(self)@ == spec_move_battlefield(old(self)@, old_center, new_center),
            valid_sq(new_center) ==> board_wf(final(self)@),
    {
        let rarity = match self.card_state.battlefield {
            Some((_, r)) => r,
            None => return,
        };
        self.clear_box_cells(old_center);
        self.paint_box_cells(new_center, rarity);
        self.card_state.battlefield = Some((new_center, rarity));
    }

    pub fn is_fog_active_for(&self, _color: Color) -> (r: bool)
        ensures
            r == (self.card_state.fog_remaining_turns > 0),
    {
        self.card_state.is_fog_active()
    }

    pub fn reachable_squares_for(&self, color: Color) -> (r: Vec<Square>)
        requires
            board_wf(self@),
        ensures
            strictly_sorted(r@),
            forall|sq: Square| r@.contains(sq) <==> spec_reachable(self@, color, sq),
    {
        let mut reachable: Vec<Square> = Vec::new();
        let mut i: usize = 0;
        while i < 64
            invariant
                i <= 64,
                board_wf(self@),
                strictly_sorted(reachable@),
                forall|sq: Square| reachable@.contains(sq) <==> exists|j: int|
                    0 <= j < i && cell_reaches(#[trigger] self@.squares[j], color, sq),
            decreases 64 - i,
        {
            let ghost before = reachable@;
            let ghost cell = self@.squares[i as int];
            match self.squares[i].as_ref() {
                Some(piece) => {
                    assert(cell.piece == Some(piece@));
                    if piece.color == color {
                        insert_all_sorted(&mut reachable, &piece.move_set.allowed);
                        assert(forall|sq: Square| #[trigger] reachable@.contains(sq) == (before.contains(sq) || piece@.move_set.allowed.contains(sq)));
                    } else {
                        assert(reachable@ == before);
                    }
                }
                None => {
                    assert(reachable@ == before);
                }
            }
            assert(forall|sq: Square| reachable@.contains(sq) <==> (before.contains(sq) || cell_reaches(cell, color, sq)));
            assert forall|sq: Square| reachable@.contains(sq) <==> exists|j: int|
                0 <= j < i + 1 && cell_reaches(#[trigger] self@.squares[j], color, sq) by {
                if exists|j: int| 0 <= j < i + 1 && cell_reaches(#[trigger] self@.squares[j], color, sq) {
                    let j = choose|j: int| 0 <= j < i + 1 && cell_reaches(#[trigger] self@.squares[j], color, sq);
                    if j < i {
                        assert(before.contains(sq));
                    }
                }
                if before.contains(sq) {
                    let j = choose|j: int| 0 <= j < i && cell_reaches(#[trigger] self@.squares[j], color, sq);
                    assert(0 <= j < i + 1);
                }
                if cell_reaches(cell, color, sq) {
                    assert(cell_reaches(self@.squares[i as int], color, sq));
                }
            }
            i = i + 1;
        }
        reachable
    }
}

impl Default for Board {
    fn default() -> (r: Board)
        ensures
            r@ == initial_board(),
    {
        let mut squares: Vec<SquareCell> = Vec::new();
        let mut i: usize = 0;
        while i < 64
            invariant
                i <= 64,
                squares@.len() == i,
                forall|j: int| 0 <= j < i ==> (#[trigger] squares@[j])@ == (CellView { piece: initial_piece(j), modifier: None }),
            decreases 64 - i,
        {
            let piece = if i < 8 {
                Some(Piece::new(back_rank_piece(i), Color::White))
            } else if i < 16 {
                Some(Piece::new(PieceType::Pawn, Color::White))
            } else if 48 <= i && i < 56 {
                Some(Piece::new(PieceType::Pawn, Color::Black))
            } else if i >= 56 {
                Some(Piece::new(back_rank_piece(i - 56), Color::Black))
            } else {
                None
            };
            squares.push(SquareCell { piece, modifier: None });
            i = i + 1;
        }
        let r = Board {
            squares,
            captured_pieces: Vec::new(),
            en_passant_target: None,
            castling_rights: CastlingRights::default(),
            card_state: CardState::new(),
        };
        assert(r@.squares =~= initial_board().squares);
        assert(r@.captured_pieces =~= Seq::<PieceView>::empty());
        r
    }
}

} // verus!
