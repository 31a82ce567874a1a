//! Playing a move on the board: captures, the bastion rescue, en passant,
//! castling, promotion, and the battlefield and ninja that follow a piece.
use vstd::prelude::*;
use crate::board::types::{
    Square, valid_sq, Piece, PieceView, PieceType, Color, CastlingRights, fresh_piece,
    opt_piece_view, spec_is_cannon, spec_is_sniper,
};
use crate::board::utils::{square_add, square_to_index, spec_square_add, spec_index};
use crate::board::{
    Board, BoardView, board_wf, piece_at, occupied, spec_clear_battlefield, spec_move_battlefield,
};
use crate::board::checks::pawn_dir;
use crate::cards::state::{CardStateView, card_state_wf};

verus! {

/// The board with the piece on cell `i` replaced by `p`.
pub open spec fn set_cell_piece(b: BoardView, i: int, p: Option<PieceView>) -> BoardView {
    BoardView { squares: b.squares.update(i, crate::board::types::CellView { piece: p, ..b.squares[i] }), ..b }
}

pub open spec fn set_piece(b: BoardView, sq: Square, p: Option<PieceView>) -> BoardView {
    set_cell_piece(b, spec_index(sq), p)
}

pub open spec fn push_captured(b: BoardView, p: PieceView) -> BoardView {
    BoardView { captured_pieces: b.captured_pieces.push(p), ..b }
}

/// The bastion rescue: a captured piece of the bastion's colour trades places
/// with the bastion piece, which goes to the captured pile instead.
/// Gives the board and whether the rescue happened.
pub open spec fn bastion_step(b: BoardView, to: Square, capture: bool, bastion: Option<(Square, Color)>) -> (BoardView, bool) {
    match bastion {
        Some((bsq, bcolor)) => if capture {
            let captured = piece_at(b, to)->0;
            if captured.color == bcolor && captured.piece_type != PieceType::King && bsq != to
                && occupied(b, bsq) {
                let bp = piece_at(b, bsq)->0;
                if bp.piece_type != PieceType::King {
                    (set_piece(push_captured(set_piece(set_piece(b, bsq, None), to, None), bp), bsq, Some(captured)), true)
                } else {
                    (b, false)
                }
            } else {
                (b, false)
            }
        } else {
            (b, false)
        },
        None => (b, false),
    }
}

/// Whatever stands on `sq` goes to the captured pile.
pub open spec fn capture_at(b: BoardView, sq: Square) -> BoardView {
    match piece_at(b, sq) {
        Some(p) => push_captured(set_piece(b, sq, None), p),
        None => b,
    }
}

/// An en-passant capture by a pawn moving from `from` to `to`.
pub open spec fn ep_capture(b: BoardView, from: Square, to: Square, battlefield: Option<(Square, u8)>) -> BoardView {
    match b.en_passant_target {
        Some(ep) => if to == ep && from.file != to.file {
            let victim = Square { file: to.file, rank: from.rank };
            match piece_at(b, victim) {
                Some(p) => {
                    let b2 = push_captured(set_piece(b, victim, None), p);
                    match battlefield {
                        Some((center, _)) => if center == victim { spec_clear_battlefield(b2) } else { b2 },
                        None => b2,
                    }
                },
                None => b,
            }
        } else {
            b
        },
        None => b,
    }
}

pub open spec fn castling_rights_after(c: CastlingRights, from: Square, p: PieceView) -> CastlingRights {
    match (p.piece_type, p.color) {
        (PieceType::King, Color::White) => CastlingRights { white_king_side: false, white_queen_side: false, ..c },
        (PieceType::King, Color::Black) => CastlingRights { black_king_side: false, black_queen_side: false, ..c },
        (PieceType::Rook, Color::White) => if from == (Square { file: 1, rank: 1 }) {
            CastlingRights { white_queen_side: false, ..c }
        } else if from == (Square { file: 8, rank: 1 }) {
            CastlingRights { white_king_side: false, ..c }
        } else {
            c
        },
        (PieceType::Rook, Color::Black) => if from == (Square { file: 1, rank: 8 }) {
            CastlingRights { black_queen_side: false, ..c }
        } else if from == (Square { file: 8, rank: 8 }) {
            CastlingRights { black_king_side: false, ..c }
        } else {
            c
        },
        _ => c,
    }
}

/// The rook's half of a castling move by a king of `color` landing on `king_to`.
pub open spec fn rook_step(b: BoardView, color: Color, king_to: Square) -> BoardView {
    let rank: u8 = if color == Color::White { 1 } else { 8 };
    let (ff, tf) = if king_to.file == 7 { (8u8, 6u8) } else { (1u8, 4u8) };
    let rf = Square { file: ff, rank };
    let rt = Square { file: tf, rank };
    match piece_at(b, rf) {
        Some(r) => set_piece(set_piece(b, rf, None), rt, Some(r)),
        None => b,
    }
}

/// The en-passant target after `p` moved from `from` to `to`.
pub open spec fn ep_after(from: Square, to: Square, p: PieceView) -> Option<Square> {
    if p.piece_type == PieceType::Pawn && (from.rank - to.rank == 2 || to.rank - from.rank == 2) {
        spec_square_add(from, 0, pawn_dir(p.color))
    } else {
        None
    }
}

pub open spec fn promotion_rank(c: Color) -> u8 {
    if c == Color::White { 8 } else { 1 }
}

/// The battlefield follows its centre piece, and dies when its centre is taken.
pub open spec fn battlefield_step(b: BoardView, from: Square, to: Square, capture: bool, battlefield: Option<(Square, u8)>) -> BoardView {
    match battlefield {
        Some((center, _)) => if center == from {
            spec_move_battlefield(b, center, to)
        } else if center == to && capture {
            spec_clear_battlefield(b)
        } else {
            b
        },
        None => b,
    }
}

pub open spec fn ninja_step(b: BoardView, to: Square) -> BoardView {
    match b.card_state.ninja {
        Some((c, _)) => if c == to {
            BoardView { card_state: CardStateView { ninja: None, ..b.card_state }, ..b }
        } else {
            b
        },
        None => b,
    }
}

/// The captures that happen when `p`, already lifted from `from`, lands on `to`:
/// the board after them and whether a capture on `to` took place.
pub open spec fn capture_phase(b1: BoardView, from: Square, to: Square, p: PieceView, bastion: Option<(Square, Color)>, battlefield: Option<(Square, u8)>) -> (BoardView, bool) {
    let cap = occupied(b1, to);
    let (b2, saved) = bastion_step(b1, to, cap, bastion);
    let b3 = capture_at(b2, to);
    let b4 = if p.piece_type == PieceType::Pawn { ep_capture(b3, from, to, battlefield) } else { b3 };
    (b4, cap && !saved)
}

/// `p` lands on `to`: castling, en-passant target, promotion, battlefield and ninja.
pub open spec fn place_phase(b4: BoardView, from: Square, to: Square, p: PieceView, capture: bool, promotion: Option<PieceType>, battlefield: Option<(Square, u8)>) -> (BoardView, Result<(), &'static str>) {
    let b5 = BoardView { castling_rights: castling_rights_after(b4.castling_rights, from, p), ..b4 };
    let b6 = if p.piece_type == PieceType::King && (from.file - to.file == 2 || to.file - from.file == 2) {
        rook_step(b5, p.color, to)
    } else {
        b5
    };
    let b7 = BoardView { en_passant_target: ep_after(from, to, p), ..b6 };
    let promoting = p.piece_type == PieceType::Pawn && to.rank == promotion_rank(p.color);
    if promoting && promotion is None {
        (b7, Err("promotion required"))
    } else {
        let fp = if promoting { fresh_piece(promotion->0, p.color) } else { p };
        let b8 = set_piece(b7, to, Some(PieceView { has_moved: true, ..fp }));
        let b9 = battlefield_step(b8, from, to, capture, battlefield);
        (ninja_step(b9, to), Ok(()))
    }
}

/// A move of a piece that is neither a pawn nor a king, without cards in
/// play: the piece leaves its square and stands on the target, marked as
/// moved; what stood on the target is captured; no other square changes.
pub proof fn law_plain_move(b: BoardView, from: Square, to: Square, promotion: Option<PieceType>)
    requires
        board_wf(b),
        valid_sq(from),
        valid_sq(to),
        from != to,
        piece_at(b, from) matches Some(p) && p.piece_type != PieceType::Pawn && p.piece_type != PieceType::King
            && !spec_is_cannon(p) && !spec_is_sniper(p),
        b.card_state.bastion is None,
        b.card_state.battlefield is None,
    ensures
        ({
            let (after, r) = spec_apply_move(b, from, to, promotion);
            let p = piece_at(b, from)->0;
            &&& r is Ok
            &&& piece_at(after, from) is None
            &&& piece_at(after, to) == Some(PieceView { has_moved: true, ..p })
            &&& after.captured_pieces == (match piece_at(b, to) {
                Some(q) => b.captured_pieces.push(q),
                None => b.captured_pieces,
            })
            &&& forall|sq: Square| valid_sq(sq) && sq != from && sq != to ==> #[trigger] piece_at(after, sq) == piece_at(b, sq)
        }),
{
    crate::board::utils::lemma_index_roundtrip(from, 0);
    crate::board::utils::lemma_index_roundtrip(to, 0);
    assert forall|sq: Square| valid_sq(sq) && sq != from && sq != to implies
        #[trigger] piece_at(spec_apply_move(b, from, to, promotion).0, sq) == piece_at(b, sq) by {
        crate::board::utils::lemma_index_roundtrip(sq, 0);
    }
}

/// Castling moves the rook too: a king of `c` going from the e-file of its
/// home rank to the g-file brings the rook on the h-file to the f-file, and to
/// the c-file brings the rook on the a-file to the d-file.
pub proof fn law_castling_moves_rook(b: BoardView, c: Color, to_file: u8, promotion: Option<PieceType>)
    requires
        board_wf(b),
        to_file == 7 || to_file == 3,
        piece_at(b, Square { file: 5, rank: (if c == Color::White { 1u8 } else { 8u8 }) }) matches Some(k)
            && k.piece_type == PieceType::King && k.color == c && !spec_is_cannon(k) && !spec_is_sniper(k),
        piece_at(b, Square { file: to_file, rank: (if c == Color::White { 1u8 } else { 8u8 }) }) is None,
        piece_at(b, Square { file: (if to_file == 7 { 8u8 } else { 1u8 }), rank: (if c == Color::White { 1u8 } else { 8u8 }) }) is Some,
        b.card_state.bastion is None,
        b.card_state.battlefield is None,
    ensures
        ({
            let rank: u8 = if c == Color::White { 1 } else { 8 };
            let corner = Square { file: if to_file == 7 { 8u8 } else { 1u8 }, rank };
            let beside = Square { file: if to_file == 7 { 6u8 } else { 4u8 }, rank };
            let (after, r) = spec_apply_move(b, Square { file: 5, rank }, Square { file: to_file, rank }, promotion);
            &&& r is Ok
            &&& piece_at(after, Square { file: 5, rank }) is None
            &&& piece_at(after, Square { file: to_file, rank }) matches Some(k2) && k2.piece_type == PieceType::King
            &&& piece_at(after, corner) is None
            &&& piece_at(after, beside) == piece_at(b, corner)
        }),
{
}

/// A pawn that reaches the last rank is promoted: with a piece chosen, that
/// piece, fresh and of the pawn's colour, stands on the target; without one
/// the move is refused.
pub proof fn law_promotion(b: BoardView, from: Square, to: Square, promotion: Option<PieceType>)
    requires
        board_wf(b),
        valid_sq(from),
        valid_sq(to),
        from != to,
        piece_at(b, from) matches Some(p) && p.piece_type == PieceType::Pawn && !spec_is_cannon(p)
            && !spec_is_sniper(p) && to.rank == (if p.color == Color::White { 8int } else { 1int }),
        b.card_state.battlefield is None,
    ensures
        ({
            let (after, r) = spec_apply_move(b, from, to, promotion);
            let p = piece_at(b, from)->0;
            &&& promotion is None ==> r == Err::<(), &'static str>("promotion required")
            &&& promotion matches Some(pt) ==> r is Ok && piece_at(after, to)
                == Some(PieceView { has_moved: true, ..fresh_piece(pt, p.color) })
        }),
{
    crate::board::utils::lemma_index_roundtrip(to, 0);
}

/// An en-passant capture takes the pawn that passed: a pawn moving diagonally
/// one rank forward onto the en-passant target, an empty square, leaves its
/// square and stands on the target, and the piece on the target's file and
/// the mover's starting rank leaves the board as the last captured piece.
pub proof fn law_en_passant_takes_passed_pawn(b: BoardView, from: Square, to: Square)
    requires
        board_wf(b),
        valid_sq(from),
        valid_sq(to),
        piece_at(b, from) matches Some(p) && p.piece_type == PieceType::Pawn && !spec_is_cannon(p)
            && !spec_is_sniper(p) && to.rank == from.rank + (if p.color == Color::White { 1int } else { -1int })
            && to.rank != (if p.color == Color::White { 8int } else { 1int }),
        to.file == from.file + 1 || to.file + 1 == from.file,
        b.en_passant_target == Some(to),
        piece_at(b, to) is None,
        piece_at(b, Square { file: to.file, rank: from.rank }) is Some,
        b.card_state.battlefield is None,
    ensures
        ({
            let (after, r) = spec_apply_move(b, from, to, None);
            let v = Square { file: to.file, rank: from.rank };
            &&& r is Ok
            &&& piece_at(after, v) is None
            &&& after.captured_pieces == b.captured_pieces.push(piece_at(b, v)->0)
            &&& piece_at(after, to) matches Some(q) && q.piece_type == PieceType::Pawn
                && q.color == piece_at(b, from)->0.color
            &&& piece_at(after, from) is None
        }),
{
}

/// The board after moving the piece on `from` to `to`, and the outcome.
/// On the "promotion required" error the captures have happened and the
/// moving pawn is gone: the refusal comes after the board has changed.
pub open spec fn spec_apply_move(b: BoardView, from: Square, to: Square, promotion: Option<PieceType>) -> (BoardView, Result<(), &'static str>) {
    match piece_at(b, from) {
        None => (b, Err("no piece at source square")),
        Some(p) => {
            let (b4, cap2) = capture_phase(set_piece(b, from, None), from, to, p, b.card_state.bastion, b.card_state.battlefield);
            if spec_is_cannon(p) || (spec_is_sniper(p) && cap2) {
                (set_piece(b4, from, Some(p)), Ok(()))
            } else {
                place_phase(b4, from, to, p, cap2, promotion, b.card_state.battlefield)
            }
        },
    }
}

impl Board {
    /// Removes and returns the piece of cell `i`.
    pub fn take_piece(&mut self, i: usize) -> (r: Option<Piece>)
        requires
            i < old(self).squares@.len(),
        ensures
            opt_piece_view(r) == old(self)@.squares[i as int].piece,
            final(self)@ == set_cell_piece(old(self)@, i as int, None),
            old(self)@.squares[i as int].piece is None ==> final(self)@ == old(self)@,
            final(self).squares@.len() == old(self).squares@.len(),
            board_wf(old(self)@) ==> board_wf(final(self)@),
    {
        let ghost before = self@;
        let r = self.squares[i].take();
        assert(self@.squares =~= set_cell_piece(before, i as int, None).squares);
        proof {
            if before.squares[i as int].piece is None {
                assert(self@.squares =~= before.squares);
            }
        }
        r
    }

    /// Puts `p` on cell `i`, dropping whatever stood there.
    pub fn put_piece(&mut self, i: usize, p: Option<Piece>)
        requires
            i < old(self).squares@.len(),
        ensures
            final(self)@ == set_cell_piece(old(self)@, i as int, opt_piece_view(p)),
            final(self).squares@.len() == old(self).squares@.len(),
            board_wf(old(self)@) ==> board_wf(final(self)@),
    {
        let ghost before = self@;
        let ghost pv = opt_piece_view(p);
        self.squares[i].piece = p;
        assert(self@.squares =~= set_cell_piece(before, i as int, pv).squares);
    }

    /// Adds `p` to the captured pile.
    pub fn push_captured(&mut self, p: Piece)
        ensures
            final(self)@ == push_captured(old(self)@, p@),
            final(self).squares@ == old(self).squares@,
            board_wf(old(self)@) ==> board_wf(final(self)@),
    {
        let ghost before = self@;
        let ghost pv = p@;
        self.captured_pieces.push(p);
        assert(self@.captured_pieces =~= before.captured_pieces.push(pv));
    }
}

fn bastion_rescue(board: &mut Board, to: Square, capture: bool, bastion: Option<(Square, Color)>) -> (saved: bool)
    requires
        board_wf(old(board)@),
        valid_sq(to),
        bastion matches Some((s, _)) ==> valid_sq(s),
        capture == occupied(old(board)@, to),
    ensures
        final(board)@ == bastion_step(old(board)@, to, capture, bastion).0,
        saved == bastion_step(old(board)@, to, capture, bastion).1,
        board_wf(final(board)@),
{
    let (bastion_sq, bastion_color) = match bastion {
        Some(x) => x,
        None => return false,
    };
    if !capture {
        return false;
    }
    let to_idx = square_to_index(to);
    let bastion_idx = square_to_index(bastion_sq);
    let ok = match board.squares[to_idx].as_ref() {
        Some(captured) => captured.color == bastion_color && captured.piece_type != PieceType::King
            && bastion_sq != to && board.squares[bastion_idx].is_some(),
        None => false,
    };
    if !ok {
        return false;
    }
    let bastion_is_king = match board.squares[bastion_idx].as_ref() {
        Some(bp) => bp.piece_type == PieceType::King,
        None => false,
    };
    if bastion_is_king {
        return false;
    }
    let bastion_piece = board.take_piece(bastion_idx);
    let captured = board.take_piece(to_idx);
    match bastion_piece {
        Some(bp) => board.push_captured(bp),
        None => {}
    }
    board.put_piece(bastion_idx, captured);
    true
}

fn capture_on(board: &mut Board, sq: Square)
    requires
        board_wf(old(board)@),
        valid_sq(sq),
    ensures
        final(board)@ == capture_at(old(board)@, sq),
        board_wf(final(board)@),
{
    match board.take_piece(square_to_index(sq)) {
        Some(captured) => board.push_captured(captured),
        None => {}
    }
}

fn en_passant_capture(board: &mut Board, from: Square, to: Square, battlefield: Option<(Square, u8)>)
    requires
        board_wf(old(board)@),
        valid_sq(from),
        valid_sq(to),
        battlefield == old(board)@.card_state.battlefield,
    ensures
        final(board)@ == ep_capture(old(board)@, from, to, battlefield),
        board_wf(final(board)@),
{
    let ep_target = match board.en_passant_target {
        Some(t) => t,
        None => return,
    };
    if !(to == ep_target && from.file != to.file) {
        return;
    }
    let victim = Square { file: to.file, rank: from.rank };
    match board.take_piece(square_to_index(victim)) {
        Some(captured) => {
            board.push_captured(captured);
            match battlefield {
                Some((center, _)) => {
                    if center == victim {
                        board.clear_battlefield();
                    }
                }
                None => {}
            }
        }
        None => {}
    }
}

fn update_castling_rights(board: &mut Board, from: Square, piece: &Piece)
    ensures
        final(board)@ == (BoardView { castling_rights: castling_rights_after(old(board)@.castling_rights, from, piece@), ..old(board)@ }),
{
    match (piece.piece_type, piece.color) {
        (PieceType::King, Color::White) => {
            board.castling_rights.white_king_side = false;
            board.castling_rights.white_queen_side = false;
        }
        (PieceType::King, Color::Black) => {
            board.castling_rights.black_king_side = false;
            board.castling_rights.black_queen_side = false;
        }
        (PieceType::Rook, Color::White) => {
            if from == (Square { file: 1, rank: 1 }) {
                board.castling_rights.white_queen_side = false;
            } else if from == (Square { file: 8, rank: 1 }) {
                board.castling_rights.white_king_side = false;
            }
        }
        (PieceType::Rook, Color::Black) => {
            if from == (Square { file: 1, rank: 8 }) {
                board.castling_rights.black_queen_side = false;
            } else if from == (Square { file: 8, rank: 8 }) {
                board.castling_rights.black_king_side = false;
            }
        }
        _ => {}
    }
}

fn apply_castling_rook_move(board: &mut Board, king: &Piece, king_to: Square)
    requires
        board_wf(old(board)@),
    ensures
        final(board)@ == rook_step(old(board)@, king.color, king_to),
        board_wf(final(board)@),
{
    let rank: u8 = if king.color == Color::White { 1 } else { 8 };
    let (from_file, to_file): (u8, u8) = if king_to.file == 7 { (8, 6) } else { (1, 4) };
    let from_idx = square_to_index(Square { file: from_file, rank });
    let to_idx = square_to_index(Square { file: to_file, rank });
    match board.take_piece(from_idx) {
        Some(rook) => board.put_piece(to_idx, Some(rook)),
        None => {}
    }
}

fn update_en_passant(board: &mut Board, from: Square, to: Square, piece: &Piece)
    requires
        valid_sq(from),
        valid_sq(to),
    ensures
        final(board)@ == (BoardView { en_passant_target: ep_after(from, to, piece@), ..old(board)@ }),
{
    if piece.piece_type == PieceType::Pawn && (from.rank == to.rank + 2 || to.rank == from.rank + 2) {
        let direction: i8 = if piece.color == Color::White { 1 } else { -1 };
        board.en_passant_target = square_add(from, 0, direction);
    } else {
        board.en_passant_target = None;
    }
}

pub trait MoveApplier {
    spec fn board_ok(&self) -> bool;

    fn apply_move(&mut self, from: Square, to: Square, promotion: Option<PieceType>) -> Result<(), &'static str>
        requires
            old(self).board_ok(),
            valid_sq(from),
            valid_sq(to),
    ;
}

impl MoveApplier for Board {
    open spec fn board_ok(&self) -> bool {
        board_wf(self@)
    }

    fn apply_move(&mut self, from: Square, to: Square, promotion: Option<PieceType>) -> (r: Result<(), &'static str>)
        ensures
            final(self)@ == spec_apply_move(old(self)@, from, to, promotion).0,
            r == spec_apply_move(old(self)@, from, to, promotion).1,
            board_wf(final(self)@),
    {
        let from_idx = square_to_index(from);
        let battlefield_before = self.card_state.battlefield;
        let bastion_before = self.card_state.bastion;
        let piece = match self.take_piece(from_idx) {
            Some(p) => p,
            None => return Err("no piece at source square"),
        };
        let capture_happened = lift_captures(self, from, to, &piece, bastion_before, battlefield_before);
        if piece.is_cannon() || (piece.is_sniper() && capture_happened) {
            self.put_piece(from_idx, Some(piece));
            return Ok(());
        }
        land_piece(self, from, to, piece, capture_happened, promotion, battlefield_before)
    }
}

/// The captures caused by `piece`, lifted from `from`, landing on `to`.
fn lift_captures(board: &mut Board, from: Square, to: Square, piece: &Piece, bastion: Option<(Square, Color)>, battlefield: Option<(Square, u8)>) -> (capture: bool)
    requires
        board_wf(old(board)@),
        valid_sq(from),
        valid_sq(to),
        bastion == old(board)@.card_state.bastion,
        battlefield == old(board)@.card_state.battlefield,
    ensures
        final(board)@ == capture_phase(old(board)@, from, to, piece@, bastion, battlefield).0,
        capture == capture_phase(old(board)@, from, to, piece@, bastion, battlefield).1,
        board_wf(final(board)@),
{
    let to_idx = square_to_index(to);
    let capture_happened = board.squares[to_idx].is_some();
    let bastion_saved = bastion_rescue(board, to, capture_happened, bastion);
    capture_on(board, to);
    if piece.piece_type == PieceType::Pawn {
        en_passant_capture(board, from, to, battlefield);
    }
    capture_happened && !bastion_saved
}

/// `piece` lands on `to` after leaving `from`.
#[verifier::rlimit(60)]
fn land_piece(board: &mut Board, from: Square, to: Square, piece: Piece, capture: bool, promotion: Option<PieceType>, battlefield: Option<(Square, u8)>) -> (r: Result<(), &'static str>)
    requires
        board_wf(old(board)@),
        valid_sq(from),
        valid_sq(to),
    ensures
        final(board)@ == place_phase(old(board)@, from, to, piece@, capture, promotion, battlefield).0,
        r == place_phase(old(board)@, from, to, piece@, capture, promotion, battlefield).1,
        board_wf(final(board)@),
{
    update_castling_rights(board, from, &piece);
    if piece.piece_type == PieceType::King && (from.file == to.file + 2 || to.file == from.file + 2) {
        apply_castling_rook_move(board, &piece, to);
    }
    update_en_passant(board, from, to, &piece);
    let promoting = piece.piece_type == PieceType::Pawn
        && to.rank == (if piece.color == Color::White { 8u8 } else { 1u8 });
    let mut final_piece = if promoting {
        match promotion {
            Some(promote_to) => Piece::new(promote_to, piece.color),
            None => return Err("promotion required"),
        }
    } else {
        piece
    };
    final_piece.has_moved = true;
    board.put_piece(square_to_index(to), Some(final_piece));
    match battlefield {
        Some((center, _)) => {
            if center == from {
                board.move_battlefield(center, to);
            } else if center == to && capture {
                board.clear_battlefield();
            }
        }
        None => {}
    }
    match board.card_state.ninja {
        Some((center, _)) => {
            if center == to {
                board.card_state.ninja = None;
            }
        }
        None => {}
    }
    Ok(())
}

} // verus!
