//! Move generation: the squares each piece may reach under the card rules,
//! and which of them are legal.
use vstd::prelude::*;
use crate::board::types::{
    Square, valid_sq, PieceView, PieceType, Color, spec_is_cannon, spec_is_veteran_knight,
    spec_is_veteran_rook, spec_is_veteran_bishop,
};
use crate::board::utils::{square_add, index_to_square, square_to_index, spec_square_add, spec_index, spec_square_of};
use crate::board::sorted::{strictly_sorted, insert_all_sorted, lemma_sorted_unique, lemma_sorted_enumeration};
use crate::board::checks::{
    CheckAnalyzer, pawn_dir, ray, unit_dir, rook_dirs, bishop_dirs, slide_dirs, knight_offsets,
    king_offsets, attack_passes, spec_in_check, spec_attacked, lemma_ray_step, lemma_ray_leaves,
    knight_offsets_vec, king_offsets_vec, slide_dirs_vec,
};
use crate::board::{Board, BoardView, board_wf, piece_at, occupied, spec_is_deadly, spec_is_ninja_square, is_battlefield_cell};

verus! {

/// The target may be moved onto: no deadly zone, and empty or hostile.
pub open spec fn empty_or_enemy(b: BoardView, t: Square, c: Color) -> bool {
    !spec_is_deadly(b, t) && match piece_at(b, t) {
        None => true,
        Some(p) => p.color != c,
    }
}

/// Empty and no deadly zone.
pub open spec fn free_sq(b: BoardView, t: Square) -> bool {
    !spec_is_deadly(b, t) && !occupied(b, t)
}

/// A one-step offset of `offs` from `from` reaches `t`, which may be moved onto.
pub open spec fn offset_target(b: BoardView, from: Square, c: Color, offs: Seq<(i8, i8)>, t: Square) -> bool {
    empty_or_enemy(b, t, c) && exists|i: int|
        0 <= i < offs.len() && spec_square_add(from, (#[trigger] offs[i]).0 as int, offs[i].1 as int) == Some(t)
}

/// A slide passes over `q`: no deadly zone, and empty or the ninja.
pub open spec fn slide_passes(b: BoardView, q: Square) -> bool {
    !spec_is_deadly(b, q) && (!occupied(b, q) || spec_is_ninja_square(b, q))
}

/// A slide may stop on `t`: no deadly zone, and empty, the ninja, or hostile.
pub open spec fn slide_lands(b: BoardView, t: Square, c: Color) -> bool {
    !spec_is_deadly(b, t) && (!occupied(b, t) || spec_is_ninja_square(b, t) || piece_at(b, t)->0.color != c)
}

pub open spec fn slide_ray_target(b: BoardView, from: Square, d: (i8, i8), c: Color, t: Square) -> bool {
    exists|s: int|
        1 <= s <= 7 && #[trigger] ray(from, d, s) == Some(t) && slide_lands(b, t, c) && forall|k: int|
            1 <= k < s ==> (#[trigger] ray(from, d, k)) is Some && slide_passes(b, ray(from, d, k)->0)
}

pub open spec fn slide_target(b: BoardView, from: Square, dirs: Seq<(i8, i8)>, c: Color, t: Square) -> bool {
    exists|i: int| 0 <= i < dirs.len() && slide_ray_target(b, from, #[trigger] dirs[i], c, t)
}

/// A cannon strikes `t`: an occupied square that is the ninja or holds a
/// hostile piece other than a king.
pub open spec fn cannon_hits(b: BoardView, t: Square, c: Color) -> bool {
    occupied(b, t) && (spec_is_ninja_square(b, t) || (piece_at(b, t)->0.color != c
        && piece_at(b, t)->0.piece_type != PieceType::King))
}

/// What a cannon on `from` strikes along `d` from its `k`-th step on, in the
/// order of the steps: every square it hits, up to the edge of the board or
/// the first deadly zone.
pub open spec fn cannon_ray_from(b: BoardView, from: Square, d: (i8, i8), c: Color, k: int) -> Seq<Square>
    decreases 8 - k,
{
    if k < 1 || k > 7 {
        Seq::empty()
    } else {
        match ray(from, d, k) {
            None => Seq::empty(),
            Some(t) => if spec_is_deadly(b, t) {
                Seq::empty()
            } else if cannon_hits(b, t, c) {
                seq![t] + cannon_ray_from(b, from, d, c, k + 1)
            } else {
                cannon_ray_from(b, from, d, c, k + 1)
            },
        }
    }
}

/// What a cannon on `from` strikes, ray after ray: towards higher files, lower
/// files, higher ranks, then lower ranks.
pub open spec fn cannon_moves(b: BoardView, from: Square, c: Color) -> Seq<Square> {
    cannon_ray_from(b, from, (1i8, 0i8), c, 1) + cannon_ray_from(b, from, (-1i8, 0i8), c, 1)
        + cannon_ray_from(b, from, (0i8, 1i8), c, 1) + cannon_ray_from(b, from, (0i8, -1i8), c, 1)
}

pub open spec fn pawn_start_rank(c: Color) -> u8 {
    if c == Color::White { 2 } else { 7 }
}

pub open spec fn ep_from_rank(c: Color) -> u8 {
    if c == Color::White { 5 } else { 4 }
}

pub open spec fn diag_capture(b: BoardView, from: Square, c: Color, df: int, t: Square) -> bool {
    spec_square_add(from, df, pawn_dir(c)) == Some(t) && !spec_is_deadly(b, t) && occupied(b, t)
        && piece_at(b, t)->0.color != c
}

pub open spec fn ep_target(b: BoardView, from: Square, c: Color, t: Square) -> bool {
    b.en_passant_target matches Some(e) && e == t && from.rank == ep_from_rank(c) && e.rank == from.rank
        + pawn_dir(c) && (from.file - e.file == 1 || e.file - from.file == 1) && !spec_is_deadly(b, e)
}

pub open spec fn pawn_target(b: BoardView, from: Square, c: Color, t: Square) -> bool {
    let one = spec_square_add(from, 0, pawn_dir(c));
    let two = spec_square_add(from, 0, 2 * pawn_dir(c));
    ||| (one is Some && free_sq(b, one->0) && (t == one->0 || (from.rank == pawn_start_rank(c) && two is Some
        && free_sq(b, two->0) && t == two->0)))
    ||| diag_capture(b, from, c, -1, t)
    ||| diag_capture(b, from, c, 1, t)
    ||| ep_target(b, from, c, t)
}

pub open spec fn traitor_target(b: BoardView, from: Square, c: Color, t: Square) -> bool {
    (spec_square_add(from, -1, pawn_dir(c)) == Some(t) || spec_square_add(from, 1, pawn_dir(c)) == Some(t))
        && piece_at(b, t) is Some && piece_at(b, t)->0.color == c
}

pub open spec fn home_rank(c: Color) -> u8 {
    if c == Color::White { 1 } else { 8 }
}

/// The squares strictly between the king's file and the rook's corner are passable.
pub open spec fn king_side_clear(b: BoardView, rank: u8) -> bool {
    attack_passes(b, Square { file: 6, rank }) && attack_passes(b, Square { file: 7, rank })
}

pub open spec fn queen_side_clear(b: BoardView, rank: u8) -> bool {
    attack_passes(b, Square { file: 4, rank }) && attack_passes(b, Square { file: 3, rank })
        && attack_passes(b, Square { file: 2, rank })
}

pub open spec fn can_king_side(b: BoardView, c: Color) -> bool {
    if c == Color::White { b.castling_rights.white_king_side } else { b.castling_rights.black_king_side }
}

pub open spec fn can_queen_side(b: BoardView, c: Color) -> bool {
    if c == Color::White { b.castling_rights.white_queen_side } else { b.castling_rights.black_queen_side }
}

pub open spec fn castling_target(b: BoardView, c: Color, t: Square) -> bool {
    let rank = home_rank(c);
    let enemy = c.spec_other();
    !spec_in_check(b, c) && (
        (can_king_side(b, c) && king_side_clear(b, rank) && !spec_attacked(b, Square { file: 6, rank }, enemy)
            && !spec_attacked(b, Square { file: 7, rank }, enemy) && t == (Square { file: 7, rank }))
        || (can_queen_side(b, c) && queen_side_clear(b, rank) && !spec_attacked(b, Square { file: 3, rank }, enemy)
            && !spec_attacked(b, Square { file: 4, rank }, enemy) && t == (Square { file: 3, rank })))
}

/// The targets of the piece's own kind of move.
pub open spec fn base_target(b: BoardView, from: Square, p: PieceView, t: Square) -> bool {
    match p.piece_type {
        PieceType::Pawn => pawn_target(b, from, p.color, t),
        PieceType::Knight => offset_target(b, from, p.color, knight_offsets(), t),
        PieceType::King => offset_target(b, from, p.color, king_offsets(), t) || castling_target(b, p.color, t),
        _ => slide_target(b, from, slide_dirs(p.piece_type), p.color, t),
    }
}

/// The extra one-step moves a veteran piece gains.
pub open spec fn veteran_target(b: BoardView, from: Square, p: PieceView, t: Square) -> bool {
    if spec_is_veteran_knight(p) {
        offset_target(b, from, p.color, rook_dirs(), t)
    } else if spec_is_veteran_rook(p) {
        offset_target(b, from, p.color, bishop_dirs(), t)
    } else if spec_is_veteran_bishop(p) {
        offset_target(b, from, p.color, rook_dirs(), t)
    } else {
        false
    }
}

/// `t` is one of the current (pseudo-legal) moves of the piece on cell `from`.
pub open spec fn spec_current_target(b: BoardView, from: int, t: Square) -> bool {
    match b.squares[from].piece {
        None => false,
        Some(p) => {
            let fs = spec_square_of(from);
            if spec_is_cannon(p) {
                cannon_moves(b, fs, p.color).contains(t)
            } else {
                base_target(b, fs, p, t) || veteran_target(b, fs, p, t) || (b.card_state.traitor == Some(
                    p.color.spec_other(),
                ) && p.piece_type == PieceType::Pawn && traitor_target(b, fs, p.color, t))
            }
        },
    }
}

/// Cell `from` holds a cannon.
pub open spec fn cannon_on(b: BoardView, from: int) -> bool {
    b.squares[from].piece matches Some(p) && spec_is_cannon(p)
}

/// The current moves of the piece on cell `from`: a cannon's in the order it
/// strikes them, any other piece's sorted by (file, rank). Such a sorted list
/// exists and is unique (`lemma_sorted_enumeration`, `lemma_sorted_unique`).
pub open spec fn current_moves(b: BoardView, from: int) -> Seq<Square> {
    if cannon_on(b, from) {
        cannon_moves(b, spec_square_of(from), b.squares[from].piece->0.color)
    } else {
        choose|s: Seq<Square>| strictly_sorted(s) && forall|t: Square| s.contains(t) <==> spec_current_target(b, from, t)
    }
}

pub open spec fn adjacent(a: Square, c: Square) -> bool {
    -1 <= a.file - c.file <= 1 && -1 <= a.rank - c.rank <= 1
}

pub open spec fn spec_battlefield_allows(b: BoardView, from: int, to: Square) -> bool {
    !is_battlefield_cell(b.squares[spec_index(to)]) || !occupied(b, to) || is_battlefield_cell(b.squares[from])
}

/// The magnetism card pins the pieces around its square to moving onto it.
pub open spec fn magnetism_allows(b: BoardView, p: PieceView, from: int, to: Square) -> bool {
    match b.card_state.magnetism {
        Some((m, _)) => if p.piece_type != PieceType::King {
            let fs = spec_square_of(from);
            let around = m != fs && adjacent(fs, m);
            !(around && to != m) && !(around && to == m && !occupied(b, to))
        } else {
            true
        },
        None => true,
    }
}

pub open spec fn promotion_for(p: PieceView, to: Square) -> Option<PieceType> {
    if p.piece_type == PieceType::Pawn && to.rank == (if p.color == Color::White { 8u8 } else { 1u8 }) {
        Some(PieceType::Queen)
    } else {
        None
    }
}

/// Moving the piece on cell `from` to `to` is legal: no king is taken, the
/// battlefield and magnetism allow it, and the mover's king is not left in check.
pub open spec fn spec_is_move_legal(b: BoardView, from: int, to: Square) -> bool {
    match b.squares[from].piece {
        None => false,
        Some(p) => {
            let takes_king = piece_at(b, to) matches Some(q) && q.piece_type == PieceType::King;
            let (after, res) = crate::board::apply::spec_apply_move(b, spec_square_of(from), to, promotion_for(p, to));
            !takes_king && spec_battlefield_allows(b, from, to) && magnetism_allows(b, p, from, to)
                && res is Ok && !spec_in_check(after, p.color)
        },
    }
}

/// The legal moves among `s`, in the order of `s`.
pub open spec fn legal_among(b: BoardView, from: int, s: Seq<Square>) -> Seq<Square>
    decreases s.len(),
{
    if s.len() == 0 {
        s
    } else if spec_is_move_legal(b, from, s.last()) {
        legal_among(b, from, s.drop_last()).push(s.last())
    } else {
        legal_among(b, from, s.drop_last())
    }
}

/// The legal moves among the current moves of the piece on cell `from`, in
/// their order.
pub open spec fn allowed_moves(b: BoardView, from: int) -> Seq<Square> {
    legal_among(b, from, current_moves(b, from))
}

/// The board after every piece has had its current and allowed moves computed.
pub open spec fn with_moves_computed(b: BoardView) -> Seq<crate::board::types::CellView> {
    Seq::new(
        b.squares.len(),
        |i: int| match b.squares[i].piece {
            Some(p) => crate::board::types::CellView {
                piece: Some(PieceView {
                    move_set: crate::board::types::MoveSetView {
                        current: current_moves(b, i),
                        allowed: allowed_moves(b, i),
                        ..p.move_set
                    },
                    ..p
                }),
                ..b.squares[i]
            },
            None => b.squares[i],
        },
    )
}

pub open spec fn has_mover(b: BoardView, c: Color, i: int) -> bool {
    b.squares[i].piece matches Some(p) && p.color == c && p.move_set.allowed.len() > 0
}

pub open spec fn spec_has_legal_moves(b: BoardView, c: Color) -> bool {
    exists|i: int| 0 <= i < 64 && #[trigger] has_mover(b, c, i)
}

/// Squares reachable from `from` by one offset of `offs` that may be moved onto.
fn offset_moves(board: &Board, from: Square, color: Color, offs: &Vec<(i8, i8)>) -> (r: Vec<Square>)
    requires
        board_wf(board@),
        valid_sq(from),
        forall|i: int| 0 <= i < offs@.len() ==> -2 <= (#[trigger] offs@[i]).0 <= 2 && -2 <= offs@[i].1 <= 2,
    ensures
        forall|t: Square| #[trigger] r@.contains(t) == offset_target(board@, from, color, offs@, t),
        forall|t: Square| r@.contains(t) ==> valid_sq(t),
{
    let mut moves: Vec<Square> = Vec::new();
    let mut i: usize = 0;
    while i < offs.len()
        invariant
            i <= offs@.len(),
            board_wf(board@),
            valid_sq(from),
            forall|j: int| 0 <= j < offs@.len() ==> -2 <= (#[trigger] offs@[j]).0 <= 2 && -2 <= offs@[j].1 <= 2,
            forall|t: Square| #[trigger] moves@.contains(t) == (empty_or_enemy(board@, t, color) && exists|j: int|
                0 <= j < i && spec_square_add(from, (#[trigger] offs@[j]).0 as int, offs@[j].1 as int) == Some(t)),
            forall|t: Square| moves@.contains(t) ==> valid_sq(t),
        decreases offs@.len() - i,
    {
        let ghost before = moves@;
        let (df, dr) = offs[i];
        match square_add(from, df, dr) {
            Some(q) => {
                if is_empty_or_enemy(board, q, color) {
                    moves.push(q);
                }
            }
            None => {}
        }
        assert forall|t: Square| #[trigger] moves@.contains(t) == (empty_or_enemy(board@, t, color) && exists|j: int|
            0 <= j < i + 1 && spec_square_add(from, (#[trigger] offs@[j]).0 as int, offs@[j].1 as int) == Some(t)) by {
            if moves@.contains(t) && !before.contains(t) {
                assert(t == moves@.last());
                assert(spec_square_add(from, offs@[i as int].0 as int, offs@[i as int].1 as int) == Some(t));
            }
            if before.contains(t) {
                let k = choose|k: int| 0 <= k < before.len() && before[k] == t;
                assert(moves@[k] == t);
            }
            if empty_or_enemy(board@, t, color) && exists|j: int|
                0 <= j < i + 1 && spec_square_add(from, (#[trigger] offs@[j]).0 as int, offs@[j].1 as int) == Some(t) {
                let j = choose|j: int|
                    0 <= j < i + 1 && spec_square_add(from, (#[trigger] offs@[j]).0 as int, offs@[j].1 as int) == Some(t);
                if j == i {
                    assert(moves@.last() == t);
                    assert(moves@.contains(t));
                } else {
                    assert(before.contains(t));
                    let k = choose|k: int| 0 <= k < before.len() && before[k] == t;
                    assert(moves@[k] == t);
                }
            }
        }
        i = i + 1;
    }
    moves
}

fn is_empty_or_enemy(board: &Board, square: Square, friendly_color: Color) -> (r: bool)
    requires
        board_wf(board@),
        valid_sq(square),
    ensures
        r == empty_or_enemy(board@, square, friendly_color),
{
    if board.is_deadly_zone(square) {
        return false;
    }
    match board.squares[square_to_index(square)].as_ref() {
        None => true,
        Some(piece) => piece.color != friendly_color,
    }
}

fn is_empty_square(board: &Board, square: Square) -> (r: bool)
    requires
        board_wf(board@),
        valid_sq(square),
    ensures
        r == free_sq(board@, square),
{
    !board.is_deadly_zone(square) && board.squares[square_to_index(square)].is_none()
}

fn is_ninja_square(board: &Board, square: Square) -> (r: bool)
    ensures
        r == spec_is_ninja_square(board@, square),
{
    match board.card_state.ninja {
        Some((sq, _)) => sq == square,
        None => false,
    }
}

/// Targets along `d` at fewer than `n` steps.
pub open spec fn slide_upto(b: BoardView, from: Square, d: (i8, i8), c: Color, t: Square, n: int) -> bool {
    exists|s: int|
        1 <= s < n && s <= 7 && #[trigger] ray(from, d, s) == Some(t) && slide_lands(b, t, c) && forall|k: int|
            1 <= k < s ==> (#[trigger] ray(from, d, k)) is Some && slide_passes(b, ray(from, d, k)->0)
}

/// The squares a slider on `from` reaches along `d`.
fn slide_ray_moves(board: &Board, from: Square, d: (i8, i8), color: Color) -> (r: Vec<Square>)
    requires
        board_wf(board@),
        valid_sq(from),
        unit_dir(d),
    ensures
        forall|t: Square| #[trigger] r@.contains(t) == slide_ray_target(board@, from, d, color, t),
        forall|t: Square| r@.contains(t) ==> valid_sq(t),
{
    let mut moves: Vec<Square> = Vec::new();
    let mut step: i8 = 1;
    while step < 8
        invariant
            1 <= step <= 8,
            board_wf(board@),
            valid_sq(from),
            unit_dir(d),
            forall|k: int| 1 <= k < step ==> (#[trigger] ray(from, d, k)) is Some && slide_passes(board@, ray(from, d, k)->0),
            forall|t: Square| #[trigger] moves@.contains(t) == slide_upto(board@, from, d, color, t, step as int),
            forall|t: Square| moves@.contains(t) ==> valid_sq(t),
        decreases 8 - step,
    {
        proof {
            lemma_ray_step(d, step as int);
        }
        let ghost before = moves@;
        let sq = square_add(from, d.0 * step, d.1 * step);
        assert(sq == ray(from, d, step as int));
        let q = match sq {
            Some(q) => q,
            None => {
                proof {
                    assert forall|t: Square| #[trigger] moves@.contains(t) == slide_ray_target(board@, from, d, color, t) by {
                        if slide_ray_target(board@, from, d, color, t) {
                            let s = choose|s: int| 1 <= s <= 7 && #[trigger] ray(from, d, s) == Some(t)
                                && slide_lands(board@, t, color) && forall|k: int| 1 <= k < s ==> (#[trigger] ray(from, d, k)) is Some
                                && slide_passes(board@, ray(from, d, k)->0);
                            if s >= step {
                                lemma_ray_leaves(from, d, step as int, s);
                            }
                        }
                    }
                }
                return moves;
            }
        };
        let deadly = board.is_deadly_zone(q);
        let empty = board.squares[square_to_index(q)].is_none();
        let ninja = is_ninja_square(board, q);
        let lands = !deadly && (empty || ninja || board.squares[square_to_index(q)].as_ref().unwrap().color != color);
        assert(lands == slide_lands(board@, q, color));
        if lands {
            moves.push(q);
        }
        let passes = !deadly && (empty || ninja);
        assert(passes == slide_passes(board@, q));
        assert forall|t: Square| #[trigger] moves@.contains(t) == slide_upto(board@, from, d, color, t, step + 1) by {
            if moves@.contains(t) && !before.contains(t) {
                assert(t == q);
                assert(ray(from, d, step as int) == Some(t));
            }
            if before.contains(t) {
                let k = choose|k: int| 0 <= k < before.len() && before[k] == t;
                assert(moves@[k] == t);
            }
            if slide_upto(board@, from, d, color, t, step + 1) {
                let s = choose|s: int| 1 <= s < step + 1 && s <= 7 && #[trigger] ray(from, d, s) == Some(t)
                    && slide_lands(board@, t, color) && forall|k: int| 1 <= k < s ==> (#[trigger] ray(from, d, k)) is Some
                    && slide_passes(board@, ray(from, d, k)->0);
                if s == step {
                    assert(moves@.last() == t);
                } else {
                    assert(slide_upto(board@, from, d, color, t, step as int));
                    assert(before.contains(t));
                    let k = choose|k: int| 0 <= k < before.len() && before[k] == t;
                    assert(moves@[k] == t);
                }
            }
        }
        if !passes {
            proof {
                assert forall|t: Square| #[trigger] moves@.contains(t) == slide_ray_target(board@, from, d, color, t) by {
                    if slide_ray_target(board@, from, d, color, t) {
                        let s = choose|s: int| 1 <= s <= 7 && #[trigger] ray(from, d, s) == Some(t)
                            && slide_lands(board@, t, color) && forall|k: int| 1 <= k < s ==> (#[trigger] ray(from, d, k)) is Some
                            && slide_passes(board@, ray(from, d, k)->0);
                        if s > step {
                            assert(slide_passes(board@, ray(from, d, step as int)->0));
                        }
                        assert(slide_upto(board@, from, d, color, t, step + 1));
                    }
                    if slide_upto(board@, from, d, color, t, step + 1) {
                        let s = choose|s: int| 1 <= s < step + 1 && s <= 7 && #[trigger] ray(from, d, s) == Some(t)
                            && slide_lands(board@, t, color) && forall|k: int| 1 <= k < s ==> (#[trigger] ray(from, d, k)) is Some
                            && slide_passes(board@, ray(from, d, k)->0);
                        assert(s <= 7);
                    }
                }
            }
            return moves;
        }
        step = step + 1;
    }
    proof {
        assert forall|t: Square| #[trigger] moves@.contains(t) == slide_ray_target(board@, from, d, color, t) by {
            if slide_ray_target(board@, from, d, color, t) {
                let s = choose|s: int| 1 <= s <= 7 && #[trigger] ray(from, d, s) == Some(t)
                    && slide_lands(board@, t, color) && forall|k: int| 1 <= k < s ==> (#[trigger] ray(from, d, k)) is Some
                    && slide_passes(board@, ray(from, d, k)->0);
                assert(slide_upto(board@, from, d, color, t, 8));
            }
        }
    }
    moves
}

/// The squares a cannon on `from` strikes along `d`, step after step.
fn cannon_ray_moves(board: &Board, from: Square, d: (i8, i8), color: Color) -> (r: Vec<Square>)
    requires
        board_wf(board@),
        valid_sq(from),
        unit_dir(d),
    ensures
        r@ == cannon_ray_from(board@, from, d, color, 1),
        forall|t: Square| r@.contains(t) ==> valid_sq(t),
{
    let mut moves: Vec<Square> = Vec::new();
    let mut step: i8 = 1;
    while step < 8
        invariant
            1 <= step <= 8,
            board_wf(board@),
            valid_sq(from),
            unit_dir(d),
            moves@ + cannon_ray_from(board@, from, d, color, step as int) == cannon_ray_from(board@, from, d, color, 1),
            forall|t: Square| moves@.contains(t) ==> valid_sq(t),
        decreases 8 - step,
    {
        proof {
            lemma_ray_step(d, step as int);
        }
        let ghost before = moves@;
        let sq = square_add(from, d.0 * step, d.1 * step);
        assert(sq == ray(from, d, step as int));
        let q = match sq {
            Some(q) => q,
            None => {
                assert(moves@ + Seq::<Square>::empty() =~= moves@);
                return moves;
            }
        };
        let deadly = board.is_deadly_zone(q);
        if deadly {
            assert(moves@ + Seq::<Square>::empty() =~= moves@);
            return moves;
        }
        let hit = match board.squares[square_to_index(q)].as_ref() {
            Some(piece) => is_ninja_square(board, q) || (piece.color != color && piece.piece_type != PieceType::King),
            None => false,
        };
        assert(hit == cannon_hits(board@, q, color));
        if hit {
            moves.push(q);
            assert(moves@ + cannon_ray_from(board@, from, d, color, step + 1)
                =~= before + cannon_ray_from(board@, from, d, color, step as int));
        }
        step = step + 1;
    }
    assert(moves@ + cannon_ray_from(board@, from, d, color, 8) =~= moves@);
    moves
}

fn sliding_moves(board: &Board, from: Square, directions: &Vec<(i8, i8)>) -> (r: Vec<Square>)
    requires
        board_wf(board@),
        valid_sq(from),
        piece_at(board@, from) is Some,
        forall|i: int| 0 <= i < directions@.len() ==> unit_dir(#[trigger] directions@[i]),
    ensures
        strictly_sorted(r@),
        forall|t: Square| #[trigger] r@.contains(t) == slide_target(board@, from, directions@, piece_at(board@, from)->0.color, t),
        forall|t: Square| r@.contains(t) ==> valid_sq(t),
{
    let friendly_color = board.squares[square_to_index(from)].as_ref().unwrap().color;
    let mut moves: Vec<Square> = Vec::new();
    let mut i: usize = 0;
    while i < directions.len()
        invariant
            i <= directions@.len(),
            board_wf(board@),
            valid_sq(from),
            friendly_color == piece_at(board@, from)->0.color,
            forall|j: int| 0 <= j < directions@.len() ==> unit_dir(#[trigger] directions@[j]),
            strictly_sorted(moves@),
            forall|t: Square| #[trigger] moves@.contains(t) == exists|j: int|
                0 <= j < i && slide_ray_target(board@, from, #[trigger] directions@[j], friendly_color, t),
            forall|t: Square| moves@.contains(t) ==> valid_sq(t),
        decreases directions@.len() - i,
    {
        let ray_moves = slide_ray_moves(board, from, directions[i], friendly_color);
        let ghost before = moves@;
        insert_all_sorted(&mut moves, &ray_moves);
        assert forall|t: Square| #[trigger] moves@.contains(t) == exists|j: int|
            0 <= j < i + 1 && slide_ray_target(board@, from, #[trigger] directions@[j], friendly_color, t) by {
            if exists|j: int| 0 <= j < i + 1 && slide_ray_target(board@, from, #[trigger] directions@[j], friendly_color, t) {
                let j = choose|j: int| 0 <= j < i + 1 && slide_ray_target(board@, from, #[trigger] directions@[j], friendly_color, t);
                if j < i {
                    assert(before.contains(t));
                } else {
                    assert(ray_moves@.contains(t));
                }
            }
        }
        i = i + 1;
    }
    moves
}

fn canon_moves(board: &Board, from: Square, color: Color) -> (r: Vec<Square>)
    requires
        board_wf(board@),
        valid_sq(from),
    ensures
        r@ == cannon_moves(board@, from, color),
        forall|t: Square| r@.contains(t) ==> valid_sq(t),
{
    let mut moves = cannon_ray_moves(board, from, (1, 0), color);
    let mut down_files = cannon_ray_moves(board, from, (-1, 0), color);
    let mut up_ranks = cannon_ray_moves(board, from, (0, 1), color);
    let mut down_ranks = cannon_ray_moves(board, from, (0, -1), color);
    moves.append(&mut down_files);
    moves.append(&mut up_ranks);
    moves.append(&mut down_ranks);
    moves
}

fn veteran_extra_moves(board: &Board, from: Square, color: Color, directions: &Vec<(i8, i8)>) -> (r: Vec<Square>)
    requires
        board_wf(board@),
        valid_sq(from),
        forall|i: int| 0 <= i < directions@.len() ==> unit_dir(#[trigger] directions@[i]),
    ensures
        forall|t: Square| #[trigger] r@.contains(t) == offset_target(board@, from, color, directions@, t),
        forall|t: Square| r@.contains(t) ==> valid_sq(t),
{
    offset_moves(board, from, color, directions)
}

fn knight_moves(board: &Board, from: Square, color: Color) -> (r: Vec<Square>)
    requires
        board_wf(board@),
        valid_sq(from),
    ensures
        forall|t: Square| #[trigger] r@.contains(t) == offset_target(board@, from, color, knight_offsets(), t),
        forall|t: Square| r@.contains(t) ==> valid_sq(t),
{
    offset_moves(board, from, color, &knight_offsets_vec())
}

fn traitor_pawn_captures(board: &Board, from: Square, color: Color) -> (r: Vec<Square>)
    requires
        board_wf(board@),
        valid_sq(from),
    ensures
        forall|t: Square| #[trigger] r@.contains(t) == traitor_target(board@, from, color, t),
        forall|t: Square| r@.contains(t) ==> valid_sq(t),
{
    let direction: i8 = if color == Color::White { 1 } else { -1 };
    let mut captures: Vec<Square> = Vec::new();
    match square_add(from, -1, direction) {
        Some(target) => {
            match board.squares[square_to_index(target)].as_ref() {
                Some(piece) => {
                    if piece.color == color {
                        captures.push(target);
                    }
                }
                None => {}
            }
        }
        None => {}
    }
    let ghost first = captures@;
    match square_add(from, 1, direction) {
        Some(target) => {
            match board.squares[square_to_index(target)].as_ref() {
                Some(piece) => {
                    if piece.color == color {
                        captures.push(target);
                    }
                }
                None => {}
            }
        }
        None => {}
    }
    assert forall|t: Square| #[trigger] captures@.contains(t) == traitor_target(board@, from, color, t) by {
        if captures@.contains(t) {
            let k = choose|k: int| 0 <= k < captures@.len() && captures@[k] == t;
            if k < first.len() {
                assert(first[k] == t);
            }
        }
        if traitor_target(board@, from, color, t) {
            if spec_square_add(from, -1, pawn_dir(color)) == Some(t) {
                assert(first.contains(t) ==> captures@.contains(t)) by {
                    if first.contains(t) {
                        let k = choose|k: int| 0 <= k < first.len() && first[k] == t;
                        assert(captures@[k] == t);
                    }
                }
                assert(first.len() > 0 && first[0] == t);
                assert(captures@[0] == t);
            } else {
                assert(captures@.last() == t);
            }
        }
    }
    captures
}

fn en_passant_moves(board: &Board, from: Square, color: Color) -> (r: Vec<Square>)
    requires
        board_wf(board@),
        valid_sq(from),
    ensures
        forall|t: Square| #[trigger] r@.contains(t) == ep_target(board@, from, color, t),
        forall|t: Square| r@.contains(t) ==> valid_sq(t),
{
    let mut moves: Vec<Square> = Vec::new();
    match board.en_passant_target {
        Some(target) => {
            let direction: i16 = if color == Color::White { 1 } else { -1 };
            let expected_rank: u8 = if color == Color::White { 5 } else { 4 };
            if from.rank == expected_rank && target.rank as i16 == from.rank as i16 + direction {
                if (from.file == target.file + 1 || target.file == from.file + 1) && !board.is_deadly_zone(target) {
                    moves.push(target);
                }
            }
        }
        None => {}
    }
    assert forall|t: Square| #[trigger] moves@.contains(t) == ep_target(board@, from, color, t) by {
        if moves@.contains(t) {
            assert(moves@.len() == 1 && moves@[0] == t);
        }
        if ep_target(board@, from, color, t) {
            assert(moves@[0] == t);
        }
    }
    moves
}

fn pawn_moves(board: &Board, from: Square, color: Color) -> (r: Vec<Square>)
    requires
        board_wf(board@),
        valid_sq(from),
    ensures
        strictly_sorted(r@),
        forall|t: Square| #[trigger] r@.contains(t) == pawn_target(board@, from, color, t),
        forall|t: Square| r@.contains(t) ==> valid_sq(t),
{
    let direction: i8 = if color == Color::White { 1 } else { -1 };
    let start_rank: u8 = if color == Color::White { 2 } else { 7 };
    let mut moves: Vec<Square> = Vec::new();
    let ghost b = board@;
    let ghost one = spec_square_add(from, 0, pawn_dir(color));
    let ghost two = spec_square_add(from, 0, 2 * pawn_dir(color));
    match square_add(from, 0, direction) {
        Some(one_forward) => {
            if is_empty_square(board, one_forward) {
                let mut fwd: Vec<Square> = Vec::new();
                fwd.push(one_forward);
                if from.rank == start_rank {
                    match square_add(from, 0, 2 * direction) {
                        Some(two_forward) => {
                            if is_empty_square(board, two_forward) {
                                fwd.push(two_forward);
                            }
                        }
                        None => {}
                    }
                }
                assert forall|t: Square| #[trigger] fwd@.contains(t) == (one is Some && free_sq(b, one->0) && (t == one->0
                    || (from.rank == pawn_start_rank(color) && two is Some && free_sq(b, two->0) && t == two->0))) by {
                    if fwd@.contains(t) {
                        let k = choose|k: int| 0 <= k < fwd@.len() && fwd@[k] == t;
                    }
                    if t == one->0 {
                        assert(fwd@[0] == t);
                    }
                    if from.rank == pawn_start_rank(color) && two is Some && free_sq(b, two->0) && t == two->0 {
                        assert(fwd@[1] == t);
                    }
                }
                insert_all_sorted(&mut moves, &fwd);
            }
        }
        None => {}
    }
    let ghost after_fwd = moves@;
    assert forall|t: Square| #[trigger] after_fwd.contains(t) == (one is Some && free_sq(b, one->0) && (t == one->0
        || (from.rank == pawn_start_rank(color) && two is Some && free_sq(b, two->0) && t == two->0))) by {
    }
    let mut caps: Vec<Square> = Vec::new();
    match square_add(from, -1, direction) {
        Some(capture) => {
            if is_empty_or_enemy(board, capture, color) && board.squares[square_to_index(capture)].is_some() {
                caps.push(capture);
            }
        }
        None => {}
    }
    let ghost first = caps@;
    match square_add(from, 1, direction) {
        Some(capture) => {
            if is_empty_or_enemy(board, capture, color) && board.squares[square_to_index(capture)].is_some() {
                caps.push(capture);
            }
        }
        None => {}
    }
    assert forall|t: Square| #[trigger] caps@.contains(t) == (diag_capture(b, from, color, -1, t) || diag_capture(b, from, color, 1, t)) by {
        if caps@.contains(t) {
            let k = choose|k: int| 0 <= k < caps@.len() && caps@[k] == t;
            if k < first.len() {
                assert(first[k] == t);
            }
        }
        if diag_capture(b, from, color, -1, t) {
            assert(caps@[0] == t);
        } else if diag_capture(b, from, color, 1, t) {
            assert(caps@.last() == t);
        }
    }
    insert_all_sorted(&mut moves, &caps);
    let ep = en_passant_moves(board, from, color);
    insert_all_sorted(&mut moves, &ep);
    moves
}

/// Every square strictly between `from` and `to` on their rank lets an attack pass.
pub open spec fn path_clear(b: BoardView, from: Square, to: Square) -> bool {
    forall|f: int|
        (from.file < f < to.file || to.file < f < from.file) ==> #[trigger] attack_passes(b, Square { file: f as u8, rank: from.rank })
}

fn is_path_clear(board: &Board, from: Square, to: Square) -> (r: bool)
    requires
        board_wf(board@),
        valid_sq(from),
        valid_sq(to),
        from.rank == to.rank,
        from.file != to.file,
    ensures
        r == path_clear(board@, from, to),
{
    let step: i8 = if to.file > from.file { 1 } else { -1 };
    let mut current = square_add(from, step, 0);
    while current.is_some()
        invariant
            board_wf(board@),
            valid_sq(from),
            valid_sq(to),
            from.rank == to.rank,
            from.file != to.file,
            step == (if to.file > from.file { 1i8 } else { -1i8 }),
            current matches Some(c) ==> c.rank == from.rank && valid_sq(c) && (if step == 1 {
                from.file < c.file <= to.file
            } else {
                to.file <= c.file < from.file
            }),
            current is None ==> false,
            forall|f: int|
                (if step == 1 { from.file < f < current->0.file } else { current->0.file < f < from.file })
                    ==> #[trigger] attack_passes(board@, Square { file: f as u8, rank: from.rank }),
        decreases (if step == 1 { 9 - current->0.file } else { current->0.file as int }),
    {
        let sq = current.unwrap();
        if sq == to {
            return true;
        }
        let occupied = board.squares[square_to_index(sq)].is_some();
        let traversable = is_ninja_square(board, sq);
        if occupied && !traversable {
            assert(!attack_passes(board@, Square { file: sq.file as u8, rank: from.rank }));
            return false;
        }
        if board.is_deadly_zone(sq) {
            assert(!attack_passes(board@, Square { file: sq.file as u8, rank: from.rank }));
            return false;
        }
        assert(attack_passes(board@, Square { file: sq.file as u8, rank: from.rank }));
        current = square_add(sq, step, 0);
    }
    true
}

fn castling_moves(board: &Board, color: Color) -> (r: Vec<Square>)
    requires
        board_wf(board@),
    ensures
        forall|t: Square| #[trigger] r@.contains(t) == castling_target(board@, color, t),
        forall|t: Square| r@.contains(t) ==> valid_sq(t),
{
    let mut moves: Vec<Square> = Vec::new();
    if board.is_in_check(color) {
        return moves;
    }
    let rank: u8 = if color == Color::White { 1 } else { 8 };
    let rights = match color {
        Color::White => board.castling_rights.white_king_side || board.castling_rights.white_queen_side,
        Color::Black => board.castling_rights.black_king_side || board.castling_rights.black_queen_side,
    };
    if !rights {
        return moves;
    }
    let king_square = Square { file: 5, rank };
    let enemy = color.other();
    let king_side_ok = match color {
        Color::White => board.castling_rights.white_king_side,
        Color::Black => board.castling_rights.black_king_side,
    };
    let ghost b = board@;
    proof {
        assert(path_clear(b, king_square, Square { file: 8, rank }) == king_side_clear(b, rank)) by {
            if king_side_clear(b, rank) {
                assert forall|f: int| (king_square.file < f < 8 || 8 < f < king_square.file)
                    implies #[trigger] attack_passes(b, Square { file: f as u8, rank: king_square.rank }) by {
                    assert(f == 6 || f == 7);
                }
            }
            if path_clear(b, king_square, Square { file: 8, rank }) {
                assert(attack_passes(b, Square { file: 6int as u8, rank: king_square.rank }));
                assert(attack_passes(b, Square { file: 7int as u8, rank: king_square.rank }));
            }
        }
        assert(path_clear(b, king_square, Square { file: 1, rank }) == queen_side_clear(b, rank)) by {
            if queen_side_clear(b, rank) {
                assert forall|f: int| (king_square.file < f < 1 || 1 < f < king_square.file)
                    implies #[trigger] attack_passes(b, Square { file: f as u8, rank: king_square.rank }) by {
                    assert(f == 2 || f == 3 || f == 4);
                }
            }
            if path_clear(b, king_square, Square { file: 1, rank }) {
                assert(attack_passes(b, Square { file: 2int as u8, rank: king_square.rank }));
                assert(attack_passes(b, Square { file: 3int as u8, rank: king_square.rank }));
                assert(attack_passes(b, Square { file: 4int as u8, rank: king_square.rank }));
            }
        }
    }
    if king_side_ok && is_path_clear(board, king_square, Square { file: 8, rank }) {
        let f = Square { file: 6, rank };
        let g = Square { file: 7, rank };
        if !board.is_square_attacked(f, enemy) && !board.is_square_attacked(g, enemy) {
            moves.push(g);
        }
    }
    let ghost ks = moves@;
    let queen_side_ok = match color {
        Color::White => board.castling_rights.white_queen_side,
        Color::Black => board.castling_rights.black_queen_side,
    };
    if queen_side_ok && is_path_clear(board, king_square, Square { file: 1, rank }) {
        let c = Square { file: 3, rank };
        let d = Square { file: 4, rank };
        if !board.is_square_attacked(c, enemy) && !board.is_square_attacked(d, enemy) {
            moves.push(c);
        }
    }
    assert forall|t: Square| #[trigger] moves@.contains(t) == castling_target(b, color, t) by {
        if moves@.contains(t) {
            let k = choose|k: int| 0 <= k < moves@.len() && moves@[k] == t;
            if k < ks.len() {
                assert(ks[k] == t);
            }
        }
        if castling_target(b, color, t) {
            if t == (Square { file: 7, rank }) && can_king_side(b, color) && king_side_clear(b, rank)
                && !spec_attacked(b, Square { file: 6, rank }, enemy) && !spec_attacked(b, Square { file: 7, rank }, enemy) {
                assert(moves@[0] == t);
            } else {
                assert(moves@.last() == t);
            }
        }
    }
    moves
}

fn king_moves(board: &Board, from: Square, color: Color) -> (r: Vec<Square>)
    requires
        board_wf(board@),
        valid_sq(from),
    ensures
        strictly_sorted(r@),
        forall|t: Square| #[trigger] r@.contains(t) == (offset_target(board@, from, color, king_offsets(), t)
            || castling_target(board@, color, t)),
        forall|t: Square| r@.contains(t) ==> valid_sq(t),
{
    let steps = offset_moves(board, from, color, &king_offsets_vec());
    let castles = castling_moves(board, color);
    let mut moves: Vec<Square> = Vec::new();
    insert_all_sorted(&mut moves, &steps);
    insert_all_sorted(&mut moves, &castles);
    moves
}

/// The sorted current moves of a piece other than a cannon are the ones
/// `current_moves` names.
pub proof fn lemma_current_moves(b: BoardView, from: int, s: Seq<Square>)
    requires
        !cannon_on(b, from),
        strictly_sorted(s),
        forall|t: Square| s.contains(t) <==> spec_current_target(b, from, t),
    ensures
        current_moves(b, from) == s,
{
    let c = current_moves(b, from);
    assert(strictly_sorted(c) && forall|t: Square| c.contains(t) <==> spec_current_target(b, from, t));
    lemma_sorted_unique(c, s);
}

/// The current moves hold exactly the current targets.
pub proof fn lemma_current_moves_hold(b: BoardView, from: int)
    ensures
        forall|t: Square| current_moves(b, from).contains(t) <==> spec_current_target(b, from, t),
{
    if !cannon_on(b, from) {
        lemma_sorted_enumeration(|u: Square| spec_current_target(b, from, u));
    }
}

proof fn lemma_push_contains(q: Seq<Square>, x: Square, t: Square)
    ensures
        q.push(x).contains(t) <==> (q.contains(t) || t == x),
{
    if q.push(x).contains(t) && t != x {
        let m = choose|m: int| 0 <= m < q.len() + 1 && q.push(x)[m] == t;
        assert(q[m] == t);
    }
    if q.contains(t) {
        let m = choose|m: int| 0 <= m < q.len() && q[m] == t;
        assert(q.push(x)[m] == t);
    }
    if t == x {
        assert(q.push(x)[q.len() as int] == t);
    }
}

/// The legal moves among `s` are the members of `s` that are legal.
pub proof fn lemma_legal_among(b: BoardView, from: int, s: Seq<Square>)
    ensures
        forall|t: Square| legal_among(b, from, s).contains(t) <==> (s.contains(t) && spec_is_move_legal(b, from, t)),
    decreases s.len(),
{
    if s.len() > 0 {
        let r = s.drop_last();
        let x = s.last();
        let l = legal_among(b, from, r);
        lemma_legal_among(b, from, r);
        assert(s =~= r.push(x));
        assert forall|t: Square| legal_among(b, from, s).contains(t) <==> (s.contains(t) && spec_is_move_legal(b, from, t)) by {
            lemma_push_contains(r, x, t);
            lemma_push_contains(l, x, t);
        }
    }
}

/// A pawn moves forward for its colour (up the board for white, down for
/// black): straight ahead onto an empty square, two squares from its starting
/// rank over an empty square onto an empty one, or one file aside onto an
/// enemy piece or the en-passant target; never onto a deadly zone.
pub proof fn law_pawn_moves_forward(b: BoardView, from: Square, c: Color, t: Square)
    requires
        board_wf(b),
        valid_sq(from),
        pawn_target(b, from, c, t),
    ensures
        ({
            let d: int = if c == Color::White { 1 } else { -1 };
            &&& valid_sq(t)
            &&& !spec_is_deadly(b, t)
            &&& t.file == from.file ==> {
                &&& piece_at(b, t) is None
                &&& (t.rank == from.rank + d || (t.rank == from.rank + 2 * d
                    && from.rank == (if c == Color::White { 2int } else { 7int })
                    && piece_at(b, Square { file: from.file, rank: (from.rank + d) as u8 }) is None))
            }
            &&& t.file != from.file ==> {
                &&& t.rank == from.rank + d
                &&& (t.file == from.file + 1 || t.file + 1 == from.file)
                &&& (piece_at(b, t) matches Some(q) && q.color != c) || b.en_passant_target == Some(t)
            }
        }),
{
}

/// A knight jumps two squares one way and one the other, onto an empty square
/// or an enemy piece that is not on a deadly zone.
pub proof fn law_knight_jumps(b: BoardView, from: Square, c: Color, t: Square)
    requires
        valid_sq(from),
        offset_target(b, from, c, knight_offsets(), t),
    ensures
        ({
            let df = t.file - from.file;
            let dr = t.rank - from.rank;
            &&& (df == 1 || df == -1) && (dr == 2 || dr == -2) || (df == 2 || df == -2) && (dr == 1 || dr == -1)
            &&& !spec_is_deadly(b, t)
            &&& piece_at(b, t) is None || piece_at(b, t)->0.color != c
        }),
{
    let i = choose|i: int| 0 <= i < knight_offsets().len()
        && spec_square_add(from, (#[trigger] knight_offsets()[i]).0 as int, knight_offsets()[i].1 as int) == Some(t);
    assert(0 <= i < 8);
}

/// A square a castling move passes over: empty or the ninja, and no deadly zone.
pub open spec fn castle_passable(b: BoardView, sq: Square) -> bool {
    (piece_at(b, sq) is None || spec_is_ninja_square(b, sq)) && !spec_is_deadly(b, sq)
}

/// Castling lands the king two files aside on its home rank, only with the
/// right to castle on that side kept, never out of check, and only over free
/// squares: queen-side onto the c-file with the b-, c- and d-files free and
/// the c- and d-squares not attacked; king-side onto the g-file with the f-
/// and g-files free and not attacked.
pub proof fn law_castling_needs_free_path(b: BoardView, c: Color, t: Square)
    requires
        castling_target(b, c, t),
    ensures
        t.rank == (if c == Color::White { 1u8 } else { 8u8 }),
        t.file == 3 || t.file == 7,
        !spec_in_check(b, c),
        t.file == 3 ==> {
            &&& (if c == Color::White { b.castling_rights.white_queen_side } else { b.castling_rights.black_queen_side })
            &&& castle_passable(b, Square { file: 2, rank: t.rank })
            &&& castle_passable(b, Square { file: 3, rank: t.rank })
            &&& castle_passable(b, Square { file: 4, rank: t.rank })
            &&& !spec_attacked(b, Square { file: 3, rank: t.rank }, c.spec_other())
            &&& !spec_attacked(b, Square { file: 4, rank: t.rank }, c.spec_other())
        },
        t.file == 7 ==> {
            &&& (if c == Color::White { b.castling_rights.white_king_side } else { b.castling_rights.black_king_side })
            &&& castle_passable(b, Square { file: 6, rank: t.rank })
            &&& castle_passable(b, Square { file: 7, rank: t.rank })
            &&& !spec_attacked(b, Square { file: 6, rank: t.rank }, c.spec_other())
            &&& !spec_attacked(b, Square { file: 7, rank: t.rank }, c.spec_other())
        },
{
}

/// A king on its home square reaches a square two files aside only by
/// castling: its one-step moves reach no further than the next file.
pub proof fn law_king_reaches_far_only_by_castling(b: BoardView, from: int, t: Square)
    requires
        0 <= from < 64,
        b.squares[from].piece matches Some(k) && k.piece_type == PieceType::King && !spec_is_cannon(k),
        spec_square_of(from).file == 5,
        t.file == 3 || t.file == 7,
        spec_current_target(b, from, t),
    ensures
        castling_target(b, b.squares[from].piece->0.color, t),
{
    let k = b.squares[from].piece->0;
    let fs = spec_square_of(from);
    crate::board::utils::lemma_index_roundtrip(fs, from);
    lemma_unit_offsets_stay_near(b, fs, k.color, king_offsets(), t);
    lemma_unit_offsets_stay_near(b, fs, k.color, rook_dirs(), t);
    lemma_unit_offsets_stay_near(b, fs, k.color, bishop_dirs(), t);
}

/// A step by one of a set of unit offsets lands at most one file away.
proof fn lemma_unit_offsets_stay_near(b: BoardView, fs: Square, c: Color, offs: Seq<(i8, i8)>, t: Square)
    requires
        valid_sq(fs),
        forall|i: int| 0 <= i < offs.len() ==> unit_dir(#[trigger] offs[i]),
    ensures
        offset_target(b, fs, c, offs, t) ==> -1 <= t.file - fs.file <= 1,
{
    if offset_target(b, fs, c, offs, t) {
        let i = choose|i: int| 0 <= i < offs.len()
            && spec_square_add(fs, (#[trigger] offs[i]).0 as int, offs[i].1 as int) == Some(t);
        assert(unit_dir(offs[i]));
    }
}

/// Once the moves are computed, every move that a piece is allowed is one of
/// its current moves and a legal move: it takes no king, the battlefield and
/// magnetism permit it, the board plays it without refusal, and afterwards the
/// mover's own king is not in check.
pub proof fn law_allowed_moves_are_legal(b: BoardView, i: int, t: Square)
    requires
        0 <= i < b.squares.len(),
        with_moves_computed(b)[i].piece matches Some(p) && p.move_set.allowed.contains(t),
    ensures
        spec_current_target(b, i, t),
        spec_is_move_legal(b, i, t),
        ({
            let p = b.squares[i].piece->0;
            let (after, res) = crate::board::apply::spec_apply_move(b, spec_square_of(i), t, promotion_for(p, t));
            res is Ok && !spec_in_check(after, p.color)
        }),
{
    lemma_current_moves_hold(b, i);
    lemma_legal_among(b, i, current_moves(b, i));
    assert(with_moves_computed(b)[i].piece->0.move_set.allowed == allowed_moves(b, i));
}

/// Once the moves are computed, the current moves of a piece are the squares
/// its kind of move reaches from its cell, and a square that a legal move
/// reaches is allowed.
pub proof fn law_current_moves_listed(b: BoardView, i: int, t: Square)
    requires
        0 <= i < b.squares.len(),
        with_moves_computed(b)[i].piece is Some,
    ensures
        with_moves_computed(b)[i].piece->0.move_set.current.contains(t) <==> spec_current_target(b, i, t),
        with_moves_computed(b)[i].piece->0.move_set.allowed.contains(t)
            <==> (spec_current_target(b, i, t) && spec_is_move_legal(b, i, t)),
{
    lemma_current_moves_hold(b, i);
    lemma_legal_among(b, i, current_moves(b, i));
}

fn is_adjacent(a: Square, b: Square) -> (r: bool)
    ensures
        r == adjacent(a, b),
{
    let df: i16 = a.file as i16 - b.file as i16;
    let dr: i16 = a.rank as i16 - b.rank as i16;
    -1 <= df && df <= 1 && -1 <= dr && dr <= 1
}

impl Board {
    fn battlefield_allows_capture(&self, from: usize, to: Square) -> (r: bool)
        requires
            board_wf(self@),
            from < 64,
            valid_sq(to),
        ensures
            r == spec_battlefield_allows(self@, from as int, to),
    {
        let to_idx = square_to_index(to);
        if !self.is_battlefield_square(to_idx) {
            return true;
        }
        let is_capture = self.squares[to_idx].is_some();
        if !is_capture {
            return true;
        }
        self.is_battlefield_square(from)
    }

    /// The current moves of the piece on cell `from`.
    fn current_moves_of(&self, from: usize) -> (r: Vec<Square>)
        requires
            board_wf(self@),
            from < 64,
        ensures
            r@ == current_moves(self@, from as int),
            forall|t: Square| #[trigger] r@.contains(t) == spec_current_target(self@, from as int, t),
            forall|t: Square| r@.contains(t) ==> valid_sq(t),
    {
        let piece = match self.squares[from].as_ref() {
            Some(p) => p,
            None => {
                let r: Vec<Square> = Vec::new();
                proof {
                    lemma_current_moves(self@, from as int, r@);
                }
                return r;
            },
        };
        let ghost pv = piece@;
        assert(self@.squares[from as int].piece == Some(pv));
        let from_square = index_to_square(from);
        if piece.is_cannon() {
            let r = canon_moves(self, from_square, piece.color);
            assert(cannon_on(self@, from as int));
            return r;
        }
        let base = match piece.piece_type {
            PieceType::Pawn => pawn_moves(self, from_square, piece.color),
            PieceType::Knight => knight_moves(self, from_square, piece.color),
            PieceType::King => king_moves(self, from_square, piece.color),
            _ => {
                assert(piece_at(self@, from_square) == Some(pv));
                sliding_moves(self, from_square, &slide_dirs_vec(piece.piece_type))
            },
        };
        let mut moves: Vec<Square> = Vec::new();
        insert_all_sorted(&mut moves, &base);
        let extra: Vec<Square> = if piece.is_veteran_knight() {
            veteran_extra_moves(self, from_square, piece.color, &slide_dirs_vec(PieceType::Rook))
        } else if piece.is_veteran_rook() {
            veteran_extra_moves(self, from_square, piece.color, &slide_dirs_vec(PieceType::Bishop))
        } else if piece.is_veteran_bishop() {
            veteran_extra_moves(self, from_square, piece.color, &slide_dirs_vec(PieceType::Rook))
        } else {
            Vec::new()
        };
        insert_all_sorted(&mut moves, &extra);
        let traitor_active = match self.card_state.traitor {
            Some(c) => c == piece.color.other(),
            None => false,
        };
        if traitor_active && piece.piece_type == PieceType::Pawn {
            let captures = traitor_pawn_captures(self, from_square, piece.color);
            insert_all_sorted(&mut moves, &captures);
        }
        proof {
            lemma_current_moves(self@, from as int, moves@);
        }
        moves
    }
}

pub trait MoveLegality {
    spec fn board_ok(&self) -> bool;

    fn is_move_legal(&self, from: usize, to: Square) -> bool
        requires
            self.board_ok(),
            from < 64,
            valid_sq(to),
    ;
}

impl MoveLegality for Board {
    open spec fn board_ok(&self) -> bool {
        board_wf(self@)
    }

    fn is_move_legal(&self, from: usize, to: Square) -> (r: bool)
        ensures
            r == spec_is_move_legal(self@, from as int, to),
    {
        let piece = match self.squares[from].as_ref() {
            Some(p) => p,
            None => return false,
        };
        match self.squares[square_to_index(to)].as_ref() {
            Some(target) => {
                if target.piece_type == PieceType::King {
                    return false;
                }
            }
            None => {}
        }
        if !self.battlefield_allows_capture(from, to) {
            return false;
        }
        match self.card_state.magnetism {
            Some((magnet_sq, _)) => {
                if piece.piece_type != PieceType::King {
                    let from_sq = index_to_square(from);
                    let is_around = magnet_sq != from_sq && is_adjacent(from_sq, magnet_sq);
                    if is_around && to != magnet_sq {
                        return false;
                    }
                    if is_around && to == magnet_sq {
                        if self.squares[square_to_index(to)].is_none() {
                            return false;
                        }
                    }
                }
            }
            None => {}
        }
        let promotion = if piece.piece_type == PieceType::Pawn {
            let promotion_rank: u8 = if piece.color == Color::White { 8 } else { 1 };
            if to.rank == promotion_rank {
                Some(PieceType::Queen)
            } else {
                None
            }
        } else {
            None
        };
        let color = piece.color;
        let mut simulated = self.duplicate();
        match crate::board::apply::MoveApplier::apply_move(&mut simulated, index_to_square(from), to, promotion) {
            Ok(()) => {}
            Err(_) => return false,
        }
        !simulated.is_in_check(color)
    }
}

pub trait MoveCalculator {
    spec fn board_ok(&self) -> bool;

    fn compute_allowed_moves(&mut self)
        requires
            old(self).board_ok(),
    ;

    fn compute_current_moves(&self, from: usize) -> Vec<Square>
        requires
            self.board_ok(),
            from < 64,
    ;

    fn is_move_allowed(&self, from: Square, to: Square) -> bool
        requires
            self.board_ok(),
            valid_sq(from),
    ;

    fn has_legal_moves(&self, color: Color) -> bool
        requires
            self.board_ok(),
    ;

    fn is_checkmate(&self, color: Color) -> bool
        requires
            self.board_ok(),
    ;
}

impl MoveCalculator for Board {
    open spec fn board_ok(&self) -> bool {
        board_wf(self@)
    }

    fn compute_allowed_moves(&mut self)
        ensures
            final(self)@ == (BoardView { squares: with_moves_computed(old(self)@), ..old(self)@ }),
            board_wf(final(self)@),
    {
        let ghost b = self@;
        let mut computed: Vec<(Vec<Square>, Vec<Square>)> = Vec::new();
        let mut i: usize = 0;
        while i < 64
            invariant
                i <= 64,
                self@ == b,
                board_wf(b),
                computed@.len() == i,
                forall|j: int| 0 <= j < i ==> (#[trigger] computed@[j]).0@ == current_moves(b, j)
                    && computed@[j].1@ == allowed_moves(b, j),
            decreases 64 - i,
        {
            let current = self.current_moves_of(i);
            let mut allowed: Vec<Square> = Vec::new();
            let mut k: usize = 0;
            while k < current.len()
                invariant
                    k <= current@.len(),
                    i < 64,
                    self@ == b,
                    board_wf(b),
                    current@ == current_moves(b, i as int),
                    forall|t: Square| current@.contains(t) ==> valid_sq(t),
                    allowed@ == legal_among(b, i as int, current@.take(k as int)),
                decreases current@.len() - k,
            {
                let target = current[k];
                assert(current@.contains(target));
                assert(current@.take(k + 1).drop_last() =~= current@.take(k as int));
                assert(current@.take(k + 1).last() == target);
                if self.is_move_legal(i, target) {
                    allowed.push(target);
                }
                k = k + 1;
            }
            assert(current@.take(current@.len() as int) =~= current@);
            computed.push((current, allowed));
            i = i + 1;
        }
        let mut j: usize = 0;
        while j < 64
            invariant
                j <= 64,
                board_wf(b),
                computed@.len() == 64,
                forall|m: int| 0 <= m < 64 ==> (#[trigger] computed@[m]).0@ == current_moves(b, m)
                    && computed@[m].1@ == allowed_moves(b, m),
                self@.squares.len() == 64,
                forall|m: int| 0 <= m < j ==> self@.squares[m] == with_moves_computed(b)[m],
                forall|m: int| j <= m < 64 ==> self@.squares[m] == b.squares[m],
                self@.captured_pieces == b.captured_pieces,
                self@.en_passant_target == b.en_passant_target,
                self@.castling_rights == b.castling_rights,
                self@.card_state == b.card_state,
            decreases 64 - j,
        {
            let (cur, allw) = (copy_squares(&computed[j].0), copy_squares(&computed[j].1));
            let ghost before = self@;
            self.set_moves_at(j, cur, allw);
            assert(self@.squares[j as int] == with_moves_computed(b)[j as int]);
            j = j + 1;
        }
        assert(self@.squares =~= with_moves_computed(b));
    }

    fn compute_current_moves(&self, from: usize) -> (r: Vec<Square>)
        ensures
            r@ == current_moves(self@, from as int),
            forall|t: Square| #[trigger] r@.contains(t) == spec_current_target(self@, from as int, t),
            !cannon_on(self@, from as int) ==> strictly_sorted(r@),
    {
        proof {
            lemma_sorted_enumeration(|u: Square| spec_current_target(self@, from as int, u));
        }
        self.current_moves_of(from)
    }

    fn is_move_allowed(&self, from: Square, to: Square) -> (r: bool)
        ensures
            r == (piece_at(self@, from) matches Some(p) && p.move_set.allowed.contains(to)),
    {
        let idx = square_to_index(from);
        assert(board_wf(self@));
        let piece = match self.squares[idx].as_ref() {
            Some(p) => p,
            None => return false,
        };
        assert(piece_at(self@, from) == Some(piece@));
        let mut i: usize = 0;
        while i < piece.move_set.allowed.len()
            invariant
                i <= piece.move_set.allowed@.len(),
                piece_at(self@, from) == Some(piece@),
                forall|j: int| 0 <= j < i ==> piece.move_set.allowed@[j] != to,
            decreases piece.move_set.allowed@.len() - i,
        {
            if piece.move_set.allowed[i] == to {
                assert(piece@.move_set.allowed[i as int] == to);
                assert(piece@.move_set.allowed.contains(to));
                return true;
            }
            i = i + 1;
        }
        false
    }

    fn has_legal_moves(&self, color: Color) -> (r: bool)
        ensures
            r == spec_has_legal_moves(self@, color),
    {
        let mut i: usize = 0;
        while i < 64
            invariant
                i <= 64,
                board_wf(self@),
                forall|j: int| 0 <= j < i ==> !#[trigger] has_mover(self@, color, j),
            decreases 64 - i,
        {
            match self.squares[i].as_ref() {
                Some(piece) => {
                    if piece.color == color && piece.move_set.allowed.len() > 0 {
                        assert(has_mover(self@, color, i as int));
                        return true;
                    }
                }
                None => {}
            }
            i = i + 1;
        }
        false
    }

    fn is_checkmate(&self, color: Color) -> (r: bool)
        ensures
            r == (spec_in_check(self@, color) && !spec_has_legal_moves(self@, color)),
    {
        self.is_in_check(color) && !self.has_legal_moves(color)
    }
}

fn copy_squares(v: &Vec<Square>) -> (r: Vec<Square>)
    ensures
        r@ == v@,
{
    crate::board::types::copy_vec(v)
}

impl Board {
    /// Records the current and allowed moves of the piece on cell `i`.
    fn set_moves_at(&mut self, i: usize, current: Vec<Square>, allowed: Vec<Square>)
        requires
            i < old(self).squares@.len(),
        ensures
            final(self)@ == (BoardView {
                squares: old(self)@.squares.update(i as int, match old(self)@.squares[i as int].piece {
                    Some(p) => crate::board::types::CellView {
                        piece: Some(PieceView {
                            move_set: crate::board::types::MoveSetView { current: current@, allowed: allowed@, ..p.move_set },
                            ..p
                        }),
                        ..old(self)@.squares[i as int]
                    },
                    None => old(self)@.squares[i as int],
                }),
                ..old(self)@
            }),
    {
        let ghost before = self@;
        let ghost cv = current@;
        let ghost av = allowed@;
        match self.squares[i].as_mut() {
            Some(piece) => {
                piece.move_set.current = current;
                piece.move_set.allowed = allowed;
            }
            None => {}
        }
        assert(self@.squares =~= before.squares.update(i as int, match before.squares[i as int].piece {
            Some(p) => crate::board::types::CellView {
                piece: Some(PieceView {
                    move_set: crate::board::types::MoveSetView { current: cv, allowed: av, ..p.move_set },
                    ..p
                }),
                ..before.squares[i as int]
            },
            None => before.squares[i as int],
        }));
    }
}

} // verus!
