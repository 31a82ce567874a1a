//! Which squares a piece attacks, where the kings stand, and check.
use vstd::prelude::*;
use crate::board::types::{Square, valid_sq, PieceType, Color, PieceView, spec_is_cannon};
use crate::board::utils::{square_add, index_to_square, square_to_index, spec_square_add, spec_index, spec_square_of};
use crate::board::{Board, BoardView, board_wf, occupied, spec_is_deadly, spec_is_ninja_square};

verus! {

/// The forward direction of the pawns of a colour.
pub open spec fn pawn_dir(c: Color) -> int {
    if c == Color::White { 1 } else { -1 }
}

pub open spec fn knight_offsets() -> Seq<(i8, i8)> {
    seq![(1i8, 2i8), (2i8, 1i8), (-1i8, 2i8), (-2i8, 1i8), (1i8, -2i8), (2i8, -1i8), (-1i8, -2i8), (-2i8, -1i8)]
}

pub open spec fn king_offsets() -> Seq<(i8, i8)> {
    seq![(1i8, 0i8), (-1i8, 0i8), (0i8, 1i8), (0i8, -1i8), (1i8, 1i8), (1i8, -1i8), (-1i8, 1i8), (-1i8, -1i8)]
}

pub open spec fn rook_dirs() -> Seq<(i8, i8)> {
    seq![(1i8, 0i8), (-1i8, 0i8), (0i8, 1i8), (0i8, -1i8)]
}

pub open spec fn bishop_dirs() -> Seq<(i8, i8)> {
    seq![(1i8, 1i8), (1i8, -1i8), (-1i8, 1i8), (-1i8, -1i8)]
}

/// The directions a sliding piece moves along.
pub open spec fn slide_dirs(pt: PieceType) -> Seq<(i8, i8)> {
    match pt {
        PieceType::Bishop => bishop_dirs(),
        PieceType::Rook => rook_dirs(),
        _ => king_offsets(),
    }
}

/// A unit step: both components in -1..=1.
pub open spec fn unit_dir(d: (i8, i8)) -> bool {
    -1 <= d.0 <= 1 && -1 <= d.1 <= 1
}

/// The square `k` steps from `from` along `d`, if it is on the board.
pub open spec fn ray(from: Square, d: (i8, i8), k: int) -> Option<Square> {
    spec_square_add(from, k * d.0, k * d.1)
}

/// An attack passes over `q`: it is empty (or holds the ninja) and is no deadly zone.
pub open spec fn attack_passes(b: BoardView, q: Square) -> bool {
    !(occupied(b, q) && !spec_is_ninja_square(b, q)) && !spec_is_deadly(b, q)
}

/// A piece on `from` sliding along `d` attacks `target`.
pub open spec fn ray_attacks(b: BoardView, from: Square, d: (i8, i8), target: Square) -> bool {
    exists|s: int|
        1 <= s <= 7 && #[trigger] ray(from, d, s) == Some(target) && forall|k: int|
            1 <= k < s ==> (#[trigger] ray(from, d, k)) is Some && attack_passes(b, ray(from, d, k)->0)
}

/// Some offset in `offs` leads from `from` to `target`.
pub open spec fn offset_hits(from: Square, offs: Seq<(i8, i8)>, target: Square) -> bool {
    exists|i: int| 0 <= i < offs.len() && spec_square_add(from, offs[i].0 as int, offs[i].1 as int) == Some(target)
}

/// Some direction in `dirs` attacks `target` from `from`.
pub open spec fn rays_attack(b: BoardView, from: Square, dirs: Seq<(i8, i8)>, target: Square) -> bool {
    exists|i: int| 0 <= i < dirs.len() && ray_attacks(b, from, dirs[i], target)
}

/// The piece `p` standing on `from` attacks `target`.
pub open spec fn piece_attacks(b: BoardView, p: PieceView, from: Square, target: Square) -> bool {
    if spec_is_cannon(p) {
        false
    } else {
        match p.piece_type {
            PieceType::Pawn => spec_square_add(from, -1, pawn_dir(p.color)) == Some(target)
                || spec_square_add(from, 1, pawn_dir(p.color)) == Some(target),
            PieceType::Knight => offset_hits(from, knight_offsets(), target),
            PieceType::King => offset_hits(from, king_offsets(), target),
            _ => rays_attack(b, from, slide_dirs(p.piece_type), target),
        }
    }
}

/// The piece on cell `from` attacks `target`.
pub open spec fn spec_can_attack(b: BoardView, from: int, target: Square) -> bool {
    match b.squares[from].piece {
        None => false,
        Some(p) => piece_attacks(b, p, spec_square_of(from), target),
    }
}

/// Cell `i` holds a piece of `by` that attacks `sq`.
pub open spec fn attacker_on(b: BoardView, i: int, by: Color, sq: Square) -> bool {
    match b.squares[i].piece {
        Some(p) => p.color == by && spec_can_attack(b, i, sq),
        None => false,
    }
}

/// Some piece of `by` attacks `sq`.
pub open spec fn spec_attacked(b: BoardView, sq: Square, by: Color) -> bool {
    exists|i: int| 0 <= i < 64 && #[trigger] attacker_on(b, i, by, sq)
}

pub open spec fn king_on(b: BoardView, c: Color, i: int) -> bool {
    b.squares[i].piece matches Some(p) && p.piece_type == PieceType::King && p.color == c
}

/// The first cell from `i` on that holds the king of `c`.
pub open spec fn first_king_from(b: BoardView, c: Color, i: int) -> Option<int>
    decreases 64 - i,
{
    if i >= 64 || i < 0 {
        None
    } else if king_on(b, c, i) {
        Some(i)
    } else {
        first_king_from(b, c, i + 1)
    }
}

pub open spec fn spec_find_king(b: BoardView, c: Color) -> Option<Square> {
    match first_king_from(b, c, 0) {
        Some(i) => Some(spec_square_of(i)),
        None => None,
    }
}

/// The king of `c` stands on an attacked square.
pub open spec fn spec_in_check(b: BoardView, c: Color) -> bool {
    match spec_find_king(b, c) {
        None => false,
        Some(k) => spec_attacked(b, k, c.spec_other()),
    }
}

/// A pawn attacks exactly the two squares one file aside and one rank forward
/// for its colour: up the board for white, down for black.
pub proof fn law_pawn_attacks_forward(b: BoardView, p: PieceView, from: Square, target: Square)
    requires
        p.piece_type == PieceType::Pawn,
        !spec_is_cannon(p),
        valid_sq(from),
        valid_sq(target),
    ensures
        piece_attacks(b, p, from, target) <==> (
            target.rank == from.rank + (if p.color == Color::White { 1int } else { -1int })
            && (target.file == from.file + 1 || target.file + 1 == from.file)),
{
}

/// A king attacks only the squares next to it, and a knight only the squares
/// two files and one rank, or one file and two ranks, away.
pub proof fn law_king_and_knight_attacks(b: BoardView, p: PieceView, from: Square, target: Square)
    requires
        !spec_is_cannon(p),
        valid_sq(from),
        piece_attacks(b, p, from, target),
    ensures
        ({
            let df = target.file - from.file;
            let dr = target.rank - from.rank;
            &&& p.piece_type == PieceType::King ==> -1 <= df <= 1 && -1 <= dr <= 1 && (df != 0 || dr != 0)
            &&& p.piece_type == PieceType::Knight ==> ((df == 1 || df == -1) && (dr == 2 || dr == -2))
                || ((df == 2 || df == -2) && (dr == 1 || dr == -1))
        }),
{
    if p.piece_type == PieceType::King {
        let i = choose|i: int| 0 <= i < king_offsets().len()
            && spec_square_add(from, king_offsets()[i].0 as int, king_offsets()[i].1 as int) == Some(target);
        assert(0 <= i < 8);
    }
    if p.piece_type == PieceType::Knight {
        let i = choose|i: int| 0 <= i < knight_offsets().len()
            && spec_square_add(from, knight_offsets()[i].0 as int, knight_offsets()[i].1 as int) == Some(target);
        assert(0 <= i < 8);
    }
}

/// A king that stands one file aside and one rank forward of an enemy pawn,
/// for the pawn's colour, is in check.
pub proof fn law_pawn_gives_check(b: BoardView, c: Color, k: Square, s: Square)
    requires
        board_wf(b),
        valid_sq(k),
        valid_sq(s),
        king_on(b, c, spec_index(k)),
        forall|i: int| 0 <= i < 64 && #[trigger] king_on(b, c, i) ==> i == spec_index(k),
        b.squares[spec_index(s)].piece matches Some(pp) && pp.piece_type == PieceType::Pawn
            && pp.color != c && !spec_is_cannon(pp),
        k.rank == s.rank + (if c == Color::White { -1int } else { 1int }),
        k.file == s.file + 1 || k.file + 1 == s.file,
    ensures
        spec_in_check(b, c),
{
    crate::board::utils::lemma_index_roundtrip(k, 0);
    crate::board::utils::lemma_index_roundtrip(s, 0);
    lemma_first_king(b, c, 0);
    assert(spec_find_king(b, c) == Some(k));
    let pp = b.squares[spec_index(s)].piece->0;
    law_pawn_attacks_forward(b, pp, s, k);
    assert(pp.color == c.spec_other());
    assert(attacker_on(b, spec_index(s), c.spec_other(), k));
}

/// The king found from cell `i` on is the first king of that colour there.
pub proof fn lemma_first_king(b: BoardView, c: Color, i: int)
    requires
        0 <= i <= 64,
    ensures
        first_king_from(b, c, i) matches Some(j) ==> i <= j < 64 && king_on(b, c, j)
            && forall|k: int| i <= k < j ==> !king_on(b, c, k),
        first_king_from(b, c, i) is None ==> forall|k: int| i <= k < 64 ==> !king_on(b, c, k),
    decreases 64 - i,
{
    if i < 64 {
        lemma_first_king(b, c, i + 1);
    }
}

/// Off-board squares along a unit ray stay off the board further on.
pub proof fn lemma_ray_step(d: (i8, i8), k: int)
    by (nonlinear_arith)
    requires
        unit_dir(d),
    ensures
        k * d.0 == if d.0 == 1 { k } else if d.0 == -1 { -k } else { 0 },
        k * d.1 == if d.1 == 1 { k } else if d.1 == -1 { -k } else { 0 },
{
}

/// Off-board squares along a unit ray stay off the board further on.
pub proof fn lemma_ray_leaves(from: Square, d: (i8, i8), k: int, s: int)
    requires
        valid_sq(from),
        unit_dir(d),
        1 <= k <= s,
        ray(from, d, k) is None,
    ensures
        ray(from, d, s) is None,
{
    lemma_ray_step(d, k);
    lemma_ray_step(d, s);
}

/// Does the piece on `from` sliding along `d` attack `target`?
fn ray_attack_exec(b: &Board, from: Square, d: (i8, i8), target: Square) -> (r: bool)
    requires
        board_wf(b@),
        valid_sq(from),
        unit_dir(d),
    ensures
        r == ray_attacks(b@, from, d, target),
{
    let mut step: i8 = 1;
    while step < 8
        invariant
            1 <= step <= 8,
            board_wf(b@),
            valid_sq(from),
            unit_dir(d),
            forall|k: int| 1 <= k < step ==> (#[trigger] ray(from, d, k)) is Some
                && attack_passes(b@, ray(from, d, k)->0) && ray(from, d, k) != Some(target),
        decreases 8 - step,
    {
        proof {
            lemma_ray_step(d, step as int);
        }
        let sq = square_add(from, d.0 * step, d.1 * step);
        assert(sq == ray(from, d, step as int));
        match sq {
            Some(q) => {
                if q == target {
                    assert(ray(from, d, step as int) == Some(target));
                    return true;
                }
                if b.squares[square_to_index(q)].is_some() && !b.is_ninja_square(q) {
                    proof {
                        assert forall|s: int| 1 <= s <= 7 && #[trigger] ray(from, d, s) == Some(target)
                            implies !(forall|k: int| 1 <= k < s ==> (#[trigger] ray(from, d, k)) is Some
                                && attack_passes(b@, ray(from, d, k)->0)) by {
                            assert(s != step);
                            if s > step {
                                assert(!attack_passes(b@, ray(from, d, step as int)->0));
                            }
                        }
                    }
                    return false;
                }
                if b.is_deadly_zone(q) {
                    proof {
                        assert forall|s: int| 1 <= s <= 7 && #[trigger] ray(from, d, s) == Some(target)
                            implies !(forall|k: int| 1 <= k < s ==> (#[trigger] ray(from, d, k)) is Some
                                && attack_passes(b@, ray(from, d, k)->0)) by {
                            assert(s != step);
                            if s > step {
                                assert(!attack_passes(b@, ray(from, d, step as int)->0));
                            }
                        }
                    }
                    return false;
                }
            }
            None => {
                proof {
                    assert forall|s: int| 1 <= s <= 7 && #[trigger] ray(from, d, s) == Some(target)
                        implies !(forall|k: int| 1 <= k < s ==> (#[trigger] ray(from, d, k)) is Some
                            && attack_passes(b@, ray(from, d, k)->0)) by {
                        if s >= step {
                            lemma_ray_leaves(from, d, step as int, s);
                        }
                    }
                }
                return false;
            }
        }
        step = step + 1;
    }
    false
}

/// Does some direction of `dirs` attack `target` from `from`?
fn rays_attack_exec(b: &Board, from: Square, dirs: &Vec<(i8, i8)>, target: Square) -> (r: bool)
    requires
        board_wf(b@),
        valid_sq(from),
        forall|i: int| 0 <= i < dirs@.len() ==> unit_dir(#[trigger] dirs@[i]),
    ensures
        r == rays_attack(b@, from, dirs@, target),
{
    let mut i: usize = 0;
    while i < dirs.len()
        invariant
            i <= dirs@.len(),
            board_wf(b@),
            valid_sq(from),
            forall|j: int| 0 <= j < dirs@.len() ==> unit_dir(#[trigger] dirs@[j]),
            forall|j: int| 0 <= j < i ==> !ray_attacks(b@, from, #[trigger] dirs@[j], target),
        decreases dirs@.len() - i,
    {
        if ray_attack_exec(b, from, dirs[i], target) {
            return true;
        }
        i = i + 1;
    }
    false
}

/// Does some offset of `offs` lead from `from` to `target`?
fn offsets_hit_exec(from: Square, offs: &Vec<(i8, i8)>, target: Square) -> (r: bool)
    requires
        valid_sq(from),
        forall|i: int| 0 <= i < offs@.len() ==> -2 <= (#[trigger] offs@[i]).0 <= 2 && -2 <= offs@[i].1 <= 2,
    ensures
        r == offset_hits(from, offs@, target),
{
    let mut i: usize = 0;
    while i < offs.len()
        invariant
            i <= offs@.len(),
            valid_sq(from),
            forall|j: int| 0 <= j < offs@.len() ==> -2 <= (#[trigger] offs@[j]).0 <= 2 && -2 <= offs@[j].1 <= 2,
            forall|j: int| 0 <= j < i ==> spec_square_add(from, (#[trigger] offs@[j]).0 as int, offs@[j].1 as int) != Some(target),
        decreases offs@.len() - i,
    {
        let (df, dr) = offs[i];
        match square_add(from, df, dr) {
            Some(q) => {
                if q == target {
                    return true;
                }
            }
            None => {}
        }
        i = i + 1;
    }
    false
}

pub fn knight_offsets_vec() -> (r: Vec<(i8, i8)>)
    ensures
        r@ == knight_offsets(),
{
    let r = vec![(1, 2), (2, 1), (-1, 2), (-2, 1), (1, -2), (2, -1), (-1, -2), (-2, -1)];
    assert(r@ =~= knight_offsets());
    r
}

pub fn king_offsets_vec() -> (r: Vec<(i8, i8)>)
    ensures
        r@ == king_offsets(),
{
    let r = vec![(1, 0), (-1, 0), (0, 1), (0, -1), (1, 1), (1, -1), (-1, 1), (-1, -1)];
    assert(r@ =~= king_offsets());
    r
}

pub fn slide_dirs_vec(pt: PieceType) -> (r: Vec<(i8, i8)>)
    ensures
        r@ == slide_dirs(pt),
        forall|i: int| 0 <= i < r@.len() ==> unit_dir(#[trigger] r@[i]),
{
    let r: Vec<(i8, i8)> = match pt {
        PieceType::Bishop => vec![(1, 1), (1, -1), (-1, 1), (-1, -1)],
        PieceType::Rook => vec![(1, 0), (-1, 0), (0, 1), (0, -1)],
        _ => vec![(1, 0), (-1, 0), (0, 1), (0, -1), (1, 1), (1, -1), (-1, 1), (-1, -1)],
    };
    assert(r@ =~= slide_dirs(pt));
    r
}

pub trait CheckAnalyzer {
    spec fn board_ok(&self) -> bool;

    fn is_in_check(&self, color: Color) -> bool
        requires
            self.board_ok(),
    ;

    fn find_king(&self, color: Color) -> Option<Square>
        requires
            self.board_ok(),
    ;

    fn is_square_attacked(&self, square: Square, by_color: Color) -> bool
        requires
            self.board_ok(),
    ;

    fn can_piece_attack(&self, from: usize, target: Square) -> bool
        requires
            self.board_ok(),
            from < 64,
    ;
}

impl CheckAnalyzer for Board {
    open spec fn board_ok(&self) -> bool {
        board_wf(self@)
    }

    fn is_in_check(&self, color: Color) -> (r: bool)
        ensures
            r == spec_in_check(self@, color),
    {
        let king_square = match self.find_king(color) {
            Some(sq) => sq,
            None => return false,
        };
        self.is_square_attacked(king_square, color.other())
    }

    fn find_king(&self, color: Color) -> (r: Option<Square>)
        ensures
            r == spec_find_king(self@, color),
            r matches Some(sq) ==> valid_sq(sq),
    {
        let mut i: usize = 0;
        while i < 64
            invariant
                i <= 64,
                board_wf(self@),
                first_king_from(self@, color, 0) == first_king_from(self@, color, i as int),
            decreases 64 - i,
        {
            match self.squares[i].as_ref() {
                Some(piece) => {
                    if piece.piece_type == PieceType::King && piece.color == color {
                        return Some(index_to_square(i));
                    }
                }
                None => {}
            }
            i = i + 1;
        }
        None
    }

    fn is_square_attacked(&self, square: Square, by_color: Color) -> (r: bool)
        ensures
            r == spec_attacked(self@, square, by_color),
    {
        let mut i: usize = 0;
        while i < 64
            invariant
                i <= 64,
                board_wf(self@),
                forall|j: int| 0 <= j < i ==> !#[trigger] attacker_on(self@, j, by_color, square),
            decreases 64 - i,
        {
            match self.squares[i].as_ref() {
                Some(piece) => {
                    if piece.color == by_color && self.can_piece_attack(i, square) {
                        assert(attacker_on(self@, i as int, by_color, square));
                        return true;
                    }
                }
                None => {}
            }
            i = i + 1;
        }
        false
    }

    fn can_piece_attack(&self, from: usize, target: Square) -> (r: bool)
        ensures
            r == spec_can_attack(self@, from as int, target),
    {
        let piece = match self.squares[from].as_ref() {
            Some(p) => p,
            None => return false,
        };
        let from_square = index_to_square(from);
        if piece.is_cannon() {
            return false;
        }
        match piece.piece_type {
            PieceType::Pawn => {
                let direction: i8 = if piece.color == Color::White { 1 } else { -1 };
                let left = square_add(from_square, -1, direction);
                let right = square_add(from_square, 1, direction);
                let hit_left = match left {
                    Some(q) => q == target,
                    None => false,
                };
                let hit_right = match right {
                    Some(q) => q == target,
                    None => false,
                };
                hit_left || hit_right
            },
            PieceType::Knight => offsets_hit_exec(from_square, &knight_offsets_vec(), target),
            PieceType::King => offsets_hit_exec(from_square, &king_offsets_vec(), target),
            _ => rays_attack_exec(self, from_square, &slide_dirs_vec(piece.piece_type), target),
        }
    }
}

} // verus!
