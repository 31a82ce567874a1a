//! Pieces, colours, squares and the modifiers that cards put on them.
use vstd::prelude::*;
use vstd::string::StringSliceAdditionalSpecFns;
use crate::text::{spec_lowercase, lowercase, push_char, push_decimal, decimal, digit_char, str_eq};

verus! {

#[derive(Debug, Clone, Copy, PartialEq, Eq, Structural)]
pub enum PieceType {
    Pawn,
    Knight,
    Bishop,
    Rook,
    Queen,
    King,
}

/// The promotion piece named by an already lower-cased word.
pub open spec fn promotion_of(t: Seq<char>) -> Option<PieceType> {
    if t == "queen"@ || t == "q"@ {
        Some(PieceType::Queen)
    } else if t == "rook"@ || t == "r"@ {
        Some(PieceType::Rook)
    } else if t == "bishop"@ || t == "b"@ {
        Some(PieceType::Bishop)
    } else if t == "knight"@ || t == "n"@ {
        Some(PieceType::Knight)
    } else {
        None
    }
}

impl PieceType {
    /// The promotion piece named by `t`, which the caller has lower-cased.
    pub fn from_lowercase_promotion(t: &str) -> (r: Option<PieceType>)
        ensures
            r == promotion_of(t@),
    {
        if str_eq(t, "queen") || str_eq(t, "q") {
            Some(PieceType::Queen)
        } else if str_eq(t, "rook") || str_eq(t, "r") {
            Some(PieceType::Rook)
        } else if str_eq(t, "bishop") || str_eq(t, "b") {
            Some(PieceType::Bishop)
        } else if str_eq(t, "knight") || str_eq(t, "n") {
            Some(PieceType::Knight)
        } else {
            None
        }
    }

    /// The promotion piece named by `s`, in any letter case.
    pub fn from_promotion_str(s: &str) -> (r: Option<PieceType>)
        ensures
            r == promotion_of(spec_lowercase(s@)),
    {
        let t = lowercase(s);
        PieceType::from_lowercase_promotion(t.as_str())
    }
}

#[derive(Debug, Clone, Copy, PartialEq, Eq, Hash, Structural)]
pub enum Color {
    White,
    Black,
}

impl Color {
    pub open spec fn spec_other(self) -> Color {
        match self {
            Color::White => Color::Black,
            Color::Black => Color::White,
        }
    }

    #[verifier::when_used_as_spec(spec_other)]
    pub fn other(self) -> (r: Color)
        ensures
            r == self.spec_other(),
    {
        match self {
            Color::White => Color::Black,
            Color::Black => Color::White,
        }
    }
}

#[derive(Debug, Clone, Copy, PartialEq, Eq, Hash, Structural)]
pub struct Square {
    pub file: u8,
    pub rank: u8,
}

/// A square of the board: file and rank both in 1..=8.
pub open spec fn valid_sq(sq: Square) -> bool {
    1 <= sq.file <= 8 && 1 <= sq.rank <= 8
}

/// The characters of the algebraic name of a square ("e4").
pub open spec fn coord_chars(sq: Square) -> Seq<char> {
    seq![((96 + sq.file) as u8) as char] + decimal(sq.rank as nat)
}

/// The square named by the bytes of a coordinate such as "e4".
pub open spec fn square_of_bytes(b: Seq<u8>) -> Option<Square> {
    if b.len() == 2 && 97 <= b[0] <= 104 && 49 <= b[1] <= 56 {
        Some(Square { file: (b[0] - 96) as u8, rank: (b[1] - 48) as u8 })
    } else {
        None
    }
}

impl Square {
    pub fn from_coord(coord: &str) -> (r: Option<Square>)
        ensures
            r == square_of_bytes(coord.spec_bytes()),
    {
        let bytes = coord.as_bytes();
        if bytes.len() != 2 {
            return None;
        }
        let file = bytes[0];
        let rank = bytes[1];
        if file < 97 || file > 104 || rank < 49 || rank > 56 {
            return None;
        }
        Some(Square { file: file - 96, rank: rank - 48 })
    }

    pub fn to_coord(self) -> (r: String)
        requires
            self.file <= 158,
        ensures
            r@ == coord_chars(self),
    {
        let mut s = String::new();
        let b: u8 = 96 + self.file;
        push_char(&mut s, b as char);
        push_decimal(&mut s, self.rank as u64);
        s
    }
}

#[derive(Debug, Clone, PartialEq, Eq)]
pub struct MoveSet {
    pub default: Vec<(i8, i8)>,
    pub current: Vec<Square>,
    pub allowed: Vec<Square>,
}

pub struct MoveSetView {
    pub default: Seq<(i8, i8)>,
    pub current: Seq<Square>,
    pub allowed: Seq<Square>,
}

impl View for MoveSet {
    type V = MoveSetView;

    open spec fn view(&self) -> MoveSetView {
        MoveSetView { default: self.default@, current: self.current@, allowed: self.allowed@ }
    }
}

/// A copy of a vector of plain values.
pub fn copy_vec<T: Copy>(v: &Vec<T>) -> (r: Vec<T>)
    ensures
        r@ == v@,
{
    let mut r: Vec<T> = Vec::new();
    let mut i: usize = 0;
    while i < v.len()
        invariant
            i <= v.len(),
            r@ == v@.subrange(0, i as int),
        decreases v.len() - i,
    {
        r.push(v[i]);
        i = i + 1;
        assert(r@ =~= v@.subrange(0, i as int));
    }
    assert(v@.subrange(0, v.len() as int) =~= v@);
    r
}

impl MoveSet {
    pub fn new(default: Vec<(i8, i8)>) -> (r: MoveSet)
        ensures
            r@.default == default@,
            r@.current == Seq::<Square>::empty(),
            r@.allowed == Seq::<Square>::empty(),
    {
        MoveSet { default, current: Vec::new(), allowed: Vec::new() }
    }

    /// A copy with the same contents.
    pub fn duplicate(&self) -> (r: MoveSet)
        ensures
            r@ == self@,
    {
        MoveSet {
            default: copy_vec(&self.default),
            current: copy_vec(&self.current),
            allowed: copy_vec(&self.allowed),
        }
    }
}

#[derive(Debug, Clone, Copy, PartialEq, Eq, Structural)]
pub enum PieceModifier {
    Cannon { rarity: Option<u8> },
    Sniper { rarity: Option<u8> },
    VeteranKnight { rarity: Option<u8> },
    VeteranRook { rarity: Option<u8> },
    VeteranBishop { rarity: Option<u8> },
    Ninja { rarity: Option<u8> },
}

#[derive(Debug, Clone, Copy, PartialEq, Eq, Structural)]
pub enum SquareModifier {
    Battlefield { rarity: u8 },
    DeadlyZone { rarity: u8 },
}

#[derive(Debug, Clone, PartialEq, Eq)]
pub struct Piece {
    pub piece_type: PieceType,
    pub color: Color,
    pub move_set: MoveSet,
    pub piece_modifier: Option<PieceModifier>,
    pub has_moved: bool,
}

pub struct PieceView {
    pub piece_type: PieceType,
    pub color: Color,
    pub move_set: MoveSetView,
    pub piece_modifier: Option<PieceModifier>,
    pub has_moved: bool,
}

impl View for Piece {
    type V = PieceView;

    open spec fn view(&self) -> PieceView {
        PieceView {
            piece_type: self.piece_type,
            color: self.color,
            move_set: self.move_set@,
            piece_modifier: self.piece_modifier,
            has_moved: self.has_moved,
        }
    }
}

pub open spec fn opt_piece_view(p: Option<Piece>) -> Option<PieceView> {
    match p {
        Some(q) => Some(q@),
        None => None,
    }
}

/// The offsets a piece of this kind and colour starts with.
pub open spec fn default_moves(pt: PieceType, color: Color) -> Seq<(i8, i8)> {
    match pt {
        PieceType::Pawn => if color == Color::White {
            seq![(0i8, 1i8), (0i8, 2i8), (1i8, 1i8), (-1i8, 1i8)]
        } else {
            seq![(0i8, -1i8), (0i8, -2i8), (1i8, -1i8), (-1i8, -1i8)]
        },
        PieceType::Knight => seq![
            (1i8, 2i8), (2i8, 1i8), (-1i8, 2i8), (-2i8, 1i8),
            (1i8, -2i8), (2i8, -1i8), (-1i8, -2i8), (-2i8, -1i8)
        ],
        PieceType::Bishop => seq![(1i8, 1i8), (1i8, -1i8), (-1i8, 1i8), (-1i8, -1i8)],
        PieceType::Rook => seq![(1i8, 0i8), (-1i8, 0i8), (0i8, 1i8), (0i8, -1i8)],
        PieceType::Queen | PieceType::King => seq![
            (1i8, 0i8), (-1i8, 0i8), (0i8, 1i8), (0i8, -1i8),
            (1i8, 1i8), (1i8, -1i8), (-1i8, 1i8), (-1i8, -1i8)
        ],
    }
}

/// A fresh, unmoved, unmodified piece.
pub open spec fn fresh_piece(pt: PieceType, color: Color) -> PieceView {
    PieceView {
        piece_type: pt,
        color,
        move_set: MoveSetView {
            default: default_moves(pt, color),
            current: Seq::empty(),
            allowed: Seq::empty(),
        },
        piece_modifier: None,
        has_moved: false,
    }
}

pub open spec fn spec_is_cannon(p: PieceView) -> bool {
    p.piece_modifier matches Some(PieceModifier::Cannon { .. })
}

pub open spec fn spec_is_sniper(p: PieceView) -> bool {
    p.piece_modifier matches Some(PieceModifier::Sniper { .. })
}

pub open spec fn spec_is_veteran_knight(p: PieceView) -> bool {
    p.piece_modifier matches Some(PieceModifier::VeteranKnight { .. })
}

pub open spec fn spec_is_veteran_rook(p: PieceView) -> bool {
    p.piece_modifier matches Some(PieceModifier::VeteranRook { .. })
}

pub open spec fn spec_is_veteran_bishop(p: PieceView) -> bool {
    p.piece_modifier matches Some(PieceModifier::VeteranBishop { .. })
}

pub open spec fn spec_is_ninja(p: PieceView) -> bool {
    p.piece_modifier matches Some(PieceModifier::Ninja { .. })
}

impl Piece {
    pub fn new(piece_type: PieceType, color: Color) -> (r: Piece)
        ensures
            r@ == fresh_piece(piece_type, color),
    {
        let moves: Vec<(i8, i8)> = match piece_type {
            PieceType::Pawn => if color == Color::White {
                vec![(0, 1), (0, 2), (1, 1), (-1, 1)]
            } else {
                vec![(0, -1), (0, -2), (1, -1), (-1, -1)]
            },
            PieceType::Knight => vec![
                (1, 2), (2, 1), (-1, 2), (-2, 1), (1, -2), (2, -1), (-1, -2), (-2, -1),
            ],
            PieceType::Bishop => vec![(1, 1), (1, -1), (-1, 1), (-1, -1)],
            PieceType::Rook => vec![(1, 0), (-1, 0), (0, 1), (0, -1)],
            PieceType::Queen => vec![
                (1, 0), (-1, 0), (0, 1), (0, -1), (1, 1), (1, -1), (-1, 1), (-1, -1),
            ],
            PieceType::King => vec![
                (1, 0), (-1, 0), (0, 1), (0, -1), (1, 1), (1, -1), (-1, 1), (-1, -1),
            ],
        };
        let r = Piece {
            piece_type,
            color,
            move_set: MoveSet::new(moves),
            piece_modifier: None,
            has_moved: false,
        };
        assert(r@.move_set.default =~= default_moves(piece_type, color));
        r
    }

    /// A copy with the same contents.
    pub fn duplicate(&self) -> (r: Piece)
        ensures
            r@ == self@,
    {
        Piece {
            piece_type: self.piece_type,
            color: self.color,
            move_set: self.move_set.duplicate(),
            piece_modifier: self.piece_modifier,
            has_moved: self.has_moved,
        }
    }

    pub fn set_modifier(&mut self, modifier: PieceModifier)
        ensures
            final(self)@ == (PieceView { piece_modifier: Some(modifier), ..old(self)@ }),
    {
        self.piece_modifier = Some(modifier);
    }

    pub fn is_cannon(&self) -> (r: bool)
        ensures
            r == spec_is_cannon(self@),
    {
        match self.piece_modifier {
            Some(PieceModifier::Cannon { .. }) => true,
            _ => false,
        }
    }

    pub fn is_sniper(&self) -> (r: bool)
        ensures
            r == spec_is_sniper(self@),
    {
        match self.piece_modifier {
            Some(PieceModifier::Sniper { .. }) => true,
            _ => false,
        }
    }

    pub fn is_veteran_knight(&self) -> (r: bool)
        ensures
            r == spec_is_veteran_knight(self@),
    {
        match self.piece_modifier {
            Some(PieceModifier::VeteranKnight { .. }) => true,
            _ => false,
        }
    }

    pub fn is_veteran_rook(&self) -> (r: bool)
        ensures
            r == spec_is_veteran_rook(self@),
    {
        match self.piece_modifier {
            Some(PieceModifier::VeteranRook { .. }) => true,
            _ => false,
        }
    }

    pub fn is_veteran_bishop(&self) -> (r: bool)
        ensures
            r == spec_is_veteran_bishop(self@),
    {
        match self.piece_modifier {
            Some(PieceModifier::VeteranBishop { .. }) => true,
            _ => false,
        }
    }

    pub fn is_ninja(&self) -> (r: bool)
        ensures
            r == spec_is_ninja(self@),
    {
        match self.piece_modifier {
            Some(PieceModifier::Ninja { .. }) => true,
            _ => false,
        }
    }
}

#[derive(Debug, Clone)]
pub struct SquareCell {
    pub piece: Option<Piece>,
    pub modifier: Option<SquareModifier>,
}

pub struct CellView {
    pub piece: Option<PieceView>,
    pub modifier: Option<SquareModifier>,
}

impl View for SquareCell {
    type V = CellView;

    open spec fn view(&self) -> CellView {
        CellView { piece: opt_piece_view(self.piece), modifier: self.modifier }
    }
}

impl SquareCell {
    pub fn new() -> (r: SquareCell)
        ensures
            r@.piece is None,
            r@.modifier is None,
    {
        SquareCell { piece: None, modifier: None }
    }

    pub fn as_ref(&self) -> (r: Option<&Piece>)
        ensures
            r is Some <==> self.piece is Some,
            r is Some ==> r->0 == self.piece->0,
    {
        self.piece.as_ref()
    }

    pub fn as_mut(&mut self) -> (r: Option<&mut Piece>)
        ensures
            r is Some <==> old(self).piece is Some,
            r is Some ==> *r->0 == old(self).piece->0,
            final(self).modifier == old(self).modifier,
            r is Some ==> final(self).piece == Some(*final(r->0)),
            r is None ==> final(self).piece is None,
    {
        self.piece.as_mut()
    }

    pub fn is_some(&self) -> (r: bool)
        ensures
            r == self.piece is Some,
    {
        self.piece.is_some()
    }

    pub fn is_none(&self) -> (r: bool)
        ensures
            r == self.piece is None,
    {
        self.piece.is_none()
    }

    pub fn take(&mut self) -> (r: Option<Piece>)
        ensures
            r == old(self).piece,
            final(self).piece is None,
            final(self).modifier == old(self).modifier,
    {
        self.piece.take()
    }

    /// A copy with the same contents.
    pub fn duplicate(&self) -> (r: SquareCell)
        ensures
            r@ == self@,
    {
        let piece = match &self.piece {
            Some(p) => Some(p.duplicate()),
            None => None,
        };
        SquareCell { piece, modifier: self.modifier }
    }
}

impl Default for SquareCell {
    fn default() -> (r: SquareCell)
        ensures
            r.piece is None,
            r.modifier is None,
    {
        SquareCell::new()
    }
}

#[derive(Debug, Clone, Copy, PartialEq, Eq, Structural)]
pub struct CastlingRights {
    pub white_king_side: bool,
    pub white_queen_side: bool,
    pub black_king_side: bool,
    pub black_queen_side: bool,
}

impl Default for CastlingRights {
    fn default() -> (r: CastlingRights)
        ensures
            r.white_king_side && r.white_queen_side && r.black_king_side && r.black_queen_side,
    {
        CastlingRights {
            white_king_side: true,
            white_queen_side: true,
            black_king_side: true,
            black_queen_side: true,
        }
    }
}

/// The other colour of the other colour is the colour itself.
pub proof fn lemma_other_color(c: Color)
    ensures
        c.spec_other().spec_other() == c,
        c.spec_other() != c,
{
}

/// Reading the name of a square of the board gives the square back.
pub proof fn law_coord_roundtrip(sq: Square)
    requires
        valid_sq(sq),
    ensures
        square_of_bytes(vstd::utf8::encode_utf8(coord_chars(sq))) == Some(sq),
{
    let f: u8 = (96 + sq.file) as u8;
    let a = f as char;
    let d = digit_char(sq.rank as nat);
    assert(decimal(sq.rank as nat) == seq![d]);
    let cs = coord_chars(sq);
    assert(cs =~= seq![a, d]);
    let va: u32 = a as u32;
    let vd: u32 = d as u32;
    assert(va == f);
    assert(vd == 48 + sq.rank);
    assert(va <= 0x7F);
    assert(vd <= 0x7F);
    assert(((va & 0x7F) as u8) == va) by (bit_vector)
        requires
            va <= 0x7F;
    assert(((vd & 0x7F) as u8) == vd) by (bit_vector)
        requires
            vd <= 0x7F;
    assert(cs.drop_first() =~= seq![d]);
    assert(seq![d].drop_first() =~= Seq::<char>::empty());
    assert(vstd::utf8::encode_scalar(vd) =~= seq![vd as u8]);
    assert(vstd::utf8::encode_scalar(va) =~= seq![va as u8]);
    assert(vstd::utf8::encode_utf8(Seq::<char>::empty()) =~= Seq::<u8>::empty());
    assert(seq![d][0] == d);
    assert(vstd::utf8::encode_utf8(seq![d]) =~= vstd::utf8::encode_scalar(vd) + vstd::utf8::encode_utf8(Seq::<char>::empty()));
    assert(vstd::utf8::encode_utf8(seq![d]) =~= seq![vd as u8]);
    assert(vstd::utf8::encode_utf8(cs) =~= seq![va as u8, vd as u8]);
}

} // verus!
