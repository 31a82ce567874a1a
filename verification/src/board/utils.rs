//! Square arithmetic and the numbering of the 64 cells (a1 = 0, h8 = 63).
use vstd::prelude::*;
use crate::board::types::{Square, valid_sq};

verus! {

/// The value of a byte read as a two's-complement `i8`.
pub open spec fn as_signed(x: u8) -> int {
    if x > 127 { x - 256 } else { x as int }
}

/// Offsetting a square: `Some` of the shifted square when it stays on the board.
pub open spec fn spec_square_add(square: Square, df: int, dr: int) -> Option<Square> {
    let file = as_signed(square.file) + df;
    let rank = as_signed(square.rank) + dr;
    if 1 <= file <= 8 && 1 <= rank <= 8 {
        Some(Square { file: file as u8, rank: rank as u8 })
    } else {
        None
    }
}

/// The cell number of a square.
pub open spec fn spec_index(square: Square) -> int {
    (square.rank - 1) * 8 + (square.file - 1)
}

/// The square of a cell number below 64.
pub open spec fn spec_square_of(index: int) -> Square {
    Square { file: (index % 8 + 1) as u8, rank: (index / 8 + 1) as u8 }
}

pub fn signed_of(x: u8) -> (r: i16)
    ensures
        r == as_signed(x),
{
    if x > 127 {
        x as i16 - 256
    } else {
        x as i16
    }
}

pub fn square_add(square: Square, df: i8, dr: i8) -> (r: Option<Square>)
    requires
        -128 <= as_signed(square.file) + df <= 127,
        -128 <= as_signed(square.rank) + dr <= 127,
    ensures
        r == spec_square_add(square, df as int, dr as int),
{
    let file: i16 = signed_of(square.file) + df as i16;
    let rank: i16 = signed_of(square.rank) + dr as i16;
    if file >= 1 && file <= 8 && rank >= 1 && rank <= 8 {
        Some(Square { file: file as u8, rank: rank as u8 })
    } else {
        None
    }
}

pub fn index_to_square(index: usize) -> (r: Square)
    requires
        (index / 8) % 256 != 255,
    ensures
        r.file == index % 8 + 1,
        r.rank == (index / 8) % 256 + 1,
        index < 64 ==> r == spec_square_of(index as int) && valid_sq(r) && spec_index(r) == index,
{
    let q: usize = index / 8;
    let low: u8 = (q % 256) as u8;
    assert((index % 8) as u8 == index % 8);
    Square { file: (index % 8) as u8 + 1, rank: low + 1 }
}

pub fn square_to_index(square: Square) -> (r: usize)
    requires
        square.rank >= 1,
        square.file >= 1,
        (square.rank - 1) * 8 <= 255,
        (square.rank - 1) * 8 + (square.file - 1) <= 255,
    ensures
        r == spec_index(square),
{
    ((square.rank - 1) * 8 + (square.file - 1)) as usize
}

/// Cell numbers and squares of the board are in one-to-one correspondence.
pub proof fn lemma_index_roundtrip(square: Square, index: int)
    ensures
        valid_sq(square) ==> 0 <= spec_index(square) < 64
            && spec_square_of(spec_index(square)) == square,
        0 <= index < 64 ==> valid_sq(spec_square_of(index))
            && spec_index(spec_square_of(index)) == index,
{
}

} // verus!
