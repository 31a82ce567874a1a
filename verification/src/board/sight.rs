//! What each player is shown of the board: fog hides the enemy pieces that
//! none of the player's pieces can reach, and enemy pieces are shown without
//! their moves, but for the pawns that the traitor card hands over.
use vstd::prelude::*;
use crate::board::{Board, BoardView, board_wf, spec_reachable, cell_reaches};
use crate::board::types::{Piece, PieceView, PieceType, PieceModifier, Color, Square, SquareModifier};
use crate::board::utils::{index_to_square, spec_square_of};

verus! {

/// One cell as a player is shown it.
#[derive(Debug)]
pub struct CellSight {
    /// The piece shown, if the cell holds one that the player may see.
    pub piece: Option<Piece>,
    /// The piece is shown without its moves.
    pub moves_hidden: bool,
    pub modifier: Option<SquareModifier>,
}

pub struct CellSightView {
    pub piece: Option<PieceView>,
    pub moves_hidden: bool,
    pub modifier: Option<SquareModifier>,
}

impl View for CellSight {
    type V = CellSightView;

    open spec fn view(&self) -> CellSightView {
        CellSightView {
            piece: match self.piece {
                Some(p) => Some(p@),
                None => None,
            },
            moves_hidden: self.moves_hidden,
            modifier: self.modifier,
        }
    }
}

/// Cell `i` as shown to `color`, or to a spectator when `color` is `None`.
pub open spec fn cell_sight(b: BoardView, color: Option<Color>, i: int) -> CellSightView {
    let c = b.squares[i];
    let fog = color is Some && b.card_state.fog_remaining_turns > 0;
    match c.piece {
        None => CellSightView { piece: None, moves_hidden: false, modifier: c.modifier },
        Some(p) => match color {
            Some(k) => if p.color != k {
                if fog && !spec_reachable(b, k, spec_square_of(i)) {
                    CellSightView { piece: None, moves_hidden: false, modifier: c.modifier }
                } else {
                    CellSightView {
                        piece: Some(p),
                        moves_hidden: !(b.card_state.traitor == Some(k) && p.piece_type == PieceType::Pawn),
                        modifier: c.modifier,
                    }
                }
            } else {
                CellSightView { piece: Some(p), moves_hidden: false, modifier: c.modifier }
            },
            None => CellSightView { piece: Some(p), moves_hidden: false, modifier: c.modifier },
        },
    }
}

fn holds_square(v: &Vec<Square>, sq: Square) -> (r: bool)
    ensures
        r == v@.contains(sq),
{
    let mut i: usize = 0;
    while i < v.len()
        invariant
            i <= v.len(),
            forall|k: int| 0 <= k < i ==> v@[k] != sq,
        decreases v.len() - i,
    {
        if v[i] == sq {
            return true;
        }
        i = i + 1;
    }
    false
}

impl Board {
    /// The 64 cells as shown to `color`, or to a spectator when `color` is `None`.
    pub fn sight_for(&self, color: Option<Color>) -> (r: Vec<CellSight>)
        requires
            board_wf(self@),
        ensures
            r@.len() == 64,
            forall|i: int| 0 <= i < 64 ==> (#[trigger] r@[i])@ == cell_sight(self@, color, i),
    {
        let fog_active = match color {
            Some(c) => self.is_fog_active_for(c),
            None => false,
        };
        let reachable: Vec<Square> = match color {
            Some(c) => if fog_active { self.reachable_squares_for(c) } else { Vec::new() },
            None => Vec::new(),
        };
        let mut cells: Vec<CellSight> = Vec::new();
        let mut i: usize = 0;
        while i < 64
            invariant
                i <= 64,
                board_wf(self@),
                cells@.len() == i,
                fog_active == (color is Some && self@.card_state.fog_remaining_turns > 0),
                fog_active ==> forall|sq: Square| reachable@.contains(sq) <==> spec_reachable(self@, color->0, sq),
                forall|k: int| 0 <= k < i ==> (#[trigger] cells@[k])@ == cell_sight(self@, color, k),
            decreases 64 - i,
        {
            let square = index_to_square(i);
            let cell = &self.squares[i];
            let (piece, moves_hidden) = match &cell.piece {
                None => (None, false),
                Some(p) => match color {
                    Some(k) => {
                        if p.color != k {
                            if fog_active && !holds_square(&reachable, square) {
                                (None, false)
                            } else {
                                let traitor_controlled = self.card_state.traitor == Some(k)
                                    && p.piece_type == PieceType::Pawn;
                                (Some(p.duplicate()), !traitor_controlled)
                            }
                        } else {
                            (Some(p.duplicate()), false)
                        }
                    }
                    None => (Some(p.duplicate()), false),
                },
            };
            cells.push(CellSight { piece, moves_hidden, modifier: cell.modifier });
            i = i + 1;
        }
        cells
    }
}

/// What a player is shown: a spectator sees every cell as it is; a player
/// always sees their own pieces with their moves; every square modifier is
/// shown; and without fog every piece is shown.
pub proof fn law_sight(b: BoardView, color: Option<Color>, i: int)
    ensures
        cell_sight(b, color, i).modifier == b.squares[i].modifier,
        color is None ==> cell_sight(b, color, i).piece == b.squares[i].piece && !cell_sight(b, color, i).moves_hidden,
        (color matches Some(k) && b.squares[i].piece matches Some(p) && p.color == k) ==> cell_sight(b, color, i).piece
            == b.squares[i].piece && !cell_sight(b, color, i).moves_hidden,
        b.card_state.fog_remaining_turns == 0 ==> cell_sight(b, color, i).piece == b.squares[i].piece,
{
}

/// What the rendering of a cell puts before the player: the kind, colour and
/// modifier of the piece shown, the moves listed for it (none where they are
/// hidden), and the square's modifier.
pub open spec fn shown_cell(cs: CellSightView) -> (Option<(PieceType, Color, Option<PieceModifier>)>, Seq<Square>, Option<SquareModifier>) {
    match cs.piece {
        Some(p) => (
            Some((p.piece_type, p.color, p.piece_modifier)),
            if cs.moves_hidden { Seq::empty() } else { p.move_set.allowed },
            cs.modifier,
        ),
        None => (None, Seq::empty(), cs.modifier),
    }
}

/// Two boards that hold the same cards' state and the same pieces and square
/// modifiers, and differ at most in what the pieces of `c`'s opponent have
/// computed and whether they moved.
pub open spec fn differ_in_enemy_moves(b1: BoardView, b2: BoardView, c: Color) -> bool {
    &&& b1.card_state == b2.card_state
    &&& forall|i: int| 0 <= i < 64 ==> {
        let (x, y) = (#[trigger] b1.squares[i], b2.squares[i]);
        &&& x.modifier == y.modifier
        &&& match (x.piece, y.piece) {
            (None, None) => true,
            (Some(p), Some(q)) => {
                &&& p.color == q.color
                &&& p.piece_type == q.piece_type
                &&& p.piece_modifier == q.piece_modifier
                &&& p.color == c ==> p == q
            },
            _ => false,
        }
    }
}

/// A player's view never shows the moves of the opponent's pieces, but for
/// the pawns that the traitor card hands over: two boards that differ only in
/// those moves give, through `Board::sight_for`, cells that render the same
/// for the player, on every cell.
pub proof fn law_enemy_moves_hidden(b1: BoardView, b2: BoardView, c: Color)
    requires
        differ_in_enemy_moves(b1, b2, c),
        b1.card_state.traitor != Some(c),
    ensures
        forall|i: int| 0 <= i < 64 ==>
            shown_cell(#[trigger] cell_sight(b1, Some(c), i)) == shown_cell(cell_sight(b2, Some(c), i)),
{
    assert forall|sq: Square| spec_reachable(b1, c, sq) <==> spec_reachable(b2, c, sq) by {
        if spec_reachable(b1, c, sq) {
            let j = choose|j: int| 0 <= j < 64 && cell_reaches(#[trigger] b1.squares[j], c, sq);
            assert(cell_reaches(b2.squares[j], c, sq));
        }
        if spec_reachable(b2, c, sq) {
            let j = choose|j: int| 0 <= j < 64 && cell_reaches(#[trigger] b2.squares[j], c, sq);
            assert(cell_reaches(b1.squares[j], c, sq));
        }
    }
    assert forall|i: int| 0 <= i < 64 implies
        shown_cell(#[trigger] cell_sight(b1, Some(c), i)) == shown_cell(cell_sight(b2, Some(c), i)) by {
    }
}

} // verus!
