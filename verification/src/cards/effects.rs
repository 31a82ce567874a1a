//! What each card does to the board when played.
use vstd::prelude::*;
use crate::board::types::{
    Square, valid_sq, Piece, PieceView, PieceType, Color, PieceModifier, SquareModifier, CellView,
    coord_chars, spec_is_cannon,
};
use crate::board::utils::{square_add, index_to_square, square_to_index, spec_square_add, spec_index, spec_square_of};
use crate::board::sorted::{strictly_sorted, insert_sorted};
use crate::board::{Board, BoardView, board_wf, piece_at, occupied, spec_is_deadly, paint_box, in_box};
use crate::board::apply::{MoveApplier, spec_apply_move, set_cell_piece, push_captured};
use crate::board::checks::{CheckAnalyzer, pawn_dir, spec_in_check, spec_find_king, spec_attacked};
use crate::board::moves::{MoveCalculator, spec_has_legal_moves};
use crate::cards::state::{CardStateView, ColorMap, record_last_move, spec_record_last_move, LastMoveView};
use crate::cards::types::{CardId, CardTarget, CardResult, CardResultView, plain, mark, mark_all};
use crate::text::{string_of, push_str, push_char, push_decimal, decimal};
use crate::rng::shuffle;

verus! {

pub open spec fn result_view(r: Result<CardResult, &'static str>) -> Result<CardResultView, &'static str> {
    match r {
        Ok(c) => Ok(c@),
        Err(e) => Err(e),
    }
}

/// The board with the modifier of the piece on `sq` replaced.
pub open spec fn with_piece_modifier(b: BoardView, sq: Square, m: Option<PieceModifier>) -> BoardView {
    set_cell_piece(b, spec_index(sq), Some(PieceView { piece_modifier: m, ..piece_at(b, sq)->0 }))
}

/// The board with the pieces of cells `i` and `j` exchanged.
pub open spec fn swap_cells(b: BoardView, i: int, j: int) -> BoardView {
    set_cell_piece(set_cell_piece(b, i, b.squares[j].piece), j, b.squares[i].piece)
}

pub open spec fn piece_kind_on(b: BoardView, color: Color, pt: PieceType, i: int) -> bool {
    b.squares[i].piece matches Some(p) && p.color == color && p.piece_type == pt
}

/// The first cell from `i` on holding a piece of this colour and kind.
pub open spec fn first_piece_from(b: BoardView, color: Color, pt: PieceType, i: int) -> Option<int>
    decreases 64 - i,
{
    if i >= 64 || i < 0 {
        None
    } else if piece_kind_on(b, color, pt, i) {
        Some(i)
    } else {
        first_piece_from(b, color, pt, i + 1)
    }
}

/// The piece found from cell `i` on is of the kind and colour looked for.
pub proof fn lemma_first_piece(b: BoardView, color: Color, pt: PieceType, i: int)
    requires
        0 <= i <= 64,
    ensures
        first_piece_from(b, color, pt, i) matches Some(j) ==> i <= j < 64 && piece_kind_on(b, color, pt, j),
    decreases 64 - i,
{
    if i < 64 {
        lemma_first_piece(b, color, pt, i + 1);
    }
}

fn find_piece_index(board: &Board, color: Color, piece_type: PieceType) -> (r: Option<usize>)
    requires
        board_wf(board@),
    ensures
        r is Some <==> first_piece_from(board@, color, piece_type, 0) is Some,
        r matches Some(i) ==> first_piece_from(board@, color, piece_type, 0) == Some(i as int) && i < 64
            && piece_kind_on(board@, color, piece_type, i as int),
{
    proof {
        lemma_first_piece(board@, color, piece_type, 0);
    }
    let mut idx: usize = 0;
    while idx < 64
        invariant
            idx <= 64,
            board_wf(board@),
            first_piece_from(board@, color, piece_type, 0) == first_piece_from(board@, color, piece_type, idx as int),
        decreases 64 - idx,
    {
        match board.squares[idx].as_ref() {
            Some(piece) => {
                if piece.color == color && piece.piece_type == piece_type {
                    return Some(idx);
                }
            }
            None => {}
        }
        idx = idx + 1;
    }
    None
}

impl Board {
    /// Replaces the modifier of the piece on cell `i`, if there is one.
    fn set_piece_modifier_at(&mut self, i: usize, m: Option<PieceModifier>)
        requires
            board_wf(old(self)@),
            i < 64,
            old(self)@.squares[i as int].piece is Some,
        ensures
            final(self)@ == set_cell_piece(old(self)@, i as int, Some(PieceView { piece_modifier: m, ..old(self)@.squares[i as int].piece->0 })),
            board_wf(final(self)@),
    {
        let ghost before = self@;
        match self.squares[i].as_mut() {
            Some(piece) => {
                piece.piece_modifier = m;
            }
            None => {}
        }
        assert(self@.squares =~= set_cell_piece(before, i as int, Some(PieceView { piece_modifier: m, ..before.squares[i as int].piece->0 })).squares);
    }
}

/// A message made of a prefix, a space, and the name of a square.
fn message_with_square(prefix: &str, sq: Square) -> (r: String)
    requires
        sq.file <= 158,
    ensures
        r@ == prefix@ + " "@ + coord_chars(sq),
{
    let mut s = string_of(prefix);
    push_str(&mut s, " ");
    let c = sq.to_coord();
    push_str(&mut s, c.as_str());
    s
}

// ---------------------------------------------------------------- deadly zone

pub open spec fn spec_deadly_zone(b: BoardView, rarity: u8, target: CardTarget) -> (BoardView, Result<CardResultView, &'static str>) {
    match target {
        CardTarget::Square(sq) => if !valid_sq(sq) {
            (b, Err("err_invalid_square"))
        } else if piece_at(b, sq) matches Some(p) && p.piece_type == PieceType::Pawn {
            (b, Err("err_pawn_square"))
        } else {
            (
                BoardView {
                    squares: b.squares.update(spec_index(sq), CellView {
                        modifier: Some(SquareModifier::DeadlyZone { rarity }),
                        ..b.squares[spec_index(sq)]
                    }),
                    ..b
                },
                Ok(mark(plain("deadly_zone_placed"@), "zone"@, sq)),
            )
        },
        _ => (b, Err("err_need_target")),
    }
}

fn apply_deadly_zone(board: &mut Board, rarity: u8, target: CardTarget) -> (r: Result<CardResult, &'static str>)
    requires
        board_wf(old(board)@),
    ensures
        final(board)@ == spec_deadly_zone(old(board)@, rarity, target).0,
        result_view(r) == spec_deadly_zone(old(board)@, rarity, target).1,
        board_wf(final(board)@),
{
    let square = match target {
        CardTarget::Square(s) => s,
        _ => return Err("err_need_target"),
    };
    if square.file < 1 || square.file > 8 || square.rank < 1 || square.rank > 8 {
        return Err("err_invalid_square");
    }
    let idx = square_to_index(square);
    match board.squares[idx].as_ref() {
        Some(piece) => {
            if piece.piece_type == PieceType::Pawn {
                return Err("err_pawn_square");
            }
        }
        None => {}
    }
    board.set_cell_modifier(idx, Some(SquareModifier::DeadlyZone { rarity }));
    Ok(CardResult::new(string_of("deadly_zone_placed")).with_effect("zone", square))
}

// ---------------------------------------------------------------- time boost and fog

pub open spec fn spec_time_boost(b: BoardView, player: Color) -> BoardView {
    BoardView {
        card_state: CardStateView {
            time_multiplier: b.card_state.time_multiplier.spec_set(player.spec_other(), Some(2)),
            ..b.card_state
        },
        ..b
    }
}

fn apply_time_boost(board: &mut Board, player: Color) -> (r: Result<CardResult, &'static str>)
    ensures
        final(board)@ == spec_time_boost(old(board)@, player),
        result_view(r) == Ok::<CardResultView, &'static str>(plain("time_boost_activated"@)),
{
    let opponent = player.other();
    board.card_state.set_time_multiplier(opponent, 2);
    Ok(CardResult::new(string_of("time_boost_activated")))
}

pub open spec fn spec_fog(b: BoardView, player: Color, rarity: u8) -> BoardView {
    BoardView {
        card_state: CardStateView {
            fog_creator: Some(player),
            fog_remaining_turns: 4,
            fog_rarity: rarity,
            ..b.card_state
        },
        ..b
    }
}

fn apply_fog(board: &mut Board, player: Color, rarity: u8) -> (r: Result<CardResult, &'static str>)
    ensures
        final(board)@ == spec_fog(old(board)@, player, rarity),
        result_view(r) == Ok::<CardResultView, &'static str>(plain("fog_activated "@ + decimal(rarity as nat))),
{
    board.card_state.start_fog(player, 4, rarity);
    let mut s = string_of("fog_activated ");
    push_decimal(&mut s, rarity as u64);
    Ok(CardResult::new(s))
}

// ---------------------------------------------------------------- russian roulette

/// The cell holds a piece other than a king.
pub open spec fn non_king_on(b: BoardView, i: int) -> bool {
    b.squares[i].piece matches Some(p) && p.piece_type != PieceType::King
}

/// The roulette falls on the piece of cell `v`.
pub open spec fn spec_roulette_at(b: BoardView, v: int) -> (BoardView, Result<CardResultView, &'static str>) {
    let sq = spec_square_of(v);
    (
        push_captured(set_cell_piece(b, v, None), b.squares[v].piece->0),
        Ok(mark(plain("russian_roulette_fired "@ + coord_chars(sq)), "kill"@, sq)),
    )
}

/// What the roulette may do: refuse when only kings stand, else take some
/// piece other than a king.
pub open spec fn roulette_outcome(b: BoardView, after: BoardView, r: Result<CardResultView, &'static str>) -> bool {
    if forall|i: int| 0 <= i < 64 ==> !#[trigger] non_king_on(b, i) {
        after == b && r == Err::<CardResultView, &'static str>("err_no_eligible_piece")
    } else {
        exists|v: int| 0 <= v < 64 && #[trigger] non_king_on(b, v) && (after, r) == spec_roulette_at(b, v)
    }
}

/// The roulette takes exactly one piece, never a king: cells without a piece
/// other than a king keep what they hold, one victim leaves its cell for the
/// captured pieces, and every other cell is unchanged.
pub proof fn law_roulette_spares_kings(b: BoardView, after: BoardView, r: Result<CardResultView, &'static str>)
    requires
        board_wf(b),
        roulette_outcome(b, after, r),
    ensures
        forall|i: int| 0 <= i < 64 && !non_king_on(b, i) ==> after.squares[i] == #[trigger] b.squares[i],
        r is Ok ==> exists|v: int| 0 <= v < 64 && #[trigger] non_king_on(b, v) && after.squares[v].piece is None
            && after.captured_pieces == b.captured_pieces.push(b.squares[v].piece->0)
            && forall|i: int| 0 <= i < 64 && i != v ==> after.squares[i] == #[trigger] b.squares[i],
{
}

/// The roulette on a chosen victim: the piece of cell `victim_idx` is taken.
pub fn roulette_at(board: &mut Board, victim_idx: usize) -> (r: Result<CardResult, &'static str>)
    requires
        board_wf(old(board)@),
        victim_idx < 64,
        non_king_on(old(board)@, victim_idx as int),
    ensures
        final(board)@ == spec_roulette_at(old(board)@, victim_idx as int).0,
        result_view(r) == spec_roulette_at(old(board)@, victim_idx as int).1,
        board_wf(final(board)@),
{
    let victim_square = index_to_square(victim_idx);
    match board.take_piece(victim_idx) {
        Some(victim) => board.push_captured(victim),
        None => {}
    }
    let msg = message_with_square("russian_roulette_fired", victim_square);
    proof {
        assert("russian_roulette_fired"@ + " "@ + coord_chars(victim_square) =~= "russian_roulette_fired "@ + coord_chars(victim_square)) by {
            reveal_strlit("russian_roulette_fired");
            reveal_strlit(" ");
            reveal_strlit("russian_roulette_fired ");
        }
    }
    Ok(CardResult::new(msg).with_effect("kill", victim_square))
}

fn apply_russian_roulette(board: &mut Board) -> (r: Result<CardResult, &'static str>)
    requires
        board_wf(old(board)@),
    ensures
        roulette_outcome(old(board)@, final(board)@, result_view(r)),
        board_wf(final(board)@),
{
    broadcast use vstd::seq_lib::group_to_multiset_ensures;
    let mut candidates: Vec<usize> = Vec::new();
    let mut i: usize = 0;
    while i < 64
        invariant
            i <= 64,
            board_wf(board@),
            forall|j: int| 0 <= j < candidates@.len() ==> (#[trigger] candidates@[j]) < 64 && non_king_on(board@, candidates@[j] as int),
            forall|j: int| 0 <= j < i && #[trigger] non_king_on(board@, j) ==> candidates@.contains(j as usize),
        decreases 64 - i,
    {
        let eligible = match board.squares[i].as_ref() {
            Some(piece) => piece.piece_type != PieceType::King,
            None => false,
        };
        let ghost before = candidates@;
        if eligible {
            candidates.push(i);
        }
        assert forall|j: int| 0 <= j < i + 1 && #[trigger] non_king_on(board@, j) implies candidates@.contains(j as usize) by {
            if j == i {
                assert(candidates@.last() == j as usize);
            } else {
                assert(before.contains(j as usize));
                let k = choose|k: int| 0 <= k < before.len() && before[k] == j as usize;
                assert(candidates@[k] == j as usize);
            }
        }
        i = i + 1;
    }
    if candidates.len() == 0 {
        assert forall|j: int| 0 <= j < 64 implies !#[trigger] non_king_on(board@, j) by {
            if non_king_on(board@, j) {
                assert(candidates@.contains(j as usize));
            }
        }
        return Err("err_no_eligible_piece");
    }
    let ghost before_shuffle = candidates@;
    shuffle(&mut candidates);
    proof {
        before_shuffle.to_multiset_ensures();
        candidates@.to_multiset_ensures();
        assert(candidates@.len() > 0);
        assert(candidates@.contains(candidates@[0]));
        assert(before_shuffle.to_multiset().count(candidates@[0]) > 0);
        assert(before_shuffle.contains(candidates@[0]));
    }
    let victim_idx = candidates[0];
    let ghost b0 = board@;
    let r = roulette_at(board, victim_idx);
    assert(non_king_on(b0, victim_idx as int));
    r
}

// ---------------------------------------------------------------- swaps

pub open spec fn spec_journey(b: BoardView, player: Color) -> (BoardView, Result<CardResultView, &'static str>) {
    let own = first_piece_from(b, player, PieceType::Rook, 0);
    let enemy = first_piece_from(b, player.spec_other(), PieceType::Knight, 0);
    if own is None {
        (b, Err("err_no_rook"))
    } else if enemy is None {
        (b, Err("err_no_knight"))
    } else {
        let os = spec_square_of(own->0);
        let es = spec_square_of(enemy->0);
        (
            swap_cells(b, own->0, enemy->0),
            Ok(mark_all(plain("journey_swapped "@ + coord_chars(os) + " "@ + coord_chars(es)), "swap"@, seq![os, es])),
        )
    }
}

fn swap_pieces(board: &mut Board, i: usize, j: usize)
    requires
        board_wf(old(board)@),
        i < 64,
        j < 64,
        i != j,
    ensures
        final(board)@ == swap_cells(old(board)@, i as int, j as int),
        board_wf(final(board)@),
{
    let ghost b0 = board@;
    let a = board.take_piece(i);
    let b = board.take_piece(j);
    board.put_piece(i, b);
    board.put_piece(j, a);
    assert(board@.squares =~= swap_cells(b0, i as int, j as int).squares);
}

fn apply_journey(board: &mut Board, player: Color) -> (r: Result<CardResult, &'static str>)
    requires
        board_wf(old(board)@),
    ensures
        final(board)@ == spec_journey(old(board)@, player).0,
        result_view(r) == spec_journey(old(board)@, player).1,
        board_wf(final(board)@),
{
    let enemy = player.other();
    let own_rook_idx = find_piece_index(board, player, PieceType::Rook);
    let enemy_knight_idx = find_piece_index(board, enemy, PieceType::Knight);
    let own_rook_idx = match own_rook_idx {
        Some(i) => i,
        None => return Err("err_no_rook"),
    };
    let enemy_knight_idx = match enemy_knight_idx {
        Some(i) => i,
        None => return Err("err_no_knight"),
    };
    let own_rook_square = index_to_square(own_rook_idx);
    let enemy_knight_square = index_to_square(enemy_knight_idx);
    swap_pieces(board, own_rook_idx, enemy_knight_idx);
    let mut msg = message_with_square("journey_swapped", own_rook_square);
    push_str(&mut msg, " ");
    let c = enemy_knight_square.to_coord();
    push_str(&mut msg, c.as_str());
    proof {
        reveal_strlit("journey_swapped");
        reveal_strlit(" ");
        reveal_strlit("journey_swapped ");
        assert(msg@ =~= "journey_swapped "@ + coord_chars(own_rook_square) + " "@ + coord_chars(enemy_knight_square));
    }
    let squares = vec![own_rook_square, enemy_knight_square];
    assert(squares@ =~= seq![own_rook_square, enemy_knight_square]);
    Ok(CardResult::new(msg).with_effects("swap", squares))
}

pub open spec fn spec_swap(b: BoardView, player: Color, own_type: PieceType, other_type: PieceType, other_is_enemy: bool, message_id: Seq<char>) -> (BoardView, Result<CardResultView, &'static str>) {
    let other_color = if other_is_enemy { player.spec_other() } else { player };
    let own = first_piece_from(b, player, own_type, 0);
    let other = first_piece_from(b, other_color, other_type, 0);
    if own is None {
        (b, Err("err_no_own_piece"))
    } else if other is None {
        (b, Err("err_no_target_piece"))
    } else {
        (
            swap_cells(b, own->0, other->0),
            Ok(mark_all(
                plain(message_id + " "@ + decimal(own->0 as nat) + " "@ + decimal(other->0 as nat)),
                "swap"@,
                seq![spec_square_of(own->0), spec_square_of(other->0)],
            )),
        )
    }
}

fn apply_swap(board: &mut Board, player: Color, own_type: PieceType, other_type: PieceType, other_is_enemy: bool, message_id: &str) -> (r: Result<CardResult, &'static str>)
    requires
        board_wf(old(board)@),
        other_is_enemy || own_type != other_type,
    ensures
        final(board)@ == spec_swap(old(board)@, player, own_type, other_type, other_is_enemy, message_id@).0,
        result_view(r) == spec_swap(old(board)@, player, own_type, other_type, other_is_enemy, message_id@).1,
        board_wf(final(board)@),
{
    let other_color = if other_is_enemy { player.other() } else { player };
    let own_idx = match find_piece_index(board, player, own_type) {
        Some(i) => i,
        None => return Err("err_no_own_piece"),
    };
    let other_idx = match find_piece_index(board, other_color, other_type) {
        Some(i) => i,
        None => return Err("err_no_target_piece"),
    };
    swap_pieces(board, own_idx, other_idx);
    let own_square = index_to_square(own_idx);
    let other_square = index_to_square(other_idx);
    let mut msg = string_of(message_id);
    push_str(&mut msg, " ");
    push_decimal(&mut msg, own_idx as u64);
    push_str(&mut msg, " ");
    push_decimal(&mut msg, other_idx as u64);
    assert(msg@ =~= message_id@ + " "@ + decimal(own_idx as nat) + " "@ + decimal(other_idx as nat));
    let squares = vec![own_square, other_square];
    assert(squares@ =~= seq![own_square, other_square]);
    Ok(CardResult::new(msg).with_effects("swap", squares))
}

// ---------------------------------------------------------------- piece upgrades

/// The target square, checked to hold a piece of the player.
pub open spec fn own_target(b: BoardView, player: Color, target: CardTarget) -> Result<(Square, PieceView), &'static str> {
    match target {
        CardTarget::Square(sq) => match piece_at(b, sq) {
            None => Err("err_no_piece_on_square"),
            Some(p) => if p.color != player { Err("err_not_your_piece") } else { Ok((sq, p)) },
        },
        _ => Err("err_need_target"),
    }
}

pub open spec fn target_ok(target: CardTarget) -> bool {
    target matches CardTarget::Square(s) ==> valid_sq(s)
}

pub open spec fn spec_cannon(b: BoardView, player: Color, rarity: u8, target: CardTarget) -> (BoardView, Result<CardResultView, &'static str>) {
    match own_target(b, player, target) {
        Err(e) => (b, Err(e)),
        Ok((sq, p)) => if p.piece_type != PieceType::Rook {
            (b, Err("err_canon_requires_rook"))
        } else if spec_is_cannon(p) {
            (b, Err("err_already_cannon"))
        } else {
            (
                with_piece_modifier(b, sq, Some(PieceModifier::Cannon { rarity: Some(rarity) })),
                Ok(mark(plain("cannon_activated"@), "upgrade"@, sq)),
            )
        },
    }
}

fn apply_cannon(board: &mut Board, player: Color, rarity: u8, target: CardTarget) -> (r: Result<CardResult, &'static str>)
    requires
        board_wf(old(board)@),
        target_ok(target),
    ensures
        final(board)@ == spec_cannon(old(board)@, player, rarity, target).0,
        result_view(r) == spec_cannon(old(board)@, player, rarity, target).1,
        board_wf(final(board)@),
{
    let square = match target {
        CardTarget::Square(s) => s,
        _ => return Err("err_need_target"),
    };
    let idx = square_to_index(square);
    let (color, piece_type, cannon) = match board.squares[idx].as_ref() {
        Some(p) => (p.color, p.piece_type, p.is_cannon()),
        None => return Err("err_no_piece_on_square"),
    };
    if color != player {
        return Err("err_not_your_piece");
    }
    if piece_type != PieceType::Rook {
        return Err("err_canon_requires_rook");
    }
    if cannon {
        return Err("err_already_cannon");
    }
    board.set_piece_modifier_at(idx, Some(PieceModifier::Cannon { rarity: Some(rarity) }));
    Ok(CardResult::new(string_of("cannon_activated")).with_effect("upgrade", square))
}

/// Every bishop of `player` becomes a sniper.
pub open spec fn snipers_marked(cells: Seq<CellView>, player: Color, rarity: u8) -> Seq<CellView> {
    Seq::new(
        cells.len(),
        |i: int| match cells[i].piece {
            Some(p) => if p.color == player && p.piece_type == PieceType::Bishop {
                CellView { piece: Some(PieceView { piece_modifier: Some(PieceModifier::Sniper { rarity: Some(rarity) }), ..p }), ..cells[i] }
            } else {
                cells[i]
            },
            None => cells[i],
        },
    )
}

pub open spec fn spec_sniper(b: BoardView, player: Color, rarity: u8) -> BoardView {
    BoardView {
        squares: snipers_marked(b.squares, player, rarity),
        card_state: CardStateView {
            sniper_remaining: b.card_state.sniper_remaining.spec_set(player, Some(3)),
            ..b.card_state
        },
        ..b
    }
}

fn apply_sniper(board: &mut Board, player: Color, rarity: u8) -> (r: Result<CardResult, &'static str>)
    requires
        board_wf(old(board)@),
    ensures
        final(board)@ == spec_sniper(old(board)@, player, rarity),
        result_view(r) == Ok::<CardResultView, &'static str>(plain("sniper_activated"@)),
        board_wf(final(board)@),
{
    let ghost before = board@;
    let mut i: usize = 0;
    while i < 64
        invariant
            i <= 64,
            board_wf(before),
            board_wf(board@),
            forall|j: int| 0 <= j < i ==> board@.squares[j] == snipers_marked(before.squares, player, rarity)[j],
            forall|j: int| i <= j < 64 ==> board@.squares[j] == before.squares[j],
            board@.captured_pieces == before.captured_pieces,
            board@.en_passant_target == before.en_passant_target,
            board@.castling_rights == before.castling_rights,
            board@.card_state == before.card_state,
        decreases 64 - i,
    {
        let hit = match board.squares[i].as_ref() {
            Some(piece) => piece.color == player && piece.piece_type == PieceType::Bishop,
            None => false,
        };
        if hit {
            board.set_piece_modifier_at(i, Some(PieceModifier::Sniper { rarity: Some(rarity) }));
        }
        assert(board@.squares[i as int] == snipers_marked(before.squares, player, rarity)[i as int]);
        i = i + 1;
    }
    assert(board@.squares =~= snipers_marked(before.squares, player, rarity));
    board.card_state.set_sniper(player, 3);
    Ok(CardResult::new(string_of("sniper_activated")))
}

pub open spec fn veteran_modifier(pt: PieceType, rarity: u8) -> Option<PieceModifier> {
    match pt {
        PieceType::Knight => Some(PieceModifier::VeteranKnight { rarity: Some(rarity) }),
        PieceType::Rook => Some(PieceModifier::VeteranRook { rarity: Some(rarity) }),
        PieceType::Bishop => Some(PieceModifier::VeteranBishop { rarity: Some(rarity) }),
        _ => None,
    }
}

pub open spec fn spec_veteran(b: BoardView, player: Color, target: CardTarget, piece_type: PieceType, rarity: u8, message_id: Seq<char>) -> (BoardView, Result<CardResultView, &'static str>) {
    match own_target(b, player, target) {
        Err(e) => (b, Err(e)),
        Ok((sq, p)) => if p.piece_type != piece_type {
            (b, Err("err_veteran_wrong_piece"))
        } else if p.has_moved {
            (b, Err("err_veteran_piece_moved"))
        } else if veteran_modifier(piece_type, rarity) is None {
            (b, Err("err_veteran_wrong_piece"))
        } else {
            (
                with_piece_modifier(b, sq, veteran_modifier(piece_type, rarity)),
                Ok(mark(plain(message_id), "upgrade"@, sq)),
            )
        },
    }
}

fn apply_veteran(board: &mut Board, player: Color, target: CardTarget, piece_type: PieceType, rarity: u8, message_id: &str) -> (r: Result<CardResult, &'static str>)
    requires
        board_wf(old(board)@),
        target_ok(target),
    ensures
        final(board)@ == spec_veteran(old(board)@, player, target, piece_type, rarity, message_id@).0,
        result_view(r) == spec_veteran(old(board)@, player, target, piece_type, rarity, message_id@).1,
        board_wf(final(board)@),
{
    let square = match target {
        CardTarget::Square(s) => s,
        _ => return Err("err_need_target"),
    };
    let idx = square_to_index(square);
    let (color, pt, has_moved) = match board.squares[idx].as_ref() {
        Some(p) => (p.color, p.piece_type, p.has_moved),
        None => return Err("err_no_piece_on_square"),
    };
    if color != player {
        return Err("err_not_your_piece");
    }
    if pt != piece_type {
        return Err("err_veteran_wrong_piece");
    }
    if has_moved {
        return Err("err_veteran_piece_moved");
    }
    let modifier = match piece_type {
        PieceType::Knight => PieceModifier::VeteranKnight { rarity: Some(rarity) },
        PieceType::Rook => PieceModifier::VeteranRook { rarity: Some(rarity) },
        PieceType::Bishop => PieceModifier::VeteranBishop { rarity: Some(rarity) },
        _ => return Err("err_veteran_wrong_piece"),
    };
    board.set_piece_modifier_at(idx, Some(modifier));
    Ok(CardResult::new(string_of(message_id)).with_effect("upgrade", square))
}

pub open spec fn spec_ninja(b: BoardView, player: Color, target: CardTarget, rarity: u8) -> (BoardView, Result<CardResultView, &'static str>) {
    match own_target(b, player, target) {
        Err(e) => (b, Err(e)),
        Ok((sq, p)) => if p.piece_type == PieceType::King {
            (b, Err("err_ninja_king"))
        } else {
            let b1 = with_piece_modifier(b, sq, Some(PieceModifier::Ninja { rarity: Some(rarity) }));
            (
                BoardView { card_state: CardStateView { ninja: Some((sq, player)), ..b1.card_state }, ..b1 },
                Ok(mark(plain("ninja_activated"@), "ninja"@, sq)),
            )
        },
    }
}

fn apply_ninja(board: &mut Board, player: Color, target: CardTarget, rarity: u8) -> (r: Result<CardResult, &'static str>)
    requires
        board_wf(old(board)@),
        target_ok(target),
    ensures
        final(board)@ == spec_ninja(old(board)@, player, target, rarity).0,
        result_view(r) == spec_ninja(old(board)@, player, target, rarity).1,
        board_wf(final(board)@),
{
    let square = match target {
        CardTarget::Square(s) => s,
        _ => return Err("err_need_target"),
    };
    let idx = square_to_index(square);
    let (color, pt) = match board.squares[idx].as_ref() {
        Some(p) => (p.color, p.piece_type),
        None => return Err("err_no_piece_on_square"),
    };
    if color != player {
        return Err("err_not_your_piece");
    }
    if pt == PieceType::King {
        return Err("err_ninja_king");
    }
    board.set_piece_modifier_at(idx, Some(PieceModifier::Ninja { rarity: Some(rarity) }));
    board.card_state.ninja = Some((square, player));
    Ok(CardResult::new(string_of("ninja_activated")).with_effect("ninja", square))
}

fn apply_traitor(board: &mut Board, player: Color) -> (r: Result<CardResult, &'static str>)
    ensures
        final(board)@ == (BoardView { card_state: CardStateView { traitor: Some(player), ..old(board)@.card_state }, ..old(board)@ }),
        result_view(r) == Ok::<CardResultView, &'static str>(plain("traitor_activated"@)),
{
    board.card_state.traitor = Some(player);
    Ok(CardResult::new(string_of("traitor_activated")))
}

// ---------------------------------------------------------------- push back, battlefield, annihilation

pub open spec fn spec_push_back(b: BoardView, player: Color) -> (BoardView, Result<CardResultView, &'static str>) {
    match b.card_state.last_move {
        None => (b, Err("err_no_last_move")),
        Some(last) => match last.captured {
            None => (b, Err("err_no_piece_captured")),
            Some(captured) => if captured.color != player {
                (b, Err("err_no_piece_captured"))
            } else {
                let pile = b.captured_pieces;
                let restored = if pile.len() > 0 { pile.last() } else { captured };
                let b1 = BoardView { captured_pieces: if pile.len() > 0 { pile.drop_last() } else { pile }, ..b };
                let b2 = set_cell_piece(b1, spec_index(last.to), Some(restored));
                let b3 = set_cell_piece(b2, spec_index(last.from), Some(last.moved));
                (
                    BoardView { card_state: CardStateView { last_move: None, ..b3.card_state }, ..b3 },
                    Ok(mark(mark(plain("push_back_undone"@), "undo_from"@, last.from), "undo_to"@, last.to)),
                )
            },
        },
    }
}

fn apply_push_back(board: &mut Board, player: Color) -> (r: Result<CardResult, &'static str>)
    requires
        board_wf(old(board)@),
    ensures
        final(board)@ == spec_push_back(old(board)@, player).0,
        result_view(r) == spec_push_back(old(board)@, player).1,
        board_wf(final(board)@),
{
    let last = match &board.card_state.last_move {
        Some(m) => m.duplicate(),
        None => return Err("err_no_last_move"),
    };
    let captured = match &last.captured {
        Some(c) => c.duplicate(),
        None => return Err("err_no_piece_captured"),
    };
    if captured.color != player {
        return Err("err_no_piece_captured");
    }
    let from_idx = square_to_index(last.from);
    let to_idx = square_to_index(last.to);
    let ghost b0 = board@;
    let popped = board.captured_pieces.pop();
    assert(board@.captured_pieces =~= (if b0.captured_pieces.len() > 0 { b0.captured_pieces.drop_last() } else { b0.captured_pieces }));
    let restored = match popped {
        Some(p) => p,
        None => captured,
    };
    board.put_piece(to_idx, Some(restored));
    board.put_piece(from_idx, Some(last.moved.duplicate()));
    board.card_state.clear_last_move();
    Ok(CardResult::new(string_of("push_back_undone"))
        .with_effect("undo_from", last.from)
        .with_effect("undo_to", last.to))
}

/// The squares around `c` on the board, in (file, rank) order.
pub open spec fn box_squares(c: Square) -> Seq<Square> {
    choose|s: Seq<Square>| strictly_sorted(s) && forall|q: Square| s.contains(q) <==> in_box(c, q)
}

pub open spec fn spec_battlefield(b: BoardView, player: Color, rarity: u8, target: CardTarget) -> (BoardView, Result<CardResultView, &'static str>) {
    match own_target(b, player, target) {
        Err(e) => (b, Err(e)),
        Ok((sq, p)) => if p.piece_type == PieceType::King {
            (b, Err("err_cannot_battlefield_king"))
        } else {
            (
                BoardView {
                    squares: paint_box(b.squares, sq, rarity),
                    card_state: CardStateView { battlefield: Some((sq, rarity)), ..b.card_state },
                    ..b
                },
                Ok(mark_all(plain("battlefield_activated"@), "battlefield"@, box_squares(sq))),
            )
        },
    }
}

/// The on-board squares around a valid `c`, sorted.
fn box_markers(c: Square) -> (r: Vec<Square>)
    requires
        valid_sq(c),
    ensures
        r@ == box_squares(c),
        forall|i: int| 0 <= i < r@.len() ==> valid_sq(#[trigger] r@[i]),
{
    let mut markers: Vec<Square> = Vec::new();
    let mut df: i8 = -1;
    while df <= 1
        invariant
            -1 <= df <= 2,
            valid_sq(c),
            strictly_sorted(markers@),
            forall|q: Square| #[trigger] markers@.contains(q) == (in_box(c, q) && q.file < c.file + df),
        decreases 2 - df,
    {
        let mut dr: i8 = -1;
        while dr <= 1
            invariant
                -1 <= df <= 1,
                -1 <= dr <= 2,
                valid_sq(c),
                strictly_sorted(markers@),
                forall|q: Square| #[trigger] markers@.contains(q) == (in_box(c, q) && (q.file < c.file + df
                    || (q.file == c.file + df && q.rank < c.rank + dr))),
            decreases 2 - dr,
        {
            match square_add(c, df, dr) {
                Some(q) => insert_sorted(&mut markers, q),
                None => {}
            }
            dr = dr + 1;
        }
        df = df + 1;
    }
    proof {
        let s = box_squares(c);
        assert(strictly_sorted(markers@) && forall|q: Square| markers@.contains(q) <==> in_box(c, q));
        assert(strictly_sorted(s) && forall|q: Square| s.contains(q) <==> in_box(c, q));
        crate::board::sorted::lemma_sorted_unique(markers@, s);
        assert forall|i: int| 0 <= i < markers@.len() implies valid_sq(#[trigger] markers@[i]) by {
            assert(markers@.contains(markers@[i]));
        }
    }
    markers
}

fn apply_battlefield(board: &mut Board, player: Color, rarity: u8, target: CardTarget) -> (r: Result<CardResult, &'static str>)
    requires
        board_wf(old(board)@),
        target_ok(target),
    ensures
        final(board)@ == spec_battlefield(old(board)@, player, rarity, target).0,
        result_view(r) == spec_battlefield(old(board)@, player, rarity, target).1,
        board_wf(final(board)@),
{
    let square = match target {
        CardTarget::Square(s) => s,
        _ => return Err("err_need_target"),
    };
    let idx = square_to_index(square);
    let (color, pt) = match board.squares[idx].as_ref() {
        Some(p) => (p.color, p.piece_type),
        None => return Err("err_no_piece_on_square"),
    };
    if color != player {
        return Err("err_not_your_piece");
    }
    if pt == PieceType::King {
        return Err("err_cannot_battlefield_king");
    }
    board.card_state.battlefield = Some((square, rarity));
    board.paint_box_cells(square, rarity);
    let markers = box_markers(square);
    Ok(CardResult::new(string_of("battlefield_activated")).with_effects("battlefield", markers))
}

pub open spec fn spec_annihilation(b: BoardView, target: CardTarget) -> (BoardView, Result<CardResultView, &'static str>) {
    match target {
        CardTarget::Square(sq) => match piece_at(b, sq) {
            None => (b, Err("err_no_piece_on_square")),
            Some(p) => if p.piece_type != PieceType::Pawn {
                (b, Err("err_anihilation_requires_pawn"))
            } else {
                (push_captured(set_cell_piece(b, spec_index(sq), None), p), Ok(mark(plain("annihilation_done"@), "kill"@, sq)))
            },
        },
        _ => (b, Err("err_need_target")),
    }
}

fn apply_annihilation(board: &mut Board, _player: Color, target: CardTarget) -> (r: Result<CardResult, &'static str>)
    requires
        board_wf(old(board)@),
        target_ok(target),
    ensures
        final(board)@ == spec_annihilation(old(board)@, target).0,
        result_view(r) == spec_annihilation(old(board)@, target).1,
        board_wf(final(board)@),
{
    let square = match target {
        CardTarget::Square(s) => s,
        _ => return Err("err_need_target"),
    };
    let idx = square_to_index(square);
    let pt = match board.squares[idx].as_ref() {
        Some(p) => p.piece_type,
        None => return Err("err_no_piece_on_square"),
    };
    if pt != PieceType::Pawn {
        return Err("err_anihilation_requires_pawn");
    }
    match board.take_piece(idx) {
        Some(pawn) => board.push_captured(pawn),
        None => {}
    }
    Ok(CardResult::new(string_of("annihilation_done")).with_effect("kill", square))
}

// ---------------------------------------------------------------- pawn leaps and the king's rescue

pub open spec fn spec_frog(b: BoardView, player: Color, target: CardTarget) -> (BoardView, Result<CardResultView, &'static str>) {
    match own_target(b, player, target) {
        Err(e) => (b, Err(e)),
        Ok((from, p)) => if p.piece_type != PieceType::Pawn {
            (b, Err("err_frog_requires_pawn"))
        } else {
            let one = spec_square_add(from, 0, pawn_dir(player));
            let dest = spec_square_add(from, 0, 2 * pawn_dir(player));
            if one is None || !occupied(b, one->0) {
                (b, Err("err_frog_no_move"))
            } else if dest is None || occupied(b, dest->0) || spec_is_deadly(b, dest->0) {
                (b, Err("err_frog_no_move"))
            } else {
                let (sim, sres) = spec_apply_move(b, from, dest->0, None);
                if sres is Err || spec_in_check(sim, player) {
                    (b, Err("err_frog_no_move"))
                } else {
                    let (after, res) = spec_apply_move(spec_record_last_move(b, from, dest->0), from, dest->0, None);
                    (after, if res is Err { Err("err_frog_no_move") } else { Ok(mark(plain("frog_moved"@), "frog_move"@, dest->0)) })
                }
            }
        },
    }
}

fn apply_frog(board: &mut Board, player: Color, target: CardTarget) -> (r: Result<CardResult, &'static str>)
    requires
        board_wf(old(board)@),
        target_ok(target),
    ensures
        final(board)@ == spec_frog(old(board)@, player, target).0,
        result_view(r) == spec_frog(old(board)@, player, target).1,
        board_wf(final(board)@),
{
    let from = match target {
        CardTarget::Square(s) => s,
        _ => return Err("err_need_target"),
    };
    let from_idx = square_to_index(from);
    let (color, pt) = match board.squares[from_idx].as_ref() {
        Some(p) => (p.color, p.piece_type),
        None => return Err("err_no_piece_on_square"),
    };
    if color != player {
        return Err("err_not_your_piece");
    }
    if pt != PieceType::Pawn {
        return Err("err_frog_requires_pawn");
    }
    let direction: i8 = if player == Color::White { 1 } else { -1 };
    let one_forward = match square_add(from, 0, direction) {
        Some(q) => q,
        None => return Err("err_frog_no_move"),
    };
    if board.squares[square_to_index(one_forward)].is_none() {
        return Err("err_frog_no_move");
    }
    let dest = match square_add(from, 0, 2 * direction) {
        Some(q) => q,
        None => return Err("err_frog_no_move"),
    };
    if board.squares[square_to_index(dest)].is_some() || board.is_deadly_zone(dest) {
        return Err("err_frog_no_move");
    }
    let mut sim = board.duplicate();
    match sim.apply_move(from, dest, None) {
        Ok(()) => {}
        Err(_) => return Err("err_frog_no_move"),
    }
    if sim.is_in_check(player) {
        return Err("err_frog_no_move");
    }
    record_last_move(board, from, dest);
    match board.apply_move(from, dest, None) {
        Ok(()) => {}
        Err(_) => return Err("err_frog_no_move"),
    }
    Ok(CardResult::new(string_of("frog_moved")).with_effect("frog_move", dest))
}

/// The `k`-th square ahead of a pawn of `c` on `from` is on the board, empty and no deadly zone.
pub open spec fn free_ahead(b: BoardView, from: Square, c: Color, k: int) -> bool {
    spec_square_add(from, 0, k * pawn_dir(c)) matches Some(q) && !occupied(b, q) && !spec_is_deadly(b, q)
}

/// Where the breakthrough pawn lands: as far as three squares ahead over free squares.
pub open spec fn breakthrough_dest(b: BoardView, from: Square, c: Color) -> Option<Square> {
    if free_ahead(b, from, c, 1) && free_ahead(b, from, c, 2) && free_ahead(b, from, c, 3) {
        spec_square_add(from, 0, 3 * pawn_dir(c))
    } else if free_ahead(b, from, c, 1) && free_ahead(b, from, c, 2) {
        spec_square_add(from, 0, 2 * pawn_dir(c))
    } else if free_ahead(b, from, c, 1) {
        spec_square_add(from, 0, pawn_dir(c))
    } else {
        None
    }
}

pub open spec fn spec_breakthrough(b: BoardView, player: Color, target: CardTarget) -> (BoardView, Result<CardResultView, &'static str>) {
    match own_target(b, player, target) {
        Err(e) => (b, Err(e)),
        Ok((from, p)) => if p.piece_type != PieceType::Pawn {
            (b, Err("err_percee_requires_pawn"))
        } else {
            match breakthrough_dest(b, from, player) {
                None => (b, Err("err_percee_no_move")),
                Some(dest) => {
                    let promotion = if dest.rank == (if player == Color::White { 8u8 } else { 1u8 }) {
                        Some(PieceType::Queen)
                    } else {
                        None
                    };
                    let (sim, sres) = spec_apply_move(b, from, dest, promotion);
                    if sres is Err || spec_in_check(sim, player) {
                        (b, Err("err_percee_no_move"))
                    } else {
                        let (after, res) = spec_apply_move(spec_record_last_move(b, from, dest), from, dest, promotion);
                        (after, if res is Err { Err("err_percee_no_move") } else {
                            Ok(mark(plain("breakthrough_moved"@), "breakthrough_move"@, dest))
                        })
                    }
                },
            }
        },
    }
}

fn free_ahead_exec(board: &Board, from: Square, direction: i8, k: i8) -> (r: Option<Square>)
    requires
        board_wf(board@),
        valid_sq(from),
        direction == 1 || direction == -1,
        1 <= k <= 3,
    ensures
        r is Some <==> (spec_square_add(from, 0, k * direction) matches Some(q) && !occupied(board@, q) && !spec_is_deadly(board@, q)),
        r is Some ==> r == spec_square_add(from, 0, k * direction) && valid_sq(r->0),
{
    match square_add(from, 0, k * direction) {
        Some(sq) => {
            if board.squares[square_to_index(sq)].is_some() || board.is_deadly_zone(sq) {
                None
            } else {
                Some(sq)
            }
        }
        None => None,
    }
}

fn apply_breakthrough(board: &mut Board, player: Color, target: CardTarget) -> (r: Result<CardResult, &'static str>)
    requires
        board_wf(old(board)@),
        target_ok(target),
    ensures
        final(board)@ == spec_breakthrough(old(board)@, player, target).0,
        result_view(r) == spec_breakthrough(old(board)@, player, target).1,
        board_wf(final(board)@),
{
    let from = match target {
        CardTarget::Square(s) => s,
        _ => return Err("err_need_target"),
    };
    let from_idx = square_to_index(from);
    let (color, pt) = match board.squares[from_idx].as_ref() {
        Some(p) => (p.color, p.piece_type),
        None => return Err("err_no_piece_on_square"),
    };
    if color != player {
        return Err("err_not_your_piece");
    }
    if pt != PieceType::Pawn {
        return Err("err_percee_requires_pawn");
    }
    let direction: i8 = if player == Color::White { 1 } else { -1 };
    let promotion_rank: u8 = if player == Color::White { 8 } else { 1 };
    assert(pawn_dir(player) == direction);
    let f1 = free_ahead_exec(board, from, direction, 1);
    let f2 = free_ahead_exec(board, from, direction, 2);
    let f3 = free_ahead_exec(board, from, direction, 3);
    let dest = if f1.is_some() && f2.is_some() && f3.is_some() {
        f3
    } else if f1.is_some() && f2.is_some() {
        f2
    } else if f1.is_some() {
        f1
    } else {
        None
    };
    assert(dest == breakthrough_dest(board@, from, player));
    let dest = match dest {
        Some(d) => d,
        None => return Err("err_percee_no_move"),
    };
    let promotion = if dest.rank == promotion_rank { Some(PieceType::Queen) } else { None };
    let mut sim = board.duplicate();
    match sim.apply_move(from, dest, promotion) {
        Ok(()) => {}
        Err(_) => return Err("err_percee_no_move"),
    }
    if sim.is_in_check(player) {
        return Err("err_percee_no_move");
    }
    record_last_move(board, from, dest);
    match board.apply_move(from, dest, promotion) {
        Ok(()) => {}
        Err(_) => return Err("err_percee_no_move"),
    }
    Ok(CardResult::new(string_of("breakthrough_moved")).with_effect("breakthrough_move", dest))
}

/// The rescue gets as far as reading its target square.
pub open spec fn rescue_reaches_target(b: BoardView, player: Color) -> bool {
    spec_find_king(b, player) is Some && !(spec_in_check(b, player) && !spec_has_legal_moves(b, player))
}

pub open spec fn spec_desperate_rescue(b: BoardView, player: Color, target: CardTarget) -> (BoardView, Result<CardResultView, &'static str>) {
    match spec_find_king(b, player) {
        None => (b, Err("err_no_king")),
        Some(k) => if spec_in_check(b, player) && !spec_has_legal_moves(b, player) {
            (b, Err("err_sauvetage_checkmate"))
        } else {
            match target {
                CardTarget::Square(sq) => if occupied(b, sq) {
                    (b, Err("err_sauvetage_not_free"))
                } else if spec_attacked(b, sq, player.spec_other()) {
                    (b, Err("err_sauvetage_attacked"))
                } else {
                    (
                        set_cell_piece(set_cell_piece(b, spec_index(k), None), spec_index(sq), piece_at(b, k)),
                        Ok(mark(mark(plain("desperate_rescue_done"@), "move_from"@, k), "move_to"@, sq)),
                    )
                },
                _ => (b, Err("err_need_target")),
            }
        },
    }
}

fn apply_desperate_rescue(board: &mut Board, player: Color, target: CardTarget) -> (r: Result<CardResult, &'static str>)
    requires
        board_wf(old(board)@),
        rescue_reaches_target(old(board)@, player) ==> target_ok(target),
    ensures
        final(board)@ == spec_desperate_rescue(old(board)@, player, target).0,
        result_view(r) == spec_desperate_rescue(old(board)@, player, target).1,
        board_wf(final(board)@),
{
    let king_square = match board.find_king(player) {
        Some(k) => k,
        None => return Err("err_no_king"),
    };
    if board.is_in_check(player) && board.is_checkmate(player) {
        return Err("err_sauvetage_checkmate");
    }
    let square = match target {
        CardTarget::Square(s) => s,
        _ => return Err("err_need_target"),
    };
    let idx = square_to_index(square);
    if board.squares[idx].is_some() {
        return Err("err_sauvetage_not_free");
    }
    if board.is_square_attacked(square, player.other()) {
        return Err("err_sauvetage_attacked");
    }
    let king = board.take_piece(square_to_index(king_square));
    board.put_piece(idx, king);
    Ok(CardResult::new(string_of("desperate_rescue_done"))
        .with_effect("move_from", king_square)
        .with_effect("move_to", square))
}

// ---------------------------------------------------------------- dispatch

/// Whether playing `card` gets as far as reading the square of its target.
pub open spec fn effect_reads_target(b: BoardView, card: CardId, player: Color) -> bool {
    match card {
        CardId::Cannon | CardId::Battlefield | CardId::Annihilation | CardId::VeteranKnight
        | CardId::VeteranRook | CardId::VeteranBishop | CardId::Frog | CardId::Ninja
        | CardId::Breakthrough => true,
        CardId::DesperateRescue => rescue_reaches_target(b, player),
        _ => false,
    }
}

/// What playing `card` does, for every card whose outcome does not rest on chance
/// (all but the russian roulette, whose outcomes `roulette_outcome` describes).
pub open spec fn spec_card_effect(b: BoardView, card: CardId, rarity: u8, player: Color, target: CardTarget) -> (BoardView, Result<CardResultView, &'static str>) {
    match card {
        CardId::DeadlyZone => spec_deadly_zone(b, rarity, target),
        CardId::TimeBoost => (spec_time_boost(b, player), Ok(plain("time_boost_activated"@))),
        CardId::RussianRoulette => (b, Err("err_no_eligible_piece")),
        CardId::Journey => spec_journey(b, player),
        CardId::Fog => (spec_fog(b, player, rarity), Ok(plain("fog_activated "@ + decimal(rarity as nat)))),
        CardId::CrazyKnight => spec_swap(b, player, PieceType::Knight, PieceType::Bishop, false, "swap_knight_bishop"@),
        CardId::BeastWork => spec_swap(b, player, PieceType::Knight, PieceType::Rook, false, "swap_knight_rook"@),
        CardId::FuriousMason => spec_swap(b, player, PieceType::Bishop, PieceType::Rook, false, "swap_bishop_rook"@),
        CardId::CatchTheKnightThief => spec_swap(b, player, PieceType::Knight, PieceType::Bishop, true, "swap_knight_enemy_bishop"@),
        CardId::BeastOfBurden => spec_swap(b, player, PieceType::Knight, PieceType::Rook, true, "swap_knight_enemy_rook"@),
        CardId::Bestification => spec_swap(b, player, PieceType::Bishop, PieceType::Knight, true, "swap_bishop_enemy_knight"@),
        CardId::HermitArchitect => spec_swap(b, player, PieceType::Bishop, PieceType::Rook, true, "swap_bishop_enemy_rook"@),
        CardId::Pyromaniac => spec_swap(b, player, PieceType::Rook, PieceType::Bishop, true, "swap_rook_enemy_bishop"@),
        CardId::Cannon => spec_cannon(b, player, rarity, target),
        CardId::Sniper => (spec_sniper(b, player, rarity), Ok(plain("sniper_activated"@))),
        CardId::Trash => (b, Ok(plain("trash_played"@))),
        CardId::PushBack => spec_push_back(b, player),
        CardId::Battlefield => spec_battlefield(b, player, rarity, target),
        CardId::Garbage => (b, Ok(plain("card_no_effect"@))),
        CardId::Annihilation => spec_annihilation(b, target),
        CardId::VeteranKnight => spec_veteran(b, player, target, PieceType::Knight, rarity, "veteran_knight"@),
        CardId::VeteranRook => spec_veteran(b, player, target, PieceType::Rook, rarity, "veteran_rook"@),
        CardId::VeteranBishop => spec_veteran(b, player, target, PieceType::Bishop, rarity, "veteran_bishop"@),
        CardId::Frog => spec_frog(b, player, target),
        CardId::WheelOfFortune => (b, Ok(plain("wheel_of_fortune"@))),
        CardId::Ninja => spec_ninja(b, player, target, rarity),
        CardId::Traitor => (
            BoardView { card_state: CardStateView { traitor: Some(player), ..b.card_state }, ..b },
            Ok(plain("traitor_activated"@)),
        ),
        CardId::Breakthrough => spec_breakthrough(b, player, target),
        CardId::DesperateRescue => spec_desperate_rescue(b, player, target),
    }
}

pub trait CardEffectApplier {
    /// The board is well formed and, where the card reads the target square, that
    /// square lies on the board.
    spec fn effect_ok(&self, card: CardId, player: Color, target: CardTarget) -> bool;

    fn apply_card_effect(&mut self, card: CardId, rarity: u8, player: Color, target: CardTarget) -> Result<CardResult, &'static str>
        requires
            old(self).effect_ok(card, player, target),
    ;
}

impl CardEffectApplier for Board {
    open spec fn effect_ok(&self, card: CardId, player: Color, target: CardTarget) -> bool {
        &&& board_wf(self@)
        &&& effect_reads_target(self@, card, player) ==> target_ok(target)
    }

    #[verifier::rlimit(80)]
    #[verifier::spinoff_prover]
    fn apply_card_effect(&mut self, card: CardId, rarity: u8, player: Color, target: CardTarget) -> (r: Result<CardResult, &'static str>)
        ensures
            card == CardId::RussianRoulette ==> roulette_outcome(old(self)@, final(self)@, result_view(r)),
            card != CardId::RussianRoulette ==> (final(self)@, result_view(r)) == spec_card_effect(old(self)@, card, rarity, player, target),
            board_wf(final(self)@),
    {
        match card {
            CardId::DeadlyZone => apply_deadly_zone(self, rarity, target),
            CardId::TimeBoost => apply_time_boost(self, player),
            CardId::RussianRoulette => apply_russian_roulette(self),
            CardId::Journey => apply_journey(self, player),
            CardId::Fog => apply_fog(self, player, rarity),
            CardId::CrazyKnight => apply_swap(self, player, PieceType::Knight, PieceType::Bishop, false, "swap_knight_bishop"),
            CardId::BeastWork => apply_swap(self, player, PieceType::Knight, PieceType::Rook, false, "swap_knight_rook"),
            CardId::FuriousMason => apply_swap(self, player, PieceType::Bishop, PieceType::Rook, false, "swap_bishop_rook"),
            CardId::CatchTheKnightThief => apply_swap(self, player, PieceType::Knight, PieceType::Bishop, true, "swap_knight_enemy_bishop"),
            CardId::BeastOfBurden => apply_swap(self, player, PieceType::Knight, PieceType::Rook, true, "swap_knight_enemy_rook"),
            CardId::Bestification => apply_swap(self, player, PieceType::Bishop, PieceType::Knight, true, "swap_bishop_enemy_knight"),
            CardId::HermitArchitect => apply_swap(self, player, PieceType::Bishop, PieceType::Rook, true, "swap_bishop_enemy_rook"),
            CardId::Pyromaniac => apply_swap(self, player, PieceType::Rook, PieceType::Bishop, true, "swap_rook_enemy_bishop"),
            CardId::Cannon => apply_cannon(self, player, rarity, target),
            CardId::Sniper => apply_sniper(self, player, rarity),
            CardId::Trash => Ok(CardResult::new(string_of("trash_played"))),
            CardId::PushBack => apply_push_back(self, player),
            CardId::Battlefield => apply_battlefield(self, player, rarity, target),
            CardId::Garbage => Ok(CardResult::new(string_of("card_no_effect"))),
            CardId::Annihilation => apply_annihilation(self, player, target),
            CardId::VeteranKnight => apply_veteran(self, player, target, PieceType::Knight, rarity, "veteran_knight"),
            CardId::VeteranRook => apply_veteran(self, player, target, PieceType::Rook, rarity, "veteran_rook"),
            CardId::VeteranBishop => apply_veteran(self, player, target, PieceType::Bishop, rarity, "veteran_bishop"),
            CardId::Frog => apply_frog(self, player, target),
            CardId::WheelOfFortune => Ok(CardResult::new(string_of("wheel_of_fortune"))),
            CardId::Ninja => apply_ninja(self, player, target, rarity),
            CardId::Traitor => apply_traitor(self, player),
            CardId::Breakthrough => apply_breakthrough(self, player, target),
            CardId::DesperateRescue => apply_desperate_rescue(self, player, target),
        }
    }
}

/// A card that is refused leaves the board as it was, whichever card it is.
#[verifier::rlimit(40)]
#[verifier::spinoff_prover]
pub proof fn law_refused_card_changes_nothing(
    b: BoardView,
    card: CardId,
    rarity: u8,
    player: Color,
    target: CardTarget,
    after: BoardView,
    r: Result<CardResultView, &'static str>,
)
    requires
        card == CardId::RussianRoulette ==> roulette_outcome(b, after, r),
        card != CardId::RussianRoulette ==> (after, r) == spec_card_effect(b, card, rarity, player, target),
    ensures
        r is Err ==> after == b,
{
}

/// Journey exchanges one of the player's rooks with one of the opponent's
/// knights: when it succeeds, two cells that held such a rook and such a knight
/// trade their pieces, and every other cell keeps what it held.
pub proof fn law_journey_swaps_rook_and_enemy_knight(
    b: BoardView,
    rarity: u8,
    player: Color,
    target: CardTarget,
    after: BoardView,
    r: Result<CardResultView, &'static str>,
)
    requires
        board_wf(b),
        (after, r) == spec_card_effect(b, CardId::Journey, rarity, player, target),
        r is Ok,
    ensures
        exists|i: int, j: int|
            0 <= i < 64 && 0 <= j < 64 && i != j
            && #[trigger] piece_kind_on(b, player, PieceType::Rook, i)
            && #[trigger] piece_kind_on(b, player.spec_other(), PieceType::Knight, j)
            && after.squares[i].piece == b.squares[j].piece
            && after.squares[j].piece == b.squares[i].piece
            && forall|k: int| 0 <= k < 64 && k != i && k != j ==> after.squares[k] == b.squares[k],
{
    let own = first_piece_from(b, player, PieceType::Rook, 0);
    let enemy = first_piece_from(b, player.spec_other(), PieceType::Knight, 0);
    lemma_first_piece(b, player, PieceType::Rook, 0);
    lemma_first_piece(b, player.spec_other(), PieceType::Knight, 0);
    let i = own->0;
    let j = enemy->0;
    assert(i != j);
    assert(piece_kind_on(b, player, PieceType::Rook, i));
    assert(piece_kind_on(b, player.spec_other(), PieceType::Knight, j));
}

/// Two cells, one holding a piece of colour `ca` and kind `ta` and the other
/// one of colour `cb` and kind `tb`, have traded their pieces, and every other
/// cell keeps what it held.
pub open spec fn traded(b: BoardView, after: BoardView, ca: Color, ta: PieceType, cb: Color, tb: PieceType) -> bool {
    exists|i: int, j: int|
        0 <= i < 64 && 0 <= j < 64 && i != j
        && #[trigger] piece_kind_on(b, ca, ta, i)
        && #[trigger] piece_kind_on(b, cb, tb, j)
        && after.squares[i].piece == b.squares[j].piece
        && after.squares[j].piece == b.squares[i].piece
        && forall|k: int| 0 <= k < 64 && k != i && k != j ==> after.squares[k] == b.squares[k]
}

proof fn lemma_swap_trades(b: BoardView, player: Color, own_type: PieceType, other_type: PieceType, other_is_enemy: bool, m: Seq<char>)
    requires
        board_wf(b),
        other_is_enemy || own_type != other_type,
        spec_swap(b, player, own_type, other_type, other_is_enemy, m).1 is Ok,
    ensures
        traded(b, spec_swap(b, player, own_type, other_type, other_is_enemy, m).0, player, own_type,
            if other_is_enemy { player.spec_other() } else { player }, other_type),
{
    let other_color = if other_is_enemy { player.spec_other() } else { player };
    lemma_first_piece(b, player, own_type, 0);
    lemma_first_piece(b, other_color, other_type, 0);
    let i = first_piece_from(b, player, own_type, 0)->0;
    let j = first_piece_from(b, other_color, other_type, 0)->0;
    assert(piece_kind_on(b, player, own_type, i));
    assert(piece_kind_on(b, other_color, other_type, j));
    assert(i != j);
}

/// Each exchange card, when it succeeds, trades one of the player's pieces of
/// one kind with a piece of another kind, the player's own or the opponent's
/// as the card says: Crazy Knight a knight with an own bishop, Beast Work a
/// knight with an own rook, Furious Mason a bishop with an own rook, Catch the
/// Knight Thief a knight with an enemy bishop, Beast of Burden a knight with an
/// enemy rook, Bestification a bishop with an enemy knight, Hermit Architect a
/// bishop with an enemy rook, and Pyromaniac a rook with an enemy bishop.
pub proof fn law_exchange_cards(
    b: BoardView,
    card: CardId,
    rarity: u8,
    player: Color,
    target: CardTarget,
    after: BoardView,
    r: Result<CardResultView, &'static str>,
)
    requires
        board_wf(b),
        (after, r) == spec_card_effect(b, card, rarity, player, target),
        r is Ok,
    ensures
        card == CardId::CrazyKnight ==> traded(b, after, player, PieceType::Knight, player, PieceType::Bishop),
        card == CardId::BeastWork ==> traded(b, after, player, PieceType::Knight, player, PieceType::Rook),
        card == CardId::FuriousMason ==> traded(b, after, player, PieceType::Bishop, player, PieceType::Rook),
        card == CardId::CatchTheKnightThief ==> traded(b, after, player, PieceType::Knight, player.spec_other(), PieceType::Bishop),
        card == CardId::BeastOfBurden ==> traded(b, after, player, PieceType::Knight, player.spec_other(), PieceType::Rook),
        card == CardId::Bestification ==> traded(b, after, player, PieceType::Bishop, player.spec_other(), PieceType::Knight),
        card == CardId::HermitArchitect ==> traded(b, after, player, PieceType::Bishop, player.spec_other(), PieceType::Rook),
        card == CardId::Pyromaniac ==> traded(b, after, player, PieceType::Rook, player.spec_other(), PieceType::Bishop),
{
    match card {
        CardId::CrazyKnight => lemma_swap_trades(b, player, PieceType::Knight, PieceType::Bishop, false, "swap_knight_bishop"@),
        CardId::BeastWork => lemma_swap_trades(b, player, PieceType::Knight, PieceType::Rook, false, "swap_knight_rook"@),
        CardId::FuriousMason => lemma_swap_trades(b, player, PieceType::Bishop, PieceType::Rook, false, "swap_bishop_rook"@),
        CardId::CatchTheKnightThief => lemma_swap_trades(b, player, PieceType::Knight, PieceType::Bishop, true, "swap_knight_enemy_bishop"@),
        CardId::BeastOfBurden => lemma_swap_trades(b, player, PieceType::Knight, PieceType::Rook, true, "swap_knight_enemy_rook"@),
        CardId::Bestification => lemma_swap_trades(b, player, PieceType::Bishop, PieceType::Knight, true, "swap_bishop_enemy_knight"@),
        CardId::HermitArchitect => lemma_swap_trades(b, player, PieceType::Bishop, PieceType::Rook, true, "swap_bishop_enemy_rook"@),
        CardId::Pyromaniac => lemma_swap_trades(b, player, PieceType::Rook, PieceType::Bishop, true, "swap_rook_enemy_bishop"@),
        _ => {},
    }
}

/// Annihilation, when it succeeds, takes a pawn from the target square: the
/// square held a pawn, is empty afterwards, and the pawn is the last captured
/// piece.
pub proof fn law_annihilation_takes_a_pawn(
    b: BoardView,
    rarity: u8,
    player: Color,
    target: CardTarget,
    after: BoardView,
    r: Result<CardResultView, &'static str>,
)
    requires
        board_wf(b),
        target_ok(target),
        (after, r) == spec_card_effect(b, CardId::Annihilation, rarity, player, target),
        r is Ok,
    ensures
        target matches CardTarget::Square(sq) && piece_at(b, sq) matches Some(p) && p.piece_type == PieceType::Pawn
            && piece_at(after, sq) is None && after.captured_pieces == b.captured_pieces.push(p),
{
    if let CardTarget::Square(sq) = target {
        crate::board::utils::lemma_index_roundtrip(sq, 0);
    }
}

} // verus!
