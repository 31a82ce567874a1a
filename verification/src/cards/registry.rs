//! The catalogue of cards: whether each ends the turn, and what it needs on the board.
use vstd::prelude::*;
use crate::board::types::{PieceType, Color};
use crate::board::{Board, BoardView, board_wf};
use crate::cards::types::{CardId, CardDef, PieceRequirement};

verus! {

/// Every card, in catalogue order.
pub open spec fn all_card_ids() -> Seq<CardId> {
    seq![CardId::DeadlyZone, CardId::TimeBoost, CardId::RussianRoulette, CardId::Journey, CardId::Fog, CardId::CrazyKnight, CardId::BeastWork, CardId::FuriousMason, CardId::CatchTheKnightThief, CardId::BeastOfBurden, CardId::Bestification, CardId::HermitArchitect, CardId::Pyromaniac, CardId::Cannon, CardId::Sniper, CardId::Trash, CardId::PushBack, CardId::Battlefield, CardId::Garbage, CardId::Annihilation, CardId::VeteranKnight, CardId::VeteranRook, CardId::VeteranBishop, CardId::Frog, CardId::WheelOfFortune, CardId::Ninja, CardId::Traitor, CardId::Breakthrough, CardId::DesperateRescue]
}

/// Playing the card ends the player's turn.
pub open spec fn card_ends_turn(c: CardId) -> bool {
    match c {
        CardId::DeadlyZone => false,
        CardId::TimeBoost => false,
        CardId::RussianRoulette => true,
        CardId::Journey => true,
        CardId::Fog => false,
        CardId::CrazyKnight => true,
        CardId::BeastWork => true,
        CardId::FuriousMason => true,
        CardId::CatchTheKnightThief => true,
        CardId::BeastOfBurden => true,
        CardId::Bestification => true,
        CardId::HermitArchitect => true,
        CardId::Pyromaniac => true,
        CardId::Cannon => true,
        CardId::Sniper => true,
        CardId::Trash => false,
        CardId::PushBack => false,
        CardId::Battlefield => true,
        CardId::Garbage => false,
        CardId::Annihilation => true,
        CardId::VeteranKnight => false,
        CardId::VeteranRook => false,
        CardId::VeteranBishop => false,
        CardId::Frog => true,
        CardId::WheelOfFortune => false,
        CardId::Ninja => false,
        CardId::Traitor => false,
        CardId::Breakthrough => true,
        CardId::DesperateRescue => true,
    }
}

/// What must stand on the board for the card to take effect.
pub open spec fn card_requirements(c: CardId) -> Seq<PieceRequirement> {
    match c {
        CardId::DeadlyZone => seq![PieceRequirement::FreeNonPawnSquare],
        CardId::TimeBoost => Seq::empty(),
        CardId::RussianRoulette => seq![PieceRequirement::AnyNonKing],
        CardId::Journey => seq![PieceRequirement::Own(PieceType::Rook), PieceRequirement::Enemy(PieceType::Knight)],
        CardId::Fog => Seq::empty(),
        CardId::CrazyKnight => seq![PieceRequirement::Own(PieceType::Knight), PieceRequirement::Own(PieceType::Bishop)],
        CardId::BeastWork => seq![PieceRequirement::Own(PieceType::Knight), PieceRequirement::Own(PieceType::Rook)],
        CardId::FuriousMason => seq![PieceRequirement::Own(PieceType::Bishop), PieceRequirement::Own(PieceType::Rook)],
        CardId::CatchTheKnightThief => seq![PieceRequirement::Own(PieceType::Knight), PieceRequirement::Enemy(PieceType::Bishop)],
        CardId::BeastOfBurden => seq![PieceRequirement::Own(PieceType::Knight), PieceRequirement::Enemy(PieceType::Rook)],
        CardId::Bestification => seq![PieceRequirement::Own(PieceType::Bishop), PieceRequirement::Enemy(PieceType::Knight)],
        CardId::HermitArchitect => seq![PieceRequirement::Own(PieceType::Bishop), PieceRequirement::Enemy(PieceType::Rook)],
        CardId::Pyromaniac => seq![PieceRequirement::Own(PieceType::Rook), PieceRequirement::Enemy(PieceType::Bishop)],
        CardId::Cannon => seq![PieceRequirement::Own(PieceType::Rook)],
        CardId::Sniper => seq![PieceRequirement::Own(PieceType::Bishop)],
        CardId::Trash => Seq::empty(),
        CardId::PushBack => Seq::empty(),
        CardId::Battlefield => seq![PieceRequirement::OwnNonKing],
        CardId::Garbage => Seq::empty(),
        CardId::Annihilation => seq![PieceRequirement::AnyNonKing],
        CardId::VeteranKnight => seq![PieceRequirement::Own(PieceType::Knight)],
        CardId::VeteranRook => seq![PieceRequirement::Own(PieceType::Rook)],
        CardId::VeteranBishop => seq![PieceRequirement::Own(PieceType::Bishop)],
        CardId::Frog => seq![PieceRequirement::Own(PieceType::Pawn)],
        CardId::WheelOfFortune => Seq::empty(),
        CardId::Ninja => seq![PieceRequirement::OwnNonKing],
        CardId::Traitor => Seq::empty(),
        CardId::Breakthrough => seq![PieceRequirement::Own(PieceType::Pawn)],
        CardId::DesperateRescue => Seq::empty(),
    }
}

pub open spec fn def_matches(d: CardDef, c: CardId) -> bool {
    d.id == c && d.ends_turn == card_ends_turn(c) && d.playable_if@ == card_requirements(c)
}

/// Every card has a definition in the list of cards.
pub proof fn lemma_every_card_listed(c: CardId)
    ensures
        exists|i: int| 0 <= i < all_card_ids().len() && all_card_ids()[i] == c,
{
    match c {
        CardId::DeadlyZone => assert(all_card_ids()[0] == c),
        CardId::TimeBoost => assert(all_card_ids()[1] == c),
        CardId::RussianRoulette => assert(all_card_ids()[2] == c),
        CardId::Journey => assert(all_card_ids()[3] == c),
        CardId::Fog => assert(all_card_ids()[4] == c),
        CardId::CrazyKnight => assert(all_card_ids()[5] == c),
        CardId::BeastWork => assert(all_card_ids()[6] == c),
        CardId::FuriousMason => assert(all_card_ids()[7] == c),
        CardId::CatchTheKnightThief => assert(all_card_ids()[8] == c),
        CardId::BeastOfBurden => assert(all_card_ids()[9] == c),
        CardId::Bestification => assert(all_card_ids()[10] == c),
        CardId::HermitArchitect => assert(all_card_ids()[11] == c),
        CardId::Pyromaniac => assert(all_card_ids()[12] == c),
        CardId::Cannon => assert(all_card_ids()[13] == c),
        CardId::Sniper => assert(all_card_ids()[14] == c),
        CardId::Trash => assert(all_card_ids()[15] == c),
        CardId::PushBack => assert(all_card_ids()[16] == c),
        CardId::Battlefield => assert(all_card_ids()[17] == c),
        CardId::Garbage => assert(all_card_ids()[18] == c),
        CardId::Annihilation => assert(all_card_ids()[19] == c),
        CardId::VeteranKnight => assert(all_card_ids()[20] == c),
        CardId::VeteranRook => assert(all_card_ids()[21] == c),
        CardId::VeteranBishop => assert(all_card_ids()[22] == c),
        CardId::Frog => assert(all_card_ids()[23] == c),
        CardId::WheelOfFortune => assert(all_card_ids()[24] == c),
        CardId::Ninja => assert(all_card_ids()[25] == c),
        CardId::Traitor => assert(all_card_ids()[26] == c),
        CardId::Breakthrough => assert(all_card_ids()[27] == c),
        CardId::DesperateRescue => assert(all_card_ids()[28] == c),
    }
}

pub fn all_card_defs() -> (r: Vec<CardDef>)
    ensures
        r@.len() == all_card_ids().len(),
        forall|i: int| 0 <= i < r@.len() ==> def_matches(#[trigger] r@[i], all_card_ids()[i]),
{
    let mut defs: Vec<CardDef> = Vec::new();
    defs.push(CardDef { id: CardId::DeadlyZone, ends_turn: false, playable_if: vec![PieceRequirement::FreeNonPawnSquare] });
    defs.push(CardDef { id: CardId::TimeBoost, ends_turn: false, playable_if: Vec::new() });
    defs.push(CardDef { id: CardId::RussianRoulette, ends_turn: true, playable_if: vec![PieceRequirement::AnyNonKing] });
    defs.push(CardDef { id: CardId::Journey, ends_turn: true, playable_if: vec![PieceRequirement::Own(PieceType::Rook), PieceRequirement::Enemy(PieceType::Knight)] });
    defs.push(CardDef { id: CardId::Fog, ends_turn: false, playable_if: Vec::new() });
    defs.push(CardDef { id: CardId::CrazyKnight, ends_turn: true, playable_if: vec![PieceRequirement::Own(PieceType::Knight), PieceRequirement::Own(PieceType::Bishop)] });
    defs.push(CardDef { id: CardId::BeastWork, ends_turn: true, playable_if: vec![PieceRequirement::Own(PieceType::Knight), PieceRequirement::Own(PieceType::Rook)] });
    defs.push(CardDef { id: CardId::FuriousMason, ends_turn: true, playable_if: vec![PieceRequirement::Own(PieceType::Bishop), PieceRequirement::Own(PieceType::Rook)] });
    defs.push(CardDef { id: CardId::CatchTheKnightThief, ends_turn: true, playable_if: vec![PieceRequirement::Own(PieceType::Knight), PieceRequirement::Enemy(PieceType::Bishop)] });
    defs.push(CardDef { id: CardId::BeastOfBurden, ends_turn: true, playable_if: vec![PieceRequirement::Own(PieceType::Knight), PieceRequirement::Enemy(PieceType::Rook)] });
    defs.push(CardDef { id: CardId::Bestification, ends_turn: true, playable_if: vec![PieceRequirement::Own(PieceType::Bishop), PieceRequirement::Enemy(PieceType::Knight)] });
    defs.push(CardDef { id: CardId::HermitArchitect, ends_turn: true, playable_if: vec![PieceRequirement::Own(PieceType::Bishop), PieceRequirement::Enemy(PieceType::Rook)] });
    defs.push(CardDef { id: CardId::Pyromaniac, ends_turn: true, playable_if: vec![PieceRequirement::Own(PieceType::Rook), PieceRequirement::Enemy(PieceType::Bishop)] });
    defs.push(CardDef { id: CardId::Cannon, ends_turn: true, playable_if: vec![PieceRequirement::Own(PieceType::Rook)] });
    defs.push(CardDef { id: CardId::Sniper, ends_turn: true, playable_if: vec![PieceRequirement::Own(PieceType::Bishop)] });
    defs.push(CardDef { id: CardId::Trash, ends_turn: false, playable_if: Vec::new() });
    defs.push(CardDef { id: CardId::PushBack, ends_turn: false, playable_if: Vec::new() });
    defs.push(CardDef { id: CardId::Battlefield, ends_turn: true, playable_if: vec![PieceRequirement::OwnNonKing] });
    defs.push(CardDef { id: CardId::Garbage, ends_turn: false, playable_if: Vec::new() });
    defs.push(CardDef { id: CardId::Annihilation, ends_turn: true, playable_if: vec![PieceRequirement::AnyNonKing] });
    defs.push(CardDef { id: CardId::VeteranKnight, ends_turn: false, playable_if: vec![PieceRequirement::Own(PieceType::Knight)] });
    defs.push(CardDef { id: CardId::VeteranRook, ends_turn: false, playable_if: vec![PieceRequirement::Own(PieceType::Rook)] });
    defs.push(CardDef { id: CardId::VeteranBishop, ends_turn: false, playable_if: vec![PieceRequirement::Own(PieceType::Bishop)] });
    defs.push(CardDef { id: CardId::Frog, ends_turn: true, playable_if: vec![PieceRequirement::Own(PieceType::Pawn)] });
    defs.push(CardDef { id: CardId::WheelOfFortune, ends_turn: false, playable_if: Vec::new() });
    defs.push(CardDef { id: CardId::Ninja, ends_turn: false, playable_if: vec![PieceRequirement::OwnNonKing] });
    defs.push(CardDef { id: CardId::Traitor, ends_turn: false, playable_if: Vec::new() });
    defs.push(CardDef { id: CardId::Breakthrough, ends_turn: true, playable_if: vec![PieceRequirement::Own(PieceType::Pawn)] });
    defs.push(CardDef { id: CardId::DesperateRescue, ends_turn: true, playable_if: Vec::new() });
    proof {
        assert forall|i: int| 0 <= i < defs@.len() implies def_matches(#[trigger] defs@[i], all_card_ids()[i]) by {
            assert(defs@[i].playable_if@ =~= card_requirements(all_card_ids()[i]));
        }
    }
    defs
}

pub fn card_def(id: CardId) -> (r: CardDef)
    ensures
        def_matches(r, id),
{
    let defs = all_card_defs();
    proof {
        lemma_every_card_listed(id);
    }
    let mut i: usize = 0;
    while i < defs.len()
        invariant
            i <= defs@.len(),
            defs@.len() == all_card_ids().len(),
            forall|k: int| 0 <= k < defs@.len() ==> def_matches(#[trigger] defs@[k], all_card_ids()[k]),
            exists|k: int| i <= k < all_card_ids().len() && all_card_ids()[k] == id,
        decreases defs@.len() - i,
    {
        if defs[i].id == id {
            let mut defs = defs;
            return defs.swap_remove(i);
        }
        i = i + 1;
    }
    proof {
        assert(false);
    }
    let mut defs = defs;
    defs.swap_remove(0)
}

/// Some cell satisfies the requirement.
pub open spec fn cell_meets(b: BoardView, player: Color, req: PieceRequirement, i: int) -> bool {
    match b.squares[i].piece {
        Some(p) => match req {
            PieceRequirement::Own(pt) => p.color == player && p.piece_type == pt,
            PieceRequirement::Enemy(pt) => p.color == player.spec_other() && p.piece_type == pt,
            PieceRequirement::AnyNonKing => p.piece_type != PieceType::King,
            PieceRequirement::OwnNonKing => p.color == player && p.piece_type != PieceType::King,
            PieceRequirement::FreeNonPawnSquare => p.piece_type != PieceType::Pawn,
        },
        None => req == PieceRequirement::FreeNonPawnSquare,
    }
}

pub open spec fn requirement_met(b: BoardView, player: Color, req: PieceRequirement) -> bool {
    exists|i: int| 0 <= i < 64 && #[trigger] cell_meets(b, player, req, i)
}

/// The card would take effect for `player` on this board.
pub open spec fn spec_card_playable(b: BoardView, player: Color, card: CardId) -> bool {
    if card == CardId::PushBack {
        b.card_state.last_move matches Some(lm) && lm.captured matches Some(p) && p.color == player
    } else {
        forall|k: int| 0 <= k < card_requirements(card).len() ==> requirement_met(b, player, #[trigger] card_requirements(card)[k])
    }
}

fn requirement_holds(board: &Board, player: Color, req: PieceRequirement) -> (r: bool)
    requires
        board_wf(board@),
    ensures
        r == requirement_met(board@, player, req),
{
    let mut i: usize = 0;
    while i < 64
        invariant
            i <= 64,
            board_wf(board@),
            forall|j: int| 0 <= j < i ==> !#[trigger] cell_meets(board@, player, req, j),
        decreases 64 - i,
    {
        let met = match board.squares[i].as_ref() {
            Some(p) => match req {
                PieceRequirement::Own(pt) => p.color == player && p.piece_type == pt,
                PieceRequirement::Enemy(pt) => p.color == player.other() && p.piece_type == pt,
                PieceRequirement::AnyNonKing => p.piece_type != PieceType::King,
                PieceRequirement::OwnNonKing => p.color == player && p.piece_type != PieceType::King,
                PieceRequirement::FreeNonPawnSquare => p.piece_type != PieceType::Pawn,
            },
            None => req == PieceRequirement::FreeNonPawnSquare,
        };
        if met {
            assert(cell_meets(board@, player, req, i as int));
            return true;
        }
        i = i + 1;
    }
    false
}

pub fn is_card_playable(board: &Board, player: Color, card: CardId) -> (r: bool)
    requires
        board_wf(board@),
    ensures
        r == spec_card_playable(board@, player, card),
{
    if card == CardId::PushBack {
        return match &board.card_state.last_move {
            Some(lm) => match &lm.captured {
                Some(p) => p.color == player,
                None => false,
            },
            None => false,
        };
    }
    let def = card_def(card);
    if def.playable_if.len() == 0 {
        return true;
    }
    let mut k: usize = 0;
    while k < def.playable_if.len()
        invariant
            k <= def.playable_if@.len(),
            board_wf(board@),
            card != CardId::PushBack,
            def.playable_if@ == card_requirements(card),
            forall|j: int| 0 <= j < k ==> requirement_met(board@, player, #[trigger] card_requirements(card)[j]),
        decreases def.playable_if@.len() - k,
    {
        if !requirement_holds(board, player, def.playable_if[k]) {
            return false;
        }
        k = k + 1;
    }
    true
}

} // verus!
