//! What a player's command does to the game, and what is to be answered.
use vstd::prelude::*;
use vstd::utf8::encode_utf8;
use crate::board::BoardView;
use crate::board::types::{Square, PieceType, promotion_of, square_of_bytes};
use crate::board::moves::{MoveCalculator, with_moves_computed};
use crate::cards::types::{CardId, CardTarget, CardResult, CardResultView, card_of_code};
use crate::cards::registry::{card_def, card_ends_turn};
use crate::game_loop::state::{
    GameLoop, GameLoopView, game_wf, play_outcome, discard_outcome, draws_outcome, turn_card_discarded, cards_missing,
    play_target_ok, play_gate, clock_readings_kept,
};
use crate::game_loop::timer::{GameTimer, clock_after_move};
use crate::game_loop::move_handler::{MoveHandler, MoveResult, move_outcome};
use crate::game_loop::runner::game_ended;
use crate::lobby::PlayerId;
use crate::text::spec_lowercase;

verus! {

/// A command that a player sends over the game socket.
#[derive(Debug)]
pub enum WsCommand {
    Message { text: String },
    MovePiece { from: String, to: String, promotion: Option<String> },
    PlayCard { card_id: String, target: Option<String> },
    DiscardCard { card_id: String },
    GetHand,
    SetPicture { picture_id: String },
    Pong,
}

pub enum WsCommandView {
    Message { text: Seq<char> },
    MovePiece { from: Seq<char>, to: Seq<char>, promotion: Option<Seq<char>> },
    PlayCard { card_id: Seq<char>, target: Option<Seq<char>> },
    DiscardCard { card_id: Seq<char> },
    GetHand,
    SetPicture { picture_id: Seq<char> },
    Pong,
}

pub open spec fn opt_text(t: Option<String>) -> Option<Seq<char>> {
    match t {
        Some(s) => Some(s@),
        None => None,
    }
}

impl View for WsCommand {
    type V = WsCommandView;

    open spec fn view(&self) -> WsCommandView {
        match self {
            WsCommand::Message { text } => WsCommandView::Message { text: text@ },
            WsCommand::MovePiece { from, to, promotion } => WsCommandView::MovePiece {
                from: from@,
                to: to@,
                promotion: opt_text(*promotion),
            },
            WsCommand::PlayCard { card_id, target } => WsCommandView::PlayCard { card_id: card_id@, target: opt_text(*target) },
            WsCommand::DiscardCard { card_id } => WsCommandView::DiscardCard { card_id: card_id@ },
            WsCommand::GetHand => WsCommandView::GetHand,
            WsCommand::SetPicture { picture_id } => WsCommandView::SetPicture { picture_id: picture_id@ },
            WsCommand::Pong => WsCommandView::Pong,
        }
    }
}

/// What the server answers a command with.
#[derive(Debug)]
pub enum Reply {
    /// The text goes on to the other seat.
    Chat { to: PlayerId, text: String },
    /// The move was refused.
    MoveRefused { reason: &'static str },
    /// The move was played.
    Moved { report: MoveResult },
    /// The card was not played or not discarded.
    CardRefused { reason: &'static str },
    /// The card was played; the turn ended with it or not.
    CardPlayed { card: CardId, rarity: u8, result: CardResult, ends_turn: bool },
    /// The card was discarded.
    Discarded { card: CardId, rarity: u8 },
    /// The sender asked for their hand.
    Hand,
    /// The sender chose a new picture.
    Picture { picture_id: String },
    /// Nothing is answered.
    Nothing,
}

pub enum ReplyView {
    Chat { to: PlayerId, text: Seq<char> },
    MoveRefused { reason: &'static str },
    Moved { report: MoveResult },
    CardRefused { reason: &'static str },
    CardPlayed { card: CardId, rarity: u8, result: CardResultView, ends_turn: bool },
    Discarded { card: CardId, rarity: u8 },
    Hand,
    Picture { picture_id: Seq<char> },
    Nothing,
}

impl View for Reply {
    type V = ReplyView;

    open spec fn view(&self) -> ReplyView {
        match self {
            Reply::Chat { to, text } => ReplyView::Chat { to: *to, text: text@ },
            Reply::MoveRefused { reason } => ReplyView::MoveRefused { reason: *reason },
            Reply::Moved { report } => ReplyView::Moved { report: *report },
            Reply::CardRefused { reason } => ReplyView::CardRefused { reason: *reason },
            Reply::CardPlayed { card, rarity, result, ends_turn } => ReplyView::CardPlayed {
                card: *card,
                rarity: *rarity,
                result: result@,
                ends_turn: *ends_turn,
            },
            Reply::Discarded { card, rarity } => ReplyView::Discarded { card: *card, rarity: *rarity },
            Reply::Hand => ReplyView::Hand,
            Reply::Picture { picture_id } => ReplyView::Picture { picture_id: picture_id@ },
            Reply::Nothing => ReplyView::Nothing,
        }
    }
}

/// The square that a coordinate such as "e4" names.
pub open spec fn coord_square(t: Seq<char>) -> Option<Square> {
    square_of_bytes(encode_utf8(t))
}

/// Whether playing `card` needs a target square.
pub open spec fn card_needs_square(card: CardId) -> bool {
    match card {
        CardId::DeadlyZone | CardId::Cannon | CardId::Battlefield | CardId::Annihilation | CardId::VeteranKnight
        | CardId::VeteranRook | CardId::VeteranBishop | CardId::Frog | CardId::Ninja | CardId::Breakthrough
        | CardId::DesperateRescue => true,
        _ => false,
    }
}

/// The target of `card` named by the command's target text.
pub open spec fn target_of(card: CardId, target: Option<Seq<char>>) -> Result<CardTarget, &'static str> {
    if card_needs_square(card) {
        match target {
            None => Err("err_need_target"),
            Some(t) => match coord_square(t) {
                None => Err("err_invalid_square"),
                Some(s) => Ok(CardTarget::Square(s)),
            },
        }
    } else {
        Ok(CardTarget::NoTarget)
    }
}

/// The board with the moves of every piece computed again.
pub open spec fn moves_recomputed(g: GameLoopView) -> GameLoopView {
    GameLoopView { board: BoardView { squares: with_moves_computed(g.board), ..g.board }, ..g }
}

/// What follows a played card: a card that ends the turn charges the clock and
/// draws the player back to a full hand; the moves are computed again.
pub open spec fn after_play(g: GameLoopView, card: CardId, player: crate::board::types::Color, after: GameLoopView) -> bool {
    if card_ends_turn(card) {
        exists|elapsed: u64, drawn: GameLoopView|
            #[trigger] draws_outcome(
                turn_card_discarded(clock_after_move(g, elapsed)),
                player,
                cards_missing(clock_after_move(g, elapsed), player),
                drawn,
            ) && after == moves_recomputed(drawn)
    } else {
        after == moves_recomputed(g)
    }
}

/// The promotion piece that the command's promotion text names.
pub open spec fn promotion_choice(promotion: Option<Seq<char>>) -> Option<PieceType> {
    match promotion {
        Some(p) => promotion_of(spec_lowercase(p)),
        None => None,
    }
}

pub open spec fn move_command_outcome(
    g: GameLoopView,
    id: PlayerId,
    from: Seq<char>,
    to: Seq<char>,
    promotion: Option<Seq<char>>,
    after: GameLoopView,
    out: ReplyView,
) -> bool {
    match coord_square(from) {
        None => after == g && out == ReplyView::MoveRefused { reason: "invalid source square" },
        Some(f) => match coord_square(to) {
            None => after == g && out == ReplyView::MoveRefused { reason: "invalid target square" },
            Some(t) => if promotion matches Some(p) && promotion_of(spec_lowercase(p)) is None {
                after == g && out == ReplyView::MoveRefused { reason: "invalid promotion piece" }
            } else {
                exists|mid: GameLoopView, r: Result<MoveResult, &'static str>|
                    #[trigger] move_outcome(g, f, t, id.color(), promotion_choice(promotion), mid, r) && match r {
                        Err(e) => after == mid && out == ReplyView::MoveRefused { reason: e },
                        Ok(res) => out == ReplyView::Moved { report: res }
                            && after == (if res.checkmate { game_ended(mid) } else { mid }),
                    }
            },
        },
    }
}

pub open spec fn play_command_outcome(
    g: GameLoopView,
    id: PlayerId,
    card_id: Seq<char>,
    target: Option<Seq<char>>,
    after: GameLoopView,
    out: ReplyView,
) -> bool {
    match card_of_code(card_id) {
        None => after == g && out == ReplyView::CardRefused { reason: "unknown card" },
        Some(c) => match target_of(c, target) {
            Err(e) => after == g && out == ReplyView::CardRefused { reason: e },
            Ok(tg) => exists|mid: GameLoopView, r: Result<(CardResultView, u8), &'static str>|
                #[trigger] play_outcome(g, c, id.color(), tg, mid, r) && match r {
                    Err(e) => after == mid && out == ReplyView::CardRefused { reason: e },
                    Ok((cr, rarity)) => out == (ReplyView::CardPlayed {
                        card: c,
                        rarity,
                        result: cr,
                        ends_turn: card_ends_turn(c),
                    }) && after_play(mid, c, id.color(), after),
                },
        },
    }
}

pub open spec fn discard_command_outcome(g: GameLoopView, id: PlayerId, card_id: Seq<char>, after: GameLoopView, out: ReplyView) -> bool {
    match card_of_code(card_id) {
        None => after == g && out == ReplyView::CardRefused { reason: "unknown card" },
        Some(c) => exists|r: Result<u8, &'static str>|
            #[trigger] discard_outcome(g, c, id.color(), after, r) && match r {
                Err(e) => out == ReplyView::CardRefused { reason: e },
                Ok(rarity) => out == ReplyView::Discarded { card: c, rarity },
            },
    }
}

/// What a command from seat `id` may do to the game, and what is answered.
pub open spec fn command_outcome(g: GameLoopView, id: PlayerId, cmd: WsCommandView, after: GameLoopView, out: ReplyView) -> bool {
    match cmd {
        WsCommandView::Message { text } => after == g && out == ReplyView::Chat { to: id.spec_other(), text },
        WsCommandView::MovePiece { from, to, promotion } => move_command_outcome(g, id, from, to, promotion, after, out),
        WsCommandView::PlayCard { card_id, target } => play_command_outcome(g, id, card_id, target, after, out),
        WsCommandView::DiscardCard { card_id } => discard_command_outcome(g, id, card_id, after, out),
        WsCommandView::GetHand => after == g && out == ReplyView::Hand,
        WsCommandView::SetPicture { picture_id } => after == g && out == ReplyView::Picture { picture_id },
        WsCommandView::Pong => after == g && out == ReplyView::Nothing,
    }
}

/// Whether playing `card` changes the opponent's hand as well, which is then
/// sent to the opponent again: the wheel of fortune redraws both hands.
pub fn refreshes_opponent_hand(card: CardId) -> (r: bool)
    ensures
        r == (card == CardId::WheelOfFortune),
{
    match card {
        CardId::WheelOfFortune => true,
        _ => false,
    }
}

/// The target of `card` named by the text of the command.
pub fn parse_card_target(card: CardId, target: Option<&str>) -> (r: Result<CardTarget, &'static str>)
    ensures
        r == target_of(card, match target {
            Some(t) => Some(t@),
            None => None,
        }),
        r matches Ok(CardTarget::Square(s)) ==> crate::board::types::valid_sq(s),
{
    match card {
        CardId::DeadlyZone | CardId::Cannon | CardId::Battlefield | CardId::Annihilation | CardId::VeteranKnight
        | CardId::VeteranRook | CardId::VeteranBishop | CardId::Frog | CardId::Ninja | CardId::Breakthrough
        | CardId::DesperateRescue => {
            let coord = match target {
                Some(t) => t,
                None => return Err("err_need_target"),
            };
            match Square::from_coord(coord) {
                Some(square) => Ok(CardTarget::Square(square)),
                None => Err("err_invalid_square"),
            }
        }
        CardId::TimeBoost | CardId::RussianRoulette | CardId::Journey | CardId::Fog | CardId::CrazyKnight
        | CardId::BeastWork | CardId::FuriousMason | CardId::CatchTheKnightThief | CardId::BeastOfBurden
        | CardId::Bestification | CardId::HermitArchitect | CardId::Pyromaniac | CardId::Sniper | CardId::Trash
        | CardId::PushBack | CardId::Garbage | CardId::WheelOfFortune | CardId::Traitor => Ok(CardTarget::NoTarget),
    }
}

fn as_opt_str(t: &Option<String>) -> (r: Option<&str>)
    ensures
        match r {
            Some(s) => *t matches Some(u) && s@ == u@,
            None => *t is None,
        },
{
    match t {
        Some(s) => Some(s.as_str()),
        None => None,
    }
}

/// Whether the answer is to a move played or to a card that ended the turn:
/// the commands that read the clock and charge the time to the player.
pub open spec fn clocks_move(out: ReplyView) -> bool {
    match out {
        ReplyView::Moved { .. } => true,
        ReplyView::CardPlayed { ends_turn, .. } => ends_turn,
        _ => false,
    }
}

impl GameLoop {
    fn handle_move(&mut self, id: PlayerId, from: &String, to: &String, promotion: &Option<String>) -> (out: Reply)
        requires
            game_wf(old(self)@),
        ensures
            move_command_outcome(old(self)@, id, from@, to@, opt_text(*promotion), final(self)@, out@),
            game_wf(final(self)@),
            final(self).first_move_deadline == old(self).first_move_deadline,
            !clocks_move(out@) ==> final(self).last_move_time == old(self).last_move_time,
    {
        let from_sq = match Square::from_coord(from.as_str()) {
            Some(sq) => sq,
            None => return Reply::MoveRefused { reason: "invalid source square" },
        };
        let to_sq = match Square::from_coord(to.as_str()) {
            Some(sq) => sq,
            None => return Reply::MoveRefused { reason: "invalid target square" },
        };
        let promotion_piece = match promotion {
            Some(p) => match PieceType::from_promotion_str(p.as_str()) {
                Some(pt) => Some(pt),
                None => return Reply::MoveRefused { reason: "invalid promotion piece" },
            },
            None => None,
        };
        let ghost g = self@;
        let player_color = id.player_color();
        let r = self.make_move(from_sq, to_sq, player_color, promotion_piece);
        let ghost mid = self@;
        match r {
            Ok(result) => {
                if result.checkmate {
                    self.end();
                }
                assert(move_outcome(g, from_sq, to_sq, id.color(), promotion_piece, mid, r));
                Reply::Moved { report: result }
            }
            Err(reason) => {
                assert(move_outcome(g, from_sq, to_sq, id.color(), promotion_piece, mid, r));
                Reply::MoveRefused { reason }
            }
        }
    }

    fn after_card(&mut self, card: CardId, player_color: crate::board::types::Color, ends_turn: bool)
        requires
            game_wf(old(self)@),
            ends_turn == card_ends_turn(card),
        ensures
            after_play(old(self)@, card, player_color, final(self)@),
            game_wf(final(self)@),
            final(self).first_move_deadline == old(self).first_move_deadline,
            !ends_turn ==> final(self).last_move_time == old(self).last_move_time,
    {
        let ghost g = self@;
        if ends_turn {
            self.record_move();
            let ghost g1 = self@;
            let elapsed: Ghost<u64> = Ghost(choose|e: u64| g1 == clock_after_move(g, e));
            self.discard_and_draw_if_needed(player_color);
            let ghost drawn = self@;
            self.board.compute_allowed_moves();
            assert(draws_outcome(
                turn_card_discarded(clock_after_move(g, elapsed@)),
                player_color,
                cards_missing(clock_after_move(g, elapsed@), player_color),
                drawn,
            ));
        } else {
            self.board.compute_allowed_moves();
        }
    }

    fn handle_play(&mut self, id: PlayerId, card_id: &String, target: &Option<String>) -> (out: Reply)
        requires
            game_wf(old(self)@),
        ensures
            play_command_outcome(old(self)@, id, card_id@, opt_text(*target), final(self)@, out@),
            game_wf(final(self)@),
            final(self).first_move_deadline == old(self).first_move_deadline,
            !clocks_move(out@) ==> final(self).last_move_time == old(self).last_move_time,
    {
        let parsed_card = match CardId::from_str(card_id.as_str()) {
            Some(c) => c,
            None => return Reply::CardRefused { reason: "unknown card" },
        };
        let player_color = id.player_color();
        let card_target = match parse_card_target(parsed_card, as_opt_str(target)) {
            Ok(t) => t,
            Err(reason) => return Reply::CardRefused { reason },
        };
        let ghost g = self@;
        let r = self.play_card(parsed_card, player_color, card_target);
        let ghost mid = self@;
        match r {
            Ok((result, card_rarity)) => {
                let ends_turn = card_def(parsed_card).ends_turn;
                self.after_card(parsed_card, player_color, ends_turn);
                assert(play_outcome(g, parsed_card, id.color(), card_target, mid, crate::game_loop::state::play_view(r)));
                Reply::CardPlayed { card: parsed_card, rarity: card_rarity, result, ends_turn }
            }
            Err(reason) => {
                assert(play_outcome(g, parsed_card, id.color(), card_target, mid, crate::game_loop::state::play_view(r)));
                Reply::CardRefused { reason }
            }
        }
    }

    fn handle_discard(&mut self, id: PlayerId, card_id: &String) -> (out: Reply)
        requires
            game_wf(old(self)@),
        ensures
            discard_command_outcome(old(self)@, id, card_id@, final(self)@, out@),
            game_wf(final(self)@),
            clock_readings_kept(*old(self), *final(self)),
    {
        let parsed_card = match CardId::from_str(card_id.as_str()) {
            Some(c) => c,
            None => return Reply::CardRefused { reason: "unknown card" },
        };
        let player_color = id.player_color();
        let ghost g = self@;
        let r = self.discard_card(parsed_card, player_color);
        assert(discard_outcome(g, parsed_card, id.color(), self@, r));
        match r {
            Ok(rarity) => Reply::Discarded { card: parsed_card, rarity },
            Err(reason) => Reply::CardRefused { reason },
        }
    }

    /// Carries out a command of seat `id` and says what to answer.
    pub fn handle_command(&mut self, id: PlayerId, cmd: WsCommand) -> (out: Reply)
        requires
            game_wf(old(self)@),
        ensures
            command_outcome(old(self)@, id, cmd@, final(self)@, out@),
            game_wf(final(self)@),
            final(self).first_move_deadline == old(self).first_move_deadline,
            !clocks_move(out@) ==> final(self).last_move_time == old(self).last_move_time,
    {
        match cmd {
            WsCommand::Message { text } => Reply::Chat { to: id.other(), text },
            WsCommand::MovePiece { from, to, promotion } => self.handle_move(id, &from, &to, &promotion),
            WsCommand::PlayCard { card_id, target } => self.handle_play(id, &card_id, &target),
            WsCommand::DiscardCard { card_id } => self.handle_discard(id, &card_id),
            WsCommand::GetHand => Reply::Hand,
            WsCommand::SetPicture { picture_id } => Reply::Picture { picture_id },
            WsCommand::Pong => Reply::Nothing,
        }
    }
}

} // verus!
