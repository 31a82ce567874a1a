//! The state of one game: board, turn, hands, decks and clocks, and the card
//! actions that players take between their moves.
use vstd::prelude::*;
use vstd::multiset::Multiset;
use std::time::Instant;
use crate::board::{Board, BoardView, Card, board_wf, initial_board};
use crate::board::types::Color;
use crate::cards::types::{CardId, CardTarget, CardResult, CardResultView, plain, card_of_code};
use crate::cards::registry::{is_card_playable, spec_card_playable};
use crate::cards::state::time_multiplier_of;
use crate::cards::effects::{
    CardEffectApplier, spec_card_effect, roulette_outcome, result_view, effect_reads_target, target_ok,
};
use crate::rng::shuffle;
use crate::clock::{now, later_by_secs};
use crate::text::string_of;
use crate::game_loop::timer::{GameTimer, clock_reset};

verus! {

/// A card in a deck or a hand: which card, and its rarity.
pub type CardInstance = (CardId, u8);

pub const INITIAL_TIME_MS: u64 = 600000;
pub const FIRST_MOVE_TIMEOUT_SECS: u64 = 20;
pub const INITIAL_HAND_SIZE: usize = 5;
pub const HAND_SIZE: usize = 5;
pub const USE_DEBUG_DECK: bool = false;

/// Cards that each colour must draw before drawing from the common deck.
#[derive(Debug, Clone)]
pub struct ForcedDraws {
    pub white: Vec<CardInstance>,
    pub black: Vec<CardInstance>,
}

pub struct ForcedDrawsView {
    pub white: Seq<CardInstance>,
    pub black: Seq<CardInstance>,
}

impl View for ForcedDraws {
    type V = ForcedDrawsView;

    open spec fn view(&self) -> ForcedDrawsView {
        ForcedDrawsView { white: self.white@, black: self.black@ }
    }
}

impl ForcedDrawsView {
    pub open spec fn queue(self, c: Color) -> Seq<CardInstance> {
        match c {
            Color::White => self.white,
            Color::Black => self.black,
        }
    }

    pub open spec fn with_queue(self, c: Color, q: Seq<CardInstance>) -> ForcedDrawsView {
        match c {
            Color::White => ForcedDrawsView { white: q, ..self },
            Color::Black => ForcedDrawsView { black: q, ..self },
        }
    }
}

impl ForcedDraws {
    pub fn new() -> (r: ForcedDraws)
        ensures
            r@.white == Seq::<CardInstance>::empty(),
            r@.black == Seq::<CardInstance>::empty(),
    {
        ForcedDraws { white: Vec::new(), black: Vec::new() }
    }

    /// Queues `card` for `color`.
    pub fn push(&mut self, color: Color, card: CardInstance)
        ensures
            final(self)@ == old(self)@.with_queue(color, old(self)@.queue(color).push(card)),
    {
        match color {
            Color::White => self.white.push(card),
            Color::Black => self.black.push(card),
        }
    }

    /// Takes the first queued card of `color`, if there is one.
    pub fn pop_front(&mut self, color: Color) -> (r: Option<CardInstance>)
        ensures
            old(self)@.queue(color).len() == 0 ==> r is None && final(self)@ == old(self)@,
            old(self)@.queue(color).len() > 0 ==> r == Some(old(self)@.queue(color)[0])
                && final(self)@ == old(self)@.with_queue(color, old(self)@.queue(color).drop_first()),
    {
        match color {
            Color::White => {
                if self.white.len() == 0 {
                    None
                } else {
                    Some(self.white.remove(0))
                }
            }
            Color::Black => {
                if self.black.len() == 0 {
                    None
                } else {
                    Some(self.black.remove(0))
                }
            }
        }
    }
}

/// One game in progress. Its clock instants are kept for the timer and are not
/// part of the view.
#[derive(Debug)]
pub struct GameLoop {
    pub counter: u64,
    pub running: bool,
    pub started: bool,
    pub ended: bool,
    pub is_white_turn: bool,
    pub board: Board,
    pub white_card: Vec<Card>,
    pub black_card: Vec<Card>,
    pub global_card: Vec<Card>,
    pub global_deck: Vec<CardInstance>,
    pub discard_pile: Vec<CardInstance>,
    pub forced_draws: ForcedDraws,
    pub white_hand: Vec<CardInstance>,
    pub black_hand: Vec<CardInstance>,
    pub card_played_this_turn: Option<CardInstance>,
    pub custom_deck: Option<Vec<CardInstance>>,
    pub white_time_ms: u64,
    pub black_time_ms: u64,
    pub last_move_time: Instant,
    pub timer_running: bool,
    pub first_move_played: bool,
    pub first_move_deadline: Instant,
    pub action_taken_this_turn: bool,
    pub initial_time_ms: u64,
    pub white_vote_draw: bool,
    pub black_vote_draw: bool,
}

pub struct GameLoopView {
    pub counter: u64,
    pub running: bool,
    pub started: bool,
    pub ended: bool,
    pub is_white_turn: bool,
    pub board: BoardView,
    pub white_card: Seq<Card>,
    pub black_card: Seq<Card>,
    pub global_card: Seq<Card>,
    pub global_deck: Seq<CardInstance>,
    pub discard_pile: Seq<CardInstance>,
    pub forced_draws: ForcedDrawsView,
    pub white_hand: Seq<CardInstance>,
    pub black_hand: Seq<CardInstance>,
    pub card_played_this_turn: Option<CardInstance>,
    pub custom_deck: Option<Seq<CardInstance>>,
    pub white_time_ms: u64,
    pub black_time_ms: u64,
    pub timer_running: bool,
    pub first_move_played: bool,
    pub action_taken_this_turn: bool,
    pub initial_time_ms: u64,
    pub white_vote_draw: bool,
    pub black_vote_draw: bool,
}

impl View for GameLoop {
    type V = GameLoopView;

    open spec fn view(&self) -> GameLoopView {
        GameLoopView {
            counter: self.counter,
            running: self.running,
            started: self.started,
            ended: self.ended,
            is_white_turn: self.is_white_turn,
            board: self.board@,
            white_card: self.white_card@,
            black_card: self.black_card@,
            global_card: self.global_card@,
            global_deck: self.global_deck@,
            discard_pile: self.discard_pile@,
            forced_draws: self.forced_draws@,
            white_hand: self.white_hand@,
            black_hand: self.black_hand@,
            card_played_this_turn: self.card_played_this_turn,
            custom_deck: match self.custom_deck {
                Some(d) => Some(d@),
                None => None,
            },
            white_time_ms: self.white_time_ms,
            black_time_ms: self.black_time_ms,
            timer_running: self.timer_running,
            first_move_played: self.first_move_played,
            action_taken_this_turn: self.action_taken_this_turn,
            initial_time_ms: self.initial_time_ms,
            white_vote_draw: self.white_vote_draw,
            black_vote_draw: self.black_vote_draw,
        }
    }
}

/// The clock readings of the game, the instant of the last move and the
/// first-move deadline, are as they were.
pub open spec fn clock_readings_kept(before: GameLoop, after: GameLoop) -> bool {
    after.last_move_time == before.last_move_time && after.first_move_deadline == before.first_move_deadline
}

/// The game's board is well formed.
pub open spec fn game_wf(g: GameLoopView) -> bool {
    board_wf(g.board)
}

/// The colour whose turn it is.
pub open spec fn current_turn(g: GameLoopView) -> Color {
    if g.is_white_turn { Color::White } else { Color::Black }
}

pub open spec fn hand_of(g: GameLoopView, c: Color) -> Seq<CardInstance> {
    match c {
        Color::White => g.white_hand,
        Color::Black => g.black_hand,
    }
}

pub open spec fn with_hand(g: GameLoopView, c: Color, h: Seq<CardInstance>) -> GameLoopView {
    match c {
        Color::White => GameLoopView { white_hand: h, ..g },
        Color::Black => GameLoopView { black_hand: h, ..g },
    }
}

/// The state of a game that was just created.
pub open spec fn initial_game() -> GameLoopView {
    GameLoopView {
        counter: 0,
        running: false,
        started: false,
        ended: false,
        is_white_turn: true,
        board: initial_board(),
        white_card: Seq::empty(),
        black_card: Seq::empty(),
        global_card: Seq::empty(),
        global_deck: Seq::empty(),
        discard_pile: Seq::empty(),
        forced_draws: ForcedDrawsView { white: Seq::empty(), black: Seq::empty() },
        white_hand: Seq::empty(),
        black_hand: Seq::empty(),
        card_played_this_turn: None,
        custom_deck: None,
        white_time_ms: INITIAL_TIME_MS,
        black_time_ms: INITIAL_TIME_MS,
        timer_running: false,
        first_move_played: false,
        action_taken_this_turn: false,
        initial_time_ms: INITIAL_TIME_MS,
        white_vote_draw: false,
        black_vote_draw: false,
    }
}

/// A new game, and a restarted one, has a well-formed board.
pub proof fn lemma_fresh_games_wf(g: GameLoopView)
    ensures
        game_wf(initial_game()),
        game_wf(restarted(g)),
{
}

/// A copy of a sequence of cards.
fn copy_cards(v: &Vec<CardInstance>) -> (r: Vec<CardInstance>)
    ensures
        r@ == v@,
{
    let mut r: Vec<CardInstance> = Vec::new();
    let mut i: usize = 0;
    while i < v.len()
        invariant
            i <= v.len(),
            r@ == v@.subrange(0, i as int),
        decreases v.len() - i,
    {
        r.push(v[i]);
        i = i + 1;
        assert(r@ =~= v@.subrange(0, i as int));
    }
    assert(v@.subrange(0, v.len() as int) =~= v@);
    r
}

impl Default for GameLoop {
    fn default() -> (r: GameLoop)
        ensures
            r@ == initial_game(),
    {
        let start = now();
        let deadline = now();
        GameLoop {
            counter: 0,
            running: false,
            started: false,
            ended: false,
            is_white_turn: true,
            board: Board::default(),
            white_card: Vec::new(),
            black_card: Vec::new(),
            global_card: Vec::new(),
            global_deck: Vec::new(),
            discard_pile: Vec::new(),
            forced_draws: ForcedDraws::new(),
            white_hand: Vec::new(),
            black_hand: Vec::new(),
            card_played_this_turn: None,
            custom_deck: None,
            white_time_ms: INITIAL_TIME_MS,
            black_time_ms: INITIAL_TIME_MS,
            last_move_time: start,
            timer_running: false,
            first_move_played: false,
            first_move_deadline: deadline,
            action_taken_this_turn: false,
            initial_time_ms: INITIAL_TIME_MS,
            white_vote_draw: false,
            black_vote_draw: false,
        }
    }
}

impl GameLoop {
    pub fn new() -> (r: GameLoop)
        ensures
            r@ == initial_game(),
    {
        GameLoop::default()
    }

    /// Whether the game's board is well formed.
    pub fn is_well_formed(&self) -> (r: bool)
        ensures
            r == game_wf(self@),
    {
        self.board.is_well_formed()
    }

    /// Sets the starting time of both clocks, and both clocks to it.
    pub fn set_initial_time(&mut self, ms: u64)
        ensures
            clock_readings_kept(*old(self), *final(self)),
            final(self)@ == (GameLoopView { initial_time_ms: ms, white_time_ms: ms, black_time_ms: ms, ..old(self)@ }),
    {
        self.initial_time_ms = ms;
        self.white_time_ms = ms;
        self.black_time_ms = ms;
    }

    /// The deck that the next deal shuffles in place of the common one.
    pub fn set_custom_deck(&mut self, deck: Vec<CardInstance>)
        ensures
            clock_readings_kept(*old(self), *final(self)),
            final(self)@ == (GameLoopView { custom_deck: Some(deck@), ..old(self)@ }),
    {
        self.custom_deck = Some(deck);
    }

    pub fn end(&mut self)
        ensures
            clock_readings_kept(*old(self), *final(self)),
            final(self)@ == (GameLoopView { running: false, ended: true, ..old(self)@ }),
    {
        self.running = false;
        self.ended = true;
    }

    /// Copies of the white and the black hand.
    pub fn get_hands(&self) -> (r: (Vec<CardInstance>, Vec<CardInstance>))
        ensures
            r.0@ == self@.white_hand,
            r.1@ == self@.black_hand,
    {
        (copy_cards(&self.white_hand), copy_cards(&self.black_hand))
    }

    /// The clock multipliers of white and black.
    pub fn get_time_multipliers(&self) -> (r: (u8, u8))
        ensures
            r == (time_multiplier_of(self@.board.card_state, Color::White), time_multiplier_of(self@.board.card_state, Color::Black)),
    {
        (
            self.board.card_state.get_time_multiplier(Color::White),
            self.board.card_state.get_time_multiplier(Color::Black),
        )
    }

    fn hand_push(&mut self, color: Color, card: CardInstance)
        ensures
            clock_readings_kept(*old(self), *final(self)),
            final(self)@ == with_hand(old(self)@, color, hand_of(old(self)@, color).push(card)),
    {
        match color {
            Color::White => self.white_hand.push(card),
            Color::Black => self.black_hand.push(card),
        }
    }
}

/// What one draw for `c` may leave and return. A card queued for `c` comes
/// first; else the first card of the deck; an empty deck is first refilled
/// with the discard pile in some order.
pub open spec fn draw_outcome(g: GameLoopView, c: Color, after: GameLoopView, r: Option<CardInstance>) -> bool {
    let q = g.forced_draws.queue(c);
    if q.len() > 0 {
        &&& r == Some(q[0])
        &&& after == with_hand(
            GameLoopView { forced_draws: g.forced_draws.with_queue(c, q.drop_first()), ..g },
            c,
            hand_of(g, c).push(q[0]),
        )
    } else if g.global_deck.len() > 0 {
        &&& r == Some(g.global_deck[0])
        &&& after == with_hand(
            GameLoopView { global_deck: g.global_deck.drop_first(), ..g },
            c,
            hand_of(g, c).push(g.global_deck[0]),
        )
    } else if g.discard_pile.len() == 0 {
        r is None && after == g
    } else {
        exists|d: Seq<CardInstance>| #[trigger] refilled_draw(g, c, d, after, r)
    }
}

/// A draw from the discard pile shuffled into the order `d`.
pub open spec fn refilled_draw(g: GameLoopView, c: Color, d: Seq<CardInstance>, after: GameLoopView, r: Option<CardInstance>) -> bool {
    &&& d.to_multiset() == g.discard_pile.to_multiset()
    &&& d.len() > 0
    &&& r == Some(d[0])
    &&& after == with_hand(
        GameLoopView { global_deck: d.drop_first(), discard_pile: Seq::empty(), ..g },
        c,
        hand_of(g, c).push(d[0]),
    )
}

/// What `n` draws for `c` in a row may leave.
pub open spec fn draws_outcome(g: GameLoopView, c: Color, n: nat, after: GameLoopView) -> bool
    decreases n,
{
    if n == 0 {
        after == g
    } else {
        exists|mid: GameLoopView, r: Option<CardInstance>|
            draws_outcome(g, c, (n - 1) as nat, mid) && #[trigger] draw_outcome(mid, c, after, r)
    }
}

impl GameLoop {
    /// Refills an empty deck with the discard pile, shuffled.
    fn recycle_discard_if_needed(&mut self)
        ensures
            clock_readings_kept(*old(self), *final(self)),
            old(self)@.global_deck.len() == 0 && old(self)@.discard_pile.len() > 0 ==> {
                &&& final(self)@ == (GameLoopView {
                    global_deck: final(self)@.global_deck,
                    discard_pile: Seq::empty(),
                    ..old(self)@
                })
                &&& final(self)@.global_deck.to_multiset() == old(self)@.discard_pile.to_multiset()
                &&& final(self)@.global_deck.len() == old(self)@.discard_pile.len()
            },
            !(old(self)@.global_deck.len() == 0 && old(self)@.discard_pile.len() > 0) ==> final(self)@ == old(self)@,
    {
        if self.global_deck.len() == 0 && self.discard_pile.len() > 0 {
            let mut deck: Vec<CardInstance> = Vec::new();
            std::mem::swap(&mut deck, &mut self.discard_pile);
            let ghost before = deck@;
            shuffle(&mut deck);
            proof {
                before.to_multiset_ensures();
                deck@.to_multiset_ensures();
            }
            self.global_deck = deck;
        }
    }

    /// Draws one card for `color` from the deck, refilled first if empty.
    fn draw_from_deck(&mut self, color: Color) -> (r: Option<CardInstance>)
        requires
            old(self)@.forced_draws.queue(color).len() == 0,
        ensures
            clock_readings_kept(*old(self), *final(self)),
            draw_outcome(old(self)@, color, final(self)@, r),
            final(self)@.board == old(self)@.board,
    {
        let ghost g = self@;
        self.recycle_discard_if_needed();
        if self.global_deck.len() == 0 {
            return None;
        }
        let ghost d = self@.global_deck;
        let card = self.global_deck.remove(0);
        assert(self@.global_deck =~= d.drop_first());
        self.hand_push(color, card);
        proof {
            if g.global_deck.len() == 0 {
                assert(refilled_draw(g, color, d, self@, Some(card)));
            }
        }
        Some(card)
    }

    /// Draws one card for `color` into its hand.
    pub fn draw_card(&mut self, color: Color) -> (r: Option<CardInstance>)
        ensures
            clock_readings_kept(*old(self), *final(self)),
            draw_outcome(old(self)@, color, final(self)@, r),
            final(self)@.board == old(self)@.board,
    {
        match self.forced_draws.pop_front(color) {
            Some(card) => {
                self.hand_push(color, card);
                Some(card)
            }
            None => self.draw_from_deck(color),
        }
    }
}

/// Both hands put on the discard pile, white's first.
pub open spec fn hands_discarded(g: GameLoopView) -> GameLoopView {
    GameLoopView {
        discard_pile: g.discard_pile + g.white_hand + g.black_hand,
        white_hand: Seq::empty(),
        black_hand: Seq::empty(),
        ..g
    }
}

/// What the wheel of fortune may leave: both hands discarded, then a full hand
/// drawn for white and then for black.
pub open spec fn redraw_outcome(g: GameLoopView, after: GameLoopView) -> bool {
    exists|mid: GameLoopView|
        #[trigger] draws_outcome(hands_discarded(g), Color::White, HAND_SIZE as nat, mid)
        && draws_outcome(mid, Color::Black, HAND_SIZE as nat, after)
}

/// The end-of-turn bookkeeping before drawing: the card played this turn goes
/// to the discard pile (garbage goes nowhere), and the card action is free again.
pub open spec fn turn_card_discarded(g: GameLoopView) -> GameLoopView {
    let g1 = match g.card_played_this_turn {
        Some(c) => GameLoopView {
            card_played_this_turn: None,
            discard_pile: if c.0 != CardId::Garbage { g.discard_pile.push(c) } else { g.discard_pile },
            ..g
        },
        None => g,
    };
    GameLoopView { action_taken_this_turn: false, ..g1 }
}

/// How many cards bring the hand of `c` back to a full hand.
pub open spec fn cards_missing(g: GameLoopView, c: Color) -> nat {
    if hand_of(g, c).len() < HAND_SIZE { (HAND_SIZE - hand_of(g, c).len()) as nat } else { 0 }
}

/// The common deck: two of each of ten cards, at rarity 0.
pub open spec fn default_deck() -> Seq<CardInstance> {
    seq![
        (CardId::TimeBoost, 0u8), (CardId::TimeBoost, 0u8),
        (CardId::RussianRoulette, 0u8), (CardId::RussianRoulette, 0u8),
        (CardId::Journey, 0u8), (CardId::Journey, 0u8),
        (CardId::CrazyKnight, 0u8), (CardId::CrazyKnight, 0u8),
        (CardId::BeastWork, 0u8), (CardId::BeastWork, 0u8),
        (CardId::FuriousMason, 0u8), (CardId::FuriousMason, 0u8),
        (CardId::CatchTheKnightThief, 0u8), (CardId::CatchTheKnightThief, 0u8),
        (CardId::BeastOfBurden, 0u8), (CardId::BeastOfBurden, 0u8),
        (CardId::Bestification, 0u8), (CardId::Bestification, 0u8),
        (CardId::HermitArchitect, 0u8), (CardId::HermitArchitect, 0u8),
    ]
}

/// The cards that a deal shuffles: the custom deck if one was set, else the
/// common deck.
pub open spec fn deal_source(g: GameLoopView) -> Seq<CardInstance> {
    match g.custom_deck {
        Some(d) => d,
        None => default_deck(),
    }
}

pub open spec fn min_int(a: int, b: int) -> int {
    if a < b { a } else { b }
}

/// The game after dealing the deck `d`: five cards to white, the next five to
/// black, the rest as the common deck, an empty discard pile, no custom deck.
pub open spec fn dealt(g: GameLoopView, d: Seq<CardInstance>) -> GameLoopView {
    let a = min_int(INITIAL_HAND_SIZE as int, d.len() as int);
    let b = min_int(2 * INITIAL_HAND_SIZE as int, d.len() as int);
    GameLoopView {
        custom_deck: None,
        white_hand: d.subrange(0, a),
        black_hand: d.subrange(a, b),
        global_deck: d.subrange(b, d.len() as int),
        discard_pile: Seq::empty(),
        ..g
    }
}

/// What a deal may leave: the source deck in some order, dealt.
pub open spec fn deal_outcome(g: GameLoopView, after: GameLoopView) -> bool {
    exists|d: Seq<CardInstance>| d.to_multiset() == deal_source(g).to_multiset() && after == #[trigger] dealt(g, d)
}

/// A deck for trying cards out by hand.
fn debug_deck() -> (r: Vec<CardInstance>)
    ensures
        r@.len() == 15,
{
    let mut d: Vec<CardInstance> = Vec::new();
    d.push((CardId::Battlefield, 2));
    d.push((CardId::Battlefield, 1));
    d.push((CardId::Battlefield, 1));
    d.push((CardId::Battlefield, 2));
    d.push((CardId::Battlefield, 2));
    d.push((CardId::Cannon, 2));
    d.push((CardId::Sniper, 1));
    d.push((CardId::Trash, 1));
    d.push((CardId::PushBack, 2));
    d.push((CardId::Battlefield, 2));
    d.push((CardId::Cannon, 2));
    d.push((CardId::Sniper, 1));
    d.push((CardId::Trash, 1));
    d.push((CardId::PushBack, 2));
    d.push((CardId::Battlefield, 2));
    d
}

fn default_common_deck() -> (r: Vec<CardInstance>)
    ensures
        r@ == default_deck(),
{
    let ids: Vec<CardId> = vec![
        CardId::TimeBoost, CardId::RussianRoulette, CardId::Journey, CardId::CrazyKnight, CardId::BeastWork,
        CardId::FuriousMason, CardId::CatchTheKnightThief, CardId::BeastOfBurden, CardId::Bestification,
        CardId::HermitArchitect,
    ];
    let mut deck: Vec<CardInstance> = Vec::new();
    let mut i: usize = 0;
    while i < ids.len()
        invariant
            i <= ids.len(),
            ids@.len() == 10,
            deck@.len() == 2 * i,
            forall|k: int| 0 <= k < 2 * i ==> #[trigger] deck@[k] == (ids@[k / 2], 0u8),
        decreases ids.len() - i,
    {
        let c = ids[i];
        deck.push((c, 0));
        deck.push((c, 0));
        i = i + 1;
    }
    assert(deck@ =~= default_deck());
    deck
}

/// The cards of `v` from `lo` up to `hi`.
fn cards_between(v: &Vec<CardInstance>, lo: usize, hi: usize) -> (r: Vec<CardInstance>)
    requires
        lo <= hi <= v.len(),
    ensures
        r@ == v@.subrange(lo as int, hi as int),
{
    let mut r: Vec<CardInstance> = Vec::new();
    let mut i: usize = lo;
    while i < hi
        invariant
            lo <= i <= hi,
            hi <= v.len(),
            r@ == v@.subrange(lo as int, i as int),
        decreases hi - i,
    {
        r.push(v[i]);
        i = i + 1;
        assert(r@ =~= v@.subrange(lo as int, i as int));
    }
    r
}

impl GameLoop {
    /// Draws `n` cards for `color`, one after the other.
    fn draw_n(&mut self, color: Color, n: usize)
        ensures
            clock_readings_kept(*old(self), *final(self)),
            draws_outcome(old(self)@, color, n as nat, final(self)@),
            final(self)@.board == old(self)@.board,
    {
        let ghost g = self@;
        let mut i: usize = 0;
        while i < n
            invariant
                i <= n,
                draws_outcome(g, color, i as nat, self@),
                self@.board == g.board,
                clock_readings_kept(*old(self), *self),
            decreases n - i,
        {
            let ghost mid = self@;
            let r = self.draw_card(color);
            assert(draws_outcome(g, color, (i + 1) as nat, self@)) by {
                assert(draw_outcome(mid, color, self@, r));
            }
            i = i + 1;
        }
    }

    /// Discards both hands and deals a full hand to each colour again.
    pub fn discard_all_and_redraw(&mut self, _player: Color)
        ensures
            clock_readings_kept(*old(self), *final(self)),
            redraw_outcome(old(self)@, final(self)@),
            final(self)@.board == old(self)@.board,
    {
        let ghost g = self@;
        let mut white: Vec<CardInstance> = Vec::new();
        let mut black: Vec<CardInstance> = Vec::new();
        std::mem::swap(&mut white, &mut self.white_hand);
        std::mem::swap(&mut black, &mut self.black_hand);
        self.discard_pile.append(&mut white);
        self.discard_pile.append(&mut black);
        assert(self@ == hands_discarded(g));
        self.draw_n(Color::White, HAND_SIZE);
        let ghost mid = self@;
        self.draw_n(Color::Black, HAND_SIZE);
        assert(draws_outcome(hands_discarded(g), Color::White, HAND_SIZE as nat, mid));
    }

    /// At the end of a turn: discards the card played this turn, frees the card
    /// action, and draws `color` back to a full hand.
    pub fn discard_and_draw_if_needed(&mut self, color: Color)
        ensures
            clock_readings_kept(*old(self), *final(self)),
            draws_outcome(
                turn_card_discarded(old(self)@),
                color,
                cards_missing(old(self)@, color),
                final(self)@,
            ),
            final(self)@.board == old(self)@.board,
    {
        self.discard_turn_card();
        let hand_len = match color {
            Color::White => self.white_hand.len(),
            Color::Black => self.black_hand.len(),
        };
        let to_draw = HAND_SIZE.saturating_sub(hand_len);
        self.draw_n(color, to_draw);
    }

    fn discard_turn_card(&mut self)
        ensures
            clock_readings_kept(*old(self), *final(self)),
            final(self)@ == turn_card_discarded(old(self)@),
    {
        match self.card_played_this_turn.take() {
            Some(c) => {
                if c.0 != CardId::Garbage {
                    self.discard_pile.push(c);
                }
            }
            None => {}
        }
        self.action_taken_this_turn = false;
    }

    /// Takes the custom deck, or else the common deck, shuffled.
    fn shuffled_source(&mut self) -> (d: Vec<CardInstance>)
        ensures
            clock_readings_kept(*old(self), *final(self)),
            d@.to_multiset() == deal_source(old(self)@).to_multiset(),
            final(self)@ == (GameLoopView { custom_deck: None, ..old(self)@ }),
    {
        let custom = self.custom_deck.take();
        match custom {
            Some(d) => {
                let mut d = d;
                shuffle(&mut d);
                d
            }
            None => {
                if USE_DEBUG_DECK {
                    debug_deck()
                } else {
                    let mut d = default_common_deck();
                    shuffle(&mut d);
                    d
                }
            }
        }
    }

    /// Deals `deck`: five cards to white, five to black, the rest to the deck.
    fn deal(&mut self, deck: Vec<CardInstance>)
        ensures
            clock_readings_kept(*old(self), *final(self)),
            final(self)@ == dealt(old(self)@, deck@),
    {
        let n = deck.len();
        let a = if n < INITIAL_HAND_SIZE { n } else { INITIAL_HAND_SIZE };
        let b = if n < 2 * INITIAL_HAND_SIZE { n } else { 2 * INITIAL_HAND_SIZE };
        assert(a == min_int(INITIAL_HAND_SIZE as int, n as int));
        assert(b == min_int(2 * INITIAL_HAND_SIZE as int, n as int));
        let white = cards_between(&deck, 0, a);
        let black = cards_between(&deck, a, b);
        let rest = cards_between(&deck, b, n);
        self.custom_deck = None;
        self.white_hand = white;
        self.black_hand = black;
        self.global_deck = rest;
        self.discard_pile = Vec::new();
    }

    /// Shuffles the custom deck, or else the common deck, and deals it.
    fn shuffle_and_deal(&mut self)
        ensures
            clock_readings_kept(*old(self), *final(self)),
            deal_outcome(old(self)@, final(self)@),
    {
        let ghost g = self@;
        let deck = self.shuffled_source();
        let ghost d = deck@;
        self.deal(deck);
        assert(dealt(GameLoopView { custom_deck: None, ..g }, d) == dealt(g, d));
    }

    /// Starts the game: the first move is due within the first-move timeout,
    /// and the cards are dealt if neither hand holds any.
    pub fn start(&mut self)
        ensures
            ({
                let g = GameLoopView { running: true, started: true, ..old(self)@ };
                if g.white_hand.len() == 0 && g.black_hand.len() == 0 {
                    deal_outcome(g, final(self)@)
                } else {
                    final(self)@ == g
                }
            }),
            final(self).last_move_time == old(self).last_move_time,
    {
        self.running = true;
        self.started = true;
        let t = now();
        self.first_move_deadline = match later_by_secs(&t, FIRST_MOVE_TIMEOUT_SECS) {
            Some(d) => d,
            None => t,
        };
        let hands_empty = self.white_hand.len() == 0 && self.black_hand.len() == 0;
        if hands_empty {
            self.shuffle_and_deal();
        }
    }
}

/// The game as `restart` leaves it: a fresh board, no cards anywhere, white to
/// move, clocks reset and stopped. The custom deck and the running flag stay.
pub open spec fn restarted(g: GameLoopView) -> GameLoopView {
    clock_reset(GameLoopView {
        counter: 0,
        started: false,
        ended: false,
        is_white_turn: true,
        first_move_played: false,
        board: initial_board(),
        global_deck: Seq::empty(),
        discard_pile: Seq::empty(),
        forced_draws: ForcedDrawsView { white: Seq::empty(), black: Seq::empty() },
        white_hand: Seq::empty(),
        black_hand: Seq::empty(),
        card_played_this_turn: None,
        action_taken_this_turn: false,
        ..g
    })
}

/// The first position from `i` on of a card `id` in the hand.
pub open spec fn find_card(h: Seq<CardInstance>, id: CardId, i: int) -> Option<int>
    decreases h.len() - i,
{
    if i < 0 || i >= h.len() {
        None
    } else if h[i].0 == id {
        Some(i)
    } else {
        find_card(h, id, i + 1)
    }
}

/// The card found from position `i` on has the id looked for.
pub proof fn lemma_find_card(h: Seq<CardInstance>, id: CardId, i: int)
    requires
        0 <= i <= h.len(),
    ensures
        find_card(h, id, i) matches Some(p) ==> i <= p < h.len() && h[p].0 == id,
        find_card(h, id, i) is None ==> forall|k: int| i <= k < h.len() ==> h[k].0 != id,
    decreases h.len() - i,
{
    if i < h.len() {
        lemma_find_card(h, id, i + 1);
    }
}

/// The hand of `c` without its first card `id`, if it holds one.
pub open spec fn card_removed(g: GameLoopView, c: Color, id: CardId) -> GameLoopView {
    match find_card(hand_of(g, c), id, 0) {
        Some(p) => with_hand(g, c, hand_of(g, c).remove(p)),
        None => g,
    }
}

/// The rarity of the first card `id` in the hand of `c`.
pub open spec fn rarity_in_hand(g: GameLoopView, c: Color, id: CardId) -> Option<u8> {
    match find_card(hand_of(g, c), id, 0) {
        Some(p) => Some(hand_of(g, c)[p].1),
        None => None,
    }
}

/// Whether `player` may discard `id` now, and at which rarity.
pub open spec fn discard_gate(g: GameLoopView, id: CardId, player: Color) -> Result<u8, &'static str> {
    if player != current_turn(g) {
        Err("not your turn")
    } else if g.action_taken_this_turn {
        Err("you already used your card action this turn")
    } else {
        match rarity_in_hand(g, player, id) {
            Some(r) => Ok(r),
            None => Err("card not in hand"),
        }
    }
}

/// Whether `player` may play `id` now, and at which rarity.
pub open spec fn play_gate(g: GameLoopView, id: CardId, player: Color) -> Result<u8, &'static str> {
    if player != current_turn(g) {
        Err("not your turn")
    } else if g.card_played_this_turn is Some {
        Err("you already played a card this turn")
    } else if g.action_taken_this_turn {
        Err("you already used your card action this turn")
    } else {
        match rarity_in_hand(g, player, id) {
            Some(r) => Ok(r),
            None => Err("card not in hand"),
        }
    }
}

/// The card leaves the hand and, unless it is garbage, goes to the discard pile.
pub open spec fn card_discarded(g: GameLoopView, id: CardId, player: Color, rarity: u8) -> GameLoopView {
    let g1 = card_removed(g, player, id);
    if id != CardId::Garbage {
        GameLoopView { discard_pile: g1.discard_pile.push((id, rarity)), ..g1 }
    } else {
        g1
    }
}

/// What discarding may leave and return: a refused discard changes nothing;
/// otherwise the card is discarded, a replacement drawn, and the card action
/// of the turn used.
pub open spec fn discard_outcome(g: GameLoopView, id: CardId, player: Color, after: GameLoopView, r: Result<u8, &'static str>) -> bool {
    match discard_gate(g, id, player) {
        Err(e) => r == Err::<u8, &'static str>(e) && after == g,
        Ok(rarity) => {
            &&& r == Ok::<u8, &'static str>(rarity)
            &&& exists|mid: GameLoopView, d: Option<CardInstance>|
                #[trigger] draw_outcome(card_discarded(g, id, player, rarity), player, mid, d)
                && after == (GameLoopView { action_taken_this_turn: true, ..mid })
        },
    }
}

/// What the card itself does to the board: a card that is not playable now has
/// no effect; the roulette's victim is left open.
pub open spec fn effect_outcome(b: BoardView, card: CardId, rarity: u8, player: Color, target: CardTarget, after: BoardView, res: Result<CardResultView, &'static str>) -> bool {
    if !spec_card_playable(b, player, card) {
        after == b && res == Ok::<CardResultView, &'static str>(plain("card_no_effect"@))
    } else if card == CardId::RussianRoulette {
        roulette_outcome(b, after, res)
    } else {
        (after, res) == spec_card_effect(b, card, rarity, player, target)
    }
}

/// Two garbage cards queued for the opponent of `player`.
pub open spec fn garbage_queued(g: GameLoopView, player: Color) -> GameLoopView {
    let o = player.spec_other();
    let q = g.forced_draws.queue(o);
    GameLoopView {
        forced_draws: g.forced_draws.with_queue(o, q.push((CardId::Garbage, 0u8)).push((CardId::Garbage, 0u8))),
        ..g
    }
}

pub open spec fn trash_step(g: GameLoopView, card: CardId, player: Color) -> GameLoopView {
    if card == CardId::Trash { garbage_queued(g, player) } else { g }
}

pub open spec fn wheel_step(g: GameLoopView, card: CardId, after: GameLoopView) -> bool {
    if card == CardId::WheelOfFortune { redraw_outcome(g, after) } else { after == g }
}

/// The bookkeeping after a card took effect: garbage for the opponent after
/// the trash card, new hands after the wheel of fortune, then the card leaves
/// the hand and is recorded as the card of this turn.
pub open spec fn card_played(g: GameLoopView, card: CardId, player: Color, rarity: u8, after: GameLoopView) -> bool {
    exists|g2: GameLoopView|
        #[trigger] wheel_step(trash_step(g, card, player), card, g2)
        && after == (GameLoopView {
            card_played_this_turn: Some((card, rarity)),
            action_taken_this_turn: true,
            ..card_removed(g2, player, card)
        })
}

pub open spec fn play_view(r: Result<(CardResult, u8), &'static str>) -> Result<(CardResultView, u8), &'static str> {
    match r {
        Ok((c, k)) => Ok((c@, k)),
        Err(e) => Err(e),
    }
}

/// What playing a card may leave and return.
pub open spec fn play_outcome(g: GameLoopView, card: CardId, player: Color, target: CardTarget, after: GameLoopView, r: Result<(CardResultView, u8), &'static str>) -> bool {
    match play_gate(g, card, player) {
        Err(e) => r == Err::<(CardResultView, u8), &'static str>(e) && after == g,
        Ok(rarity) => exists|b: BoardView, res: Result<CardResultView, &'static str>|
            #[trigger] effect_outcome(g.board, card, rarity, player, target, b, res)
            && match res {
                Err(e) => r == Err::<(CardResultView, u8), &'static str>(e) && after == (GameLoopView { board: b, ..g }),
                Ok(cr) => r == Ok::<(CardResultView, u8), &'static str>((cr, rarity))
                    && card_played(GameLoopView { board: b, ..g }, card, player, rarity, after),
            },
    }
}

/// The target square lies on the board wherever playing `card` would read it.
pub open spec fn play_target_ok(g: GameLoopView, card: CardId, player: Color, target: CardTarget) -> bool {
    play_gate(g, card, player) is Ok && spec_card_playable(g.board, player, card)
        && effect_reads_target(g.board, card, player) ==> target_ok(target)
}

impl GameLoop {
    /// Resets the game to a fresh board with no cards dealt.
    pub fn restart(&mut self)
        ensures
            final(self)@ == restarted(old(self)@),
            final(self).first_move_deadline == old(self).first_move_deadline,
    {
        self.counter = 0;
        self.started = false;
        self.ended = false;
        self.is_white_turn = true;
        self.reset_timer();
        self.first_move_played = false;
        self.board = Board::default();
        self.global_deck = Vec::new();
        self.discard_pile = Vec::new();
        self.forced_draws = ForcedDraws::new();
        self.white_hand = Vec::new();
        self.black_hand = Vec::new();
        self.card_played_this_turn = None;
        self.action_taken_this_turn = false;
    }

    /// The position of the first card `id` in the hand of `color`.
    fn find_in_hand(&self, color: Color, id: CardId) -> (r: Option<usize>)
        ensures
            match r {
                Some(p) => find_card(hand_of(self@, color), id, 0) == Some(p as int),
                None => find_card(hand_of(self@, color), id, 0) is None,
            },
    {
        let hand = match color {
            Color::White => &self.white_hand,
            Color::Black => &self.black_hand,
        };
        let ghost h = hand@;
        assert(h == hand_of(self@, color));
        let mut i: usize = 0;
        while i < hand.len()
            invariant
                i <= hand.len(),
                h == hand@,
                h == hand_of(self@, color),
                find_card(h, id, 0) == find_card(h, id, i as int),
            decreases hand.len() - i,
        {
            if hand[i].0 == id {
                assert(h[i as int].0 == id);
                return Some(i);
            }
            i = i + 1;
        }
        None
    }

    /// Takes the first card `id` out of the hand of `color`, if it holds one.
    fn remove_from_hand(&mut self, color: Color, id: CardId)
        ensures
            clock_readings_kept(*old(self), *final(self)),
            final(self)@ == card_removed(old(self)@, color, id),
    {
        match self.find_in_hand(color, id) {
            Some(p) => {
                proof {
                    lemma_find_card(hand_of(self@, color), id, 0);
                }
                match color {
                    Color::White => {
                        self.white_hand.remove(p);
                    }
                    Color::Black => {
                        self.black_hand.remove(p);
                    }
                }
            }
            None => {}
        }
    }

    /// The rarity of the first card `id` in the hand of `color`.
    fn rarity_in_hand(&self, color: Color, id: CardId) -> (r: Option<u8>)
        ensures
            r == rarity_in_hand(self@, color, id),
    {
        match self.find_in_hand(color, id) {
            Some(p) => {
                proof {
                    lemma_find_card(hand_of(self@, color), id, 0);
                }
                match color {
                    Color::White => Some(self.white_hand[p].1),
                    Color::Black => Some(self.black_hand[p].1),
                }
            }
            None => None,
        }
    }

    fn discard_gate(&self, card_id: CardId, player: Color) -> (r: Result<u8, &'static str>)
        ensures
            r == discard_gate(self@, card_id, player),
    {
        let current_turn = if self.is_white_turn { Color::White } else { Color::Black };
        if player != current_turn {
            return Err("not your turn");
        }
        if self.action_taken_this_turn {
            return Err("you already used your card action this turn");
        }
        match self.rarity_in_hand(player, card_id) {
            Some(k) => Ok(k),
            None => Err("card not in hand"),
        }
    }

    /// Takes the card out of the hand and, unless it is garbage, onto the pile.
    fn put_on_discard_pile(&mut self, card_id: CardId, player: Color, rarity: u8)
        ensures
            clock_readings_kept(*old(self), *final(self)),
            final(self)@ == card_discarded(old(self)@, card_id, player, rarity),
    {
        self.remove_from_hand(player, card_id);
        if card_id != CardId::Garbage {
            self.discard_pile.push((card_id, rarity));
        }
    }

    /// Discards a card of the hand for a new one; this uses the card action of
    /// the turn. Gives the rarity of the card.
    pub fn discard_card(&mut self, card_id: CardId, player: Color) -> (r: Result<u8, &'static str>)
        ensures
            clock_readings_kept(*old(self), *final(self)),
            discard_outcome(old(self)@, card_id, player, final(self)@, r),
            final(self)@.board == old(self)@.board,
    {
        let card_rarity = match self.discard_gate(card_id, player) {
            Ok(k) => k,
            Err(e) => return Err(e),
        };
        self.put_on_discard_pile(card_id, player, card_rarity);
        let ghost before_draw = self@;
        let d = self.draw_card(player);
        let ghost mid = self@;
        self.action_taken_this_turn = true;
        assert(draw_outcome(before_draw, player, mid, d));
        Ok(card_rarity)
    }
}

impl GameLoop {
    fn play_gate(&self, card_id: CardId, player: Color) -> (r: Result<u8, &'static str>)
        ensures
            r == play_gate(self@, card_id, player),
    {
        let current_turn = if self.is_white_turn { Color::White } else { Color::Black };
        if player != current_turn {
            return Err("not your turn");
        }
        if self.card_played_this_turn.is_some() {
            return Err("you already played a card this turn");
        }
        if self.action_taken_this_turn {
            return Err("you already used your card action this turn");
        }
        match self.rarity_in_hand(player, card_id) {
            Some(k) => Ok(k),
            None => Err("card not in hand"),
        }
    }

    /// The card's effect on the board, where it is playable now.
    fn card_effect(&mut self, card_id: CardId, player: Color, target: CardTarget, rarity: u8) -> (r: Result<CardResult, &'static str>)
        requires
            game_wf(old(self)@),
            spec_card_playable(old(self)@.board, player, card_id) && effect_reads_target(old(self)@.board, card_id, player)
                ==> target_ok(target),
        ensures
            clock_readings_kept(*old(self), *final(self)),
            effect_outcome(old(self)@.board, card_id, rarity, player, target, final(self)@.board, result_view(r)),
            final(self)@ == (GameLoopView { board: final(self)@.board, ..old(self)@ }),
            game_wf(final(self)@),
    {
        if is_card_playable(&self.board, player, card_id) {
            self.board.apply_card_effect(card_id, rarity, player, target)
        } else {
            Ok(CardResult::new(string_of("card_no_effect")))
        }
    }

    fn queue_garbage_if_trash(&mut self, card_id: CardId, player: Color)
        ensures
            clock_readings_kept(*old(self), *final(self)),
            final(self)@ == trash_step(old(self)@, card_id, player),
    {
        if card_id == CardId::Trash {
            let opponent = player.other();
            self.forced_draws.push(opponent, (CardId::Garbage, 0));
            self.forced_draws.push(opponent, (CardId::Garbage, 0));
        }
    }

    fn redraw_if_wheel(&mut self, card_id: CardId, player: Color)
        ensures
            clock_readings_kept(*old(self), *final(self)),
            wheel_step(old(self)@, card_id, final(self)@),
            final(self)@.board == old(self)@.board,
    {
        if card_id == CardId::WheelOfFortune {
            self.discard_all_and_redraw(player);
        }
    }

    /// The bookkeeping after a card took effect.
    fn after_card_played(&mut self, card_id: CardId, player: Color, rarity: u8)
        ensures
            clock_readings_kept(*old(self), *final(self)),
            card_played(old(self)@, card_id, player, rarity, final(self)@),
            final(self)@.board == old(self)@.board,
    {
        let ghost g1 = self@;
        self.queue_garbage_if_trash(card_id, player);
        self.redraw_if_wheel(card_id, player);
        let ghost g2 = self@;
        self.remove_from_hand(player, card_id);
        self.card_played_this_turn = Some((card_id, rarity));
        self.action_taken_this_turn = true;
        assert(wheel_step(trash_step(g1, card_id, player), card_id, g2));
    }

    /// Plays a card of the hand: its effect when it is playable now, then the
    /// trash card's garbage for the opponent or the wheel's new hands; the card
    /// becomes the card of this turn. Gives what the card reported and its rarity.
    pub fn play_card(&mut self, card_id: CardId, player: Color, target: CardTarget) -> (r: Result<(CardResult, u8), &'static str>)
        requires
            game_wf(old(self)@),
            play_target_ok(old(self)@, card_id, player, target),
        ensures
            clock_readings_kept(*old(self), *final(self)),
            play_outcome(old(self)@, card_id, player, target, final(self)@, play_view(r)),
            game_wf(final(self)@),
    {
        let card_rarity = match self.play_gate(card_id, player) {
            Ok(k) => k,
            Err(e) => return Err(e),
        };
        let ghost g = self@;
        let result = match self.card_effect(card_id, player, target, card_rarity) {
            Ok(c) => c,
            Err(e) => {
                assert(effect_outcome(g.board, card_id, card_rarity, player, target, self@.board, Err(e)));
                return Err(e);
            }
        };
        assert(effect_outcome(g.board, card_id, card_rarity, player, target, self@.board, Ok(result@)));
        self.after_card_played(card_id, player, card_rarity);
        Ok((result, card_rarity))
    }
}

/// The cards of a player's collection that the game knows, in order, at the
/// rarity the collection gives them (cut to a byte).
pub open spec fn known_cards(cards: Seq<(Seq<char>, i16)>) -> Seq<CardInstance>
    decreases cards.len(),
{
    if cards.len() == 0 {
        Seq::empty()
    } else {
        let last = cards.last();
        known_cards(cards.drop_last()) + match card_of_code(last.0) {
            Some(c) => seq![(c, last.1 as u8)],
            None => Seq::<CardInstance>::empty(),
        }
    }
}

pub open spec fn collection_view(cards: Seq<(String, i16)>) -> Seq<(Seq<char>, i16)> {
    cards.map_values(|e: (String, i16)| (e.0@, e.1))
}

/// The deck of a game whose players' collections gave no card: each common card
/// once, at rarity 0.
pub open spec fn common_cards_once() -> Seq<CardInstance> {
    seq![
        (CardId::TimeBoost, 0u8), (CardId::RussianRoulette, 0u8), (CardId::Journey, 0u8),
        (CardId::CrazyKnight, 0u8), (CardId::BeastWork, 0u8), (CardId::FuriousMason, 0u8),
        (CardId::CatchTheKnightThief, 0u8), (CardId::BeastOfBurden, 0u8), (CardId::Bestification, 0u8),
        (CardId::HermitArchitect, 0u8),
    ]
}

/// Adds the known cards of a player's collection to the deck.
pub fn add_player_cards(deck: &mut Vec<CardInstance>, cards: &Vec<(String, i16)>)
    ensures
        final(deck)@ == old(deck)@ + known_cards(collection_view(cards@)),
{
    let mut i: usize = 0;
    while i < cards.len()
        invariant
            i <= cards.len(),
            deck@ == old(deck)@ + known_cards(collection_view(cards@).subrange(0, i as int)),
        decreases cards.len() - i,
    {
        let ghost before = collection_view(cards@).subrange(0, i as int);
        let ghost after = collection_view(cards@).subrange(0, i + 1);
        assert(after.drop_last() =~= before);
        assert(after.last() == (cards@[i as int].0@, cards@[i as int].1));
        match CardId::from_str(cards[i].0.as_str()) {
            Some(c) => {
                deck.push((c, cards[i].1 as u8));
                assert(deck@ =~= old(deck)@ + known_cards(after));
            }
            None => {
                assert(deck@ =~= old(deck)@ + known_cards(after));
            }
        }
        i = i + 1;
    }
    assert(collection_view(cards@).subrange(0, cards.len() as int) =~= collection_view(cards@));
}

/// The deck of the game: the players' cards, or the common cards once each
/// when they gave none.
pub fn deck_or_common(deck: Vec<CardInstance>) -> (r: Vec<CardInstance>)
    ensures
        r@ == (if deck@.len() == 0 { common_cards_once() } else { deck@ }),
{
    if deck.len() > 0 {
        return deck;
    }
    let mut d: Vec<CardInstance> = Vec::new();
    d.push((CardId::TimeBoost, 0));
    d.push((CardId::RussianRoulette, 0));
    d.push((CardId::Journey, 0));
    d.push((CardId::CrazyKnight, 0));
    d.push((CardId::BeastWork, 0));
    d.push((CardId::FuriousMason, 0));
    d.push((CardId::CatchTheKnightThief, 0));
    d.push((CardId::BeastOfBurden, 0));
    d.push((CardId::Bestification, 0));
    d.push((CardId::HermitArchitect, 0));
    assert(d@ =~= common_cards_once());
    d
}

/// A card of a hand as its owner is shown it.
#[derive(Debug, Clone, Copy, PartialEq, Eq, Structural)]
pub struct HandCard {
    pub card: CardId,
    pub rarity: u8,
    /// Whether the card would take effect if played now.
    pub playable: bool,
}

impl GameLoop {
    /// The hand of `color`, each card with whether it is playable now.
    pub fn hand_cards(&self, color: Color) -> (r: Vec<HandCard>)
        requires
            game_wf(self@),
        ensures
            r@.len() == hand_of(self@, color).len(),
            forall|i: int| 0 <= i < r@.len() ==> #[trigger] r@[i] == (HandCard {
                card: hand_of(self@, color)[i].0,
                rarity: hand_of(self@, color)[i].1,
                playable: spec_card_playable(self@.board, color, hand_of(self@, color)[i].0),
            }),
    {
        let hand = match color {
            Color::White => &self.white_hand,
            Color::Black => &self.black_hand,
        };
        assert(hand@ == hand_of(self@, color));
        let mut out: Vec<HandCard> = Vec::new();
        let mut i: usize = 0;
        while i < hand.len()
            invariant
                i <= hand.len(),
                hand@ == hand_of(self@, color),
                game_wf(self@),
                out@.len() == i,
                forall|k: int| 0 <= k < i ==> #[trigger] out@[k] == (HandCard {
                    card: hand@[k].0,
                    rarity: hand@[k].1,
                    playable: spec_card_playable(self@.board, color, hand@[k].0),
                }),
            decreases hand.len() - i,
        {
            let (card, rarity) = hand[i];
            let playable = is_card_playable(&self.board, color, card);
            out.push(HandCard { card, rarity, playable });
            i = i + 1;
        }
        out
    }
}

/// Every card of the game: the deck, the discard pile, the queued draws and
/// both hands.
pub open spec fn all_cards(g: GameLoopView) -> Multiset<CardInstance> {
    g.global_deck.to_multiset()
        .add(g.discard_pile.to_multiset())
        .add(g.forced_draws.white.to_multiset())
        .add(g.forced_draws.black.to_multiset())
        .add(g.white_hand.to_multiset())
        .add(g.black_hand.to_multiset())
}

proof fn lemma_first_out(q: Seq<CardInstance>)
    requires
        q.len() > 0,
    ensures
        q.drop_first().to_multiset().insert(q[0]) =~= q.to_multiset(),
{
    broadcast use vstd::seq_lib::group_to_multiset_ensures;
    assert(q.drop_first() =~= q.remove(0));
    assert(q.contains(q[0]));
}

/// A draw moves one card into the drawer's hand and makes or loses none: the
/// cards of the game stay the same, and a draw that finds no card changes
/// nothing.
pub proof fn law_draw_keeps_cards(g: GameLoopView, c: Color, after: GameLoopView, r: Option<CardInstance>)
    requires
        draw_outcome(g, c, after, r),
    ensures
        all_cards(after) =~= all_cards(g),
        r matches Some(card) ==> hand_of(after, c) == hand_of(g, c).push(card),
        r is None ==> after == g,
{
    broadcast use vstd::seq_lib::group_to_multiset_ensures;
    let q = g.forced_draws.queue(c);
    if q.len() > 0 {
        lemma_first_out(q);
    } else if g.global_deck.len() > 0 {
        lemma_first_out(g.global_deck);
    } else if g.discard_pile.len() > 0 {
        let d = choose|d: Seq<CardInstance>| #[trigger] refilled_draw(g, c, d, after, r);
        lemma_first_out(d);
        assert(g.global_deck =~= Seq::<CardInstance>::empty());
        assert(Seq::<CardInstance>::empty().to_multiset() =~= Multiset::<CardInstance>::empty());
    }
}

/// The cards that a draw for `c` can still reach: its forced draws, the deck
/// and the discard pile.
pub open spec fn draw_pool(g: GameLoopView, c: Color) -> nat {
    g.forced_draws.queue(c).len() + g.global_deck.len() + g.discard_pile.len()
}

proof fn lemma_draw_step(g: GameLoopView, c: Color, after: GameLoopView, r: Option<CardInstance>)
    requires
        draw_outcome(g, c, after, r),
    ensures
        hand_of(after, c.spec_other()) == hand_of(g, c.spec_other()),
        after.forced_draws.queue(c.spec_other()) == g.forced_draws.queue(c.spec_other()),
        g.forced_draws.queue(c).len() == 0 ==> after.forced_draws == g.forced_draws,
        draw_pool(g, c) > 0 ==> hand_of(after, c).len() == hand_of(g, c).len() + 1
            && draw_pool(after, c) == draw_pool(g, c) - 1,
        draw_pool(g, c) == 0 ==> after == g,
{
    broadcast use vstd::seq_lib::group_to_multiset_ensures;
    let q = g.forced_draws.queue(c);
    if q.len() == 0 && g.global_deck.len() == 0 && g.discard_pile.len() > 0 {
        let d = choose|d: Seq<CardInstance>| #[trigger] refilled_draw(g, c, d, after, r);
        assert(d.len() == d.to_multiset().len());
        assert(g.discard_pile.len() == g.discard_pile.to_multiset().len());
    }
}

proof fn lemma_draws(g: GameLoopView, c: Color, n: nat, after: GameLoopView)
    requires
        draws_outcome(g, c, n, after),
    ensures
        all_cards(after) =~= all_cards(g),
        hand_of(after, c.spec_other()) == hand_of(g, c.spec_other()),
        after.forced_draws.queue(c.spec_other()) == g.forced_draws.queue(c.spec_other()),
        g.forced_draws.queue(c).len() == 0 ==> after.forced_draws == g.forced_draws,
        draw_pool(g, c) >= n ==> hand_of(after, c).len() == hand_of(g, c).len() + n
            && draw_pool(after, c) == draw_pool(g, c) - n,
    decreases n,
{
    if n > 0 {
        let (mid, r) = choose|mid: GameLoopView, r: Option<CardInstance>|
            draws_outcome(g, c, (n - 1) as nat, mid) && #[trigger] draw_outcome(mid, c, after, r);
        lemma_draws(g, c, (n - 1) as nat, mid);
        lemma_draw_step(mid, c, after, r);
        law_draw_keeps_cards(mid, c, after, r);
    }
}

/// The cards in the hands, the deck and the discard pile.
pub open spec fn piles(g: GameLoopView) -> Multiset<CardInstance> {
    g.white_hand.to_multiset().add(g.black_hand.to_multiset()).add(g.global_deck.to_multiset())
        .add(g.discard_pile.to_multiset())
}

/// The wheel of fortune makes or loses no card: the hands go to the discard
/// pile and are drawn anew from the same cards. Without forced draws, and with
/// cards enough for two hands, both hands come back full; without forced
/// draws the hands, the deck and the discard pile hold the same cards as
/// before and no forced draw appears.
pub proof fn law_redraw_keeps_cards(g: GameLoopView, after: GameLoopView)
    requires
        redraw_outcome(g, after),
    ensures
        all_cards(after) =~= all_cards(g),
        g.forced_draws.white.len() == 0 && g.forced_draws.black.len() == 0
            && g.global_deck.len() + g.discard_pile.len() + g.white_hand.len() + g.black_hand.len() >= 2 * HAND_SIZE
            ==> after.white_hand.len() == HAND_SIZE && after.black_hand.len() == HAND_SIZE,
        g.forced_draws.white.len() == 0 && g.forced_draws.black.len() == 0 ==> {
            &&& after.forced_draws == g.forced_draws
            &&& piles(after) =~= piles(g)
        },
{
    broadcast use vstd::seq_lib::group_to_multiset_ensures;
    let h = hands_discarded(g);
    let mid = choose|mid: GameLoopView|
        #[trigger] draws_outcome(h, Color::White, HAND_SIZE as nat, mid)
        && draws_outcome(mid, Color::Black, HAND_SIZE as nat, after);
    vstd::seq_lib::lemma_multiset_commutative(g.discard_pile + g.white_hand, g.black_hand);
    vstd::seq_lib::lemma_multiset_commutative(g.discard_pile, g.white_hand);
    assert(all_cards(h) =~= all_cards(g));
    lemma_draws(h, Color::White, HAND_SIZE as nat, mid);
    lemma_draws(mid, Color::Black, HAND_SIZE as nat, after);
    assert(Color::White.spec_other() == Color::Black);
    assert(Color::Black.spec_other() == Color::White);
    if g.forced_draws.white.len() == 0 && g.forced_draws.black.len() == 0 {
        assert(g.forced_draws.white =~= Seq::<CardInstance>::empty());
        assert(g.forced_draws.black =~= Seq::<CardInstance>::empty());
        assert(after.forced_draws == g.forced_draws);
        assert(piles(after) =~= all_cards(after));
        assert(piles(g) =~= all_cards(g));
    }
}

/// A deal loses and makes no card: the hands and the deck hold the cards of
/// the deck that was dealt.
pub proof fn law_deal_keeps_cards(g: GameLoopView, after: GameLoopView)
    requires
        deal_outcome(g, after),
    ensures
        after.white_hand.to_multiset().add(after.black_hand.to_multiset()).add(after.global_deck.to_multiset())
            =~= deal_source(g).to_multiset(),
        after.discard_pile.len() == 0,
        after.white_hand.len() <= INITIAL_HAND_SIZE,
        after.black_hand.len() <= INITIAL_HAND_SIZE,
{
    let d = choose|d: Seq<CardInstance>| d.to_multiset() == deal_source(g).to_multiset() && after == #[trigger] dealt(g, d);
    let a = min_int(INITIAL_HAND_SIZE as int, d.len() as int);
    let b = min_int(2 * INITIAL_HAND_SIZE as int, d.len() as int);
    assert(d =~= d.subrange(0, a) + d.subrange(a, b) + d.subrange(b, d.len() as int));
    vstd::seq_lib::lemma_multiset_commutative(d.subrange(0, a) + d.subrange(a, b), d.subrange(b, d.len() as int));
    vstd::seq_lib::lemma_multiset_commutative(d.subrange(0, a), d.subrange(a, b));
}

/// A discard moves the card from the hand to the discard pile, where garbage
/// leaves the game instead, and the replacement draw makes or loses no card.
#[verifier::spinoff_prover]
#[verifier::rlimit(40)]
pub proof fn law_discard_keeps_cards(g: GameLoopView, id: CardId, player: Color, after: GameLoopView, r: Result<u8, &'static str>)
    requires
        discard_outcome(g, id, player, after, r),
    ensures
        r is Err ==> after == g,
        r is Ok && id != CardId::Garbage ==> all_cards(after) =~= all_cards(g),
        r matches Ok(k) ==> (id == CardId::Garbage ==> all_cards(after) =~= all_cards(g).remove((id, k))),
{
    broadcast use vstd::seq_lib::group_to_multiset_ensures;
    if let Ok(k) = discard_gate(g, id, player) {
        let mid = choose|mid: GameLoopView, d: Option<CardInstance>|
            #[trigger] draw_outcome(card_discarded(g, id, player, k), player, mid, d)
            && after == (GameLoopView { action_taken_this_turn: true, ..mid });
        let d = choose|d: Option<CardInstance>|
            #[trigger] draw_outcome(card_discarded(g, id, player, k), player, mid.0, d)
            && after == (GameLoopView { action_taken_this_turn: true, ..mid.0 });
        law_draw_keeps_cards(card_discarded(g, id, player, k), player, mid.0, d);
        let h = hand_of(g, player);
        let p = find_card(h, id, 0)->0;
        lemma_find_card(h, id, 0);
        assert(h[p] == (id, k));
        assert(h.contains((id, k)));
        assert(h.remove(p).to_multiset() =~= h.to_multiset().remove((id, k)));
        assert(all_cards(after) =~= all_cards(mid.0));
    }
}

} // verus!
