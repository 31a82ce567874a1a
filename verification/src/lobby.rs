//! The two seats of a game's lobby.
use vstd::prelude::*;
use crate::board::types::Color;
use crate::text::{str_eq, string_of};

verus! {

/// The first player to join plays white, the second black.
#[derive(Debug, Clone, Copy, PartialEq, Eq, Structural)]
pub enum PlayerId {
    Player1,
    Player2,
}

impl PlayerId {
    pub open spec fn spec_idx(self) -> usize {
        match self {
            PlayerId::Player1 => 0,
            PlayerId::Player2 => 1,
        }
    }

    pub open spec fn spec_other(self) -> PlayerId {
        match self {
            PlayerId::Player1 => PlayerId::Player2,
            PlayerId::Player2 => PlayerId::Player1,
        }
    }

    /// The colour that this seat plays.
    pub open spec fn color(self) -> Color {
        match self {
            PlayerId::Player1 => Color::White,
            PlayerId::Player2 => Color::Black,
        }
    }

    /// The seat's index in the lobby.
    #[verifier::when_used_as_spec(spec_idx)]
    pub fn idx(self) -> (r: usize)
        ensures
            r == self.spec_idx(),
    {
        match self {
            PlayerId::Player1 => 0,
            PlayerId::Player2 => 1,
        }
    }

    /// The seat's name in messages.
    pub fn label(self) -> (r: &'static str)
        ensures
            r@ == (match self {
                PlayerId::Player1 => "player1"@,
                PlayerId::Player2 => "player2"@,
            }),
    {
        match self {
            PlayerId::Player1 => "player1",
            PlayerId::Player2 => "player2",
        }
    }

    /// The other seat.
    #[verifier::when_used_as_spec(spec_other)]
    pub fn other(self) -> (r: PlayerId)
        ensures
            r == self.spec_other(),
    {
        match self {
            PlayerId::Player1 => PlayerId::Player2,
            PlayerId::Player2 => PlayerId::Player1,
        }
    }

    /// The colour that this seat plays.
    pub fn player_color(self) -> (r: Color)
        ensures
            r == self.color(),
    {
        match self {
            PlayerId::Player1 => Color::White,
            PlayerId::Player2 => Color::Black,
        }
    }
}

/// The other seat of the other seat is the seat itself, and the two seats play
/// opposite colours.
pub proof fn lemma_other_seat(id: PlayerId)
    ensures
        id.spec_other().spec_other() == id,
        id.spec_other() != id,
        id.spec_other().color() == id.color().spec_other(),
{
}

/// Who sits in a seat.
#[derive(Debug)]
pub struct Seat {
    pub user_id: String,
    pub username: String,
    pub picture_id: String,
}

pub struct SeatView {
    pub user_id: Seq<char>,
    pub username: Seq<char>,
    pub picture_id: Seq<char>,
}

impl View for Seat {
    type V = SeatView;

    open spec fn view(&self) -> SeatView {
        SeatView { user_id: self.user_id@, username: self.username@, picture_id: self.picture_id@ }
    }
}

/// The two seats of a game, and the seat that each user who ever sat was given,
/// so that a user who comes back gets the same seat.
#[derive(Debug)]
pub struct Seating {
    pub seats: Vec<Option<Seat>>,
    pub user_slots: Vec<(String, PlayerId)>,
}

pub struct SeatingView {
    pub seats: Seq<Option<SeatView>>,
    pub user_slots: Seq<(Seq<char>, PlayerId)>,
}

impl View for Seating {
    type V = SeatingView;

    open spec fn view(&self) -> SeatingView {
        SeatingView {
            seats: self.seats@.map_values(|o: Option<Seat>| match o {
                Some(s) => Some(s@),
                None => None,
            }),
            user_slots: self.user_slots@.map_values(|e: (String, PlayerId)| (e.0@, e.1)),
        }
    }
}

/// Two seats, and no user named twice among the remembered seats.
pub open spec fn seating_wf(s: SeatingView) -> bool {
    &&& s.seats.len() == 2
    &&& forall|i: int, j: int| 0 <= i < j < s.user_slots.len() ==> #[trigger] s.user_slots[i].0 != #[trigger] s.user_slots[j].0
}

/// The position of `u` among the remembered seats.
pub open spec fn slot_index(m: Seq<(Seq<char>, PlayerId)>, u: Seq<char>) -> Option<int> {
    if exists|i: int| 0 <= i < m.len() && #[trigger] m[i].0 == u {
        Some(choose|i: int| 0 <= i < m.len() && #[trigger] m[i].0 == u)
    } else {
        None
    }
}

/// The seat remembered for `u`, or `u` remembered in seat `p`.
pub open spec fn slots_with(m: Seq<(Seq<char>, PlayerId)>, u: Seq<char>, p: PlayerId) -> Seq<(Seq<char>, PlayerId)> {
    match slot_index(m, u) {
        Some(i) => m.update(i, (u, p)),
        None => m.push((u, p)),
    }
}

pub open spec fn seat_user(s: SeatingView, p: PlayerId) -> Option<Seq<char>> {
    match s.seats[p.spec_idx() as int] {
        Some(x) => Some(x.user_id),
        None => None,
    }
}

/// The seating after `seat` asks to join, and the seat it got. A user who sat
/// before gets the same seat back if it is free or still theirs; otherwise a
/// newcomer takes the first free seat and is remembered there; with both seats
/// taken there is none.
pub open spec fn connect_outcome(s: SeatingView, seat: SeatView) -> (SeatingView, Option<PlayerId>) {
    let back = match slot_index(s.user_slots, seat.user_id) {
        Some(i) => {
            let p = s.user_slots[i].1;
            seat_user(s, p) is None || seat_user(s, p) == Some(seat.user_id)
        },
        None => false,
    };
    if back {
        let p = s.user_slots[slot_index(s.user_slots, seat.user_id)->0].1;
        (SeatingView { seats: s.seats.update(p.spec_idx() as int, Some(seat)), ..s }, Some(p))
    } else if s.seats[0] is None {
        (
            SeatingView {
                seats: s.seats.update(0, Some(seat)),
                user_slots: slots_with(s.user_slots, seat.user_id, PlayerId::Player1),
            },
            Some(PlayerId::Player1),
        )
    } else if s.seats[1] is None {
        (
            SeatingView {
                seats: s.seats.update(1, Some(seat)),
                user_slots: slots_with(s.user_slots, seat.user_id, PlayerId::Player2),
            },
            Some(PlayerId::Player2),
        )
    } else {
        (s, None)
    }
}

impl Seating {
    pub fn new() -> (r: Seating)
        ensures
            seating_wf(r@),
            r@.seats == seq![None::<SeatView>, None::<SeatView>],
            r@.user_slots == Seq::<(Seq<char>, PlayerId)>::empty(),
    {
        let mut seats: Vec<Option<Seat>> = Vec::new();
        seats.push(None);
        seats.push(None);
        let r = Seating { seats, user_slots: Vec::new() };
        assert(r@.seats =~= seq![None::<SeatView>, None::<SeatView>]);
        assert(r@.user_slots =~= Seq::<(Seq<char>, PlayerId)>::empty());
        r
    }

    /// Whether there are two seats and no user is remembered twice.
    pub fn is_well_formed(&self) -> (r: bool)
        ensures
            r == seating_wf(self@),
    {
        if self.seats.len() != 2 {
            return false;
        }
        let n = self.user_slots.len();
        let mut j: usize = 0;
        while j < n
            invariant
                j <= n,
                n == self@.user_slots.len(),
                self@.seats.len() == 2,
                forall|a: int, b: int| 0 <= a < b < j ==> #[trigger] self@.user_slots[a].0 != #[trigger] self@.user_slots[b].0,
            decreases n - j,
        {
            let mut i: usize = 0;
            while i < j
                invariant
                    i <= j,
                    j < n,
                    n == self@.user_slots.len(),
                    forall|a: int, b: int| 0 <= a < b < j ==> #[trigger] self@.user_slots[a].0 != #[trigger] self@.user_slots[b].0,
                    forall|a: int| 0 <= a < i ==> self@.user_slots[a].0 != self@.user_slots[j as int].0,
                decreases j - i,
            {
                assert(self@.user_slots[i as int].0 == self.user_slots@[i as int].0@);
                assert(self@.user_slots[j as int].0 == self.user_slots@[j as int].0@);
                if str_eq(self.user_slots[i].0.as_str(), self.user_slots[j].0.as_str()) {
                    return false;
                }
                i = i + 1;
            }
            j = j + 1;
        }
        true
    }

    /// The position of `user_id` among the remembered seats.
    fn find_user(&self, user_id: &str) -> (r: Option<usize>)
        requires
            seating_wf(self@),
        ensures
            match r {
                Some(i) => slot_index(self@.user_slots, user_id@) == Some(i as int),
                None => slot_index(self@.user_slots, user_id@) is None,
            },
    {
        let mut i: usize = 0;
        while i < self.user_slots.len()
            invariant
                i <= self.user_slots.len(),
                seating_wf(self@),
                forall|k: int| 0 <= k < i ==> self@.user_slots[k].0 != user_id@,
            decreases self.user_slots.len() - i,
        {
            assert(self@.user_slots[i as int].0 == self.user_slots@[i as int].0@);
            if str_eq(self.user_slots[i].0.as_str(), user_id) {
                assert(self@.user_slots[i as int].0 == user_id@);
                let ghost j = choose|j: int| 0 <= j < self@.user_slots.len() && #[trigger] self@.user_slots[j].0 == user_id@;
                assert(j == i as int) by {
                    if j != i as int {
                        if j < i as int {
                            assert(self@.user_slots[j].0 != self@.user_slots[i as int].0);
                        } else {
                            assert(self@.user_slots[i as int].0 != self@.user_slots[j].0);
                        }
                    }
                }
                return Some(i);
            }
            i = i + 1;
        }
        None
    }

    /// Remembers `user_id` in seat `p`.
    fn remember(&mut self, user_id: &str, p: PlayerId)
        requires
            seating_wf(old(self)@),
        ensures
            seating_wf(final(self)@),
            final(self)@ == (SeatingView { user_slots: slots_with(old(self)@.user_slots, user_id@, p), ..old(self)@ }),
    {
        let ghost m = self@.user_slots;
        match self.find_user(user_id) {
            Some(i) => {
                self.user_slots.set(i, (string_of(user_id), p));
                assert(self@.user_slots =~= m.update(i as int, (user_id@, p)));
            }
            None => {
                self.user_slots.push((string_of(user_id), p));
                assert(self@.user_slots =~= m.push((user_id@, p)));
            }
        }
    }

    fn seat_holder_is(&self, p: PlayerId, user_id: &str) -> (r: bool)
        requires
            seating_wf(self@),
        ensures
            r == (seat_user(self@, p) == Some(user_id@)),
    {
        match &self.seats[p.idx()] {
            Some(x) => str_eq(x.user_id.as_str(), user_id),
            None => false,
        }
    }

    /// Seats `seat` and gives the seat it got.
    pub fn connect(&mut self, seat: Seat) -> (r: Option<PlayerId>)
        requires
            seating_wf(old(self)@),
        ensures
            seating_wf(final(self)@),
            (final(self)@, r) == connect_outcome(old(self)@, seat@),
    {
        let ghost s = self@;
        let ghost sv = seat@;
        match self.find_user(seat.user_id.as_str()) {
            Some(i) => {
                let p = self.user_slots[i].1;
                assert(p == s.user_slots[i as int].1);
                let free = self.seats[p.idx()].is_none();
                if free || self.seat_holder_is(p, seat.user_id.as_str()) {
                    self.seats.set(p.idx(), Some(seat));
                    assert(self@.seats =~= s.seats.update(p.spec_idx() as int, Some(sv)));
                    return Some(p);
                }
            }
            None => {}
        }
        if self.seats[0].is_none() {
            let uid = string_of(seat.user_id.as_str());
            self.seats.set(0, Some(seat));
            assert(self@.seats =~= s.seats.update(0, Some(sv)));
            self.remember(uid.as_str(), PlayerId::Player1);
            Some(PlayerId::Player1)
        } else if self.seats[1].is_none() {
            let uid = string_of(seat.user_id.as_str());
            self.seats.set(1, Some(seat));
            assert(self@.seats =~= s.seats.update(1, Some(sv)));
            self.remember(uid.as_str(), PlayerId::Player2);
            Some(PlayerId::Player2)
        } else {
            None
        }
    }

    /// Frees seat `id`; says whether someone sat there. The seat stays
    /// remembered for the user's return.
    pub fn disconnect(&mut self, id: PlayerId) -> (r: bool)
        requires
            seating_wf(old(self)@),
        ensures
            seating_wf(final(self)@),
            r == old(self)@.seats[id.spec_idx() as int] is Some,
            final(self)@ == (SeatingView { seats: old(self)@.seats.update(id.spec_idx() as int, None), ..old(self)@ }),
    {
        let ghost s = self@;
        let was = self.seats[id.idx()].is_some();
        self.seats.set(id.idx(), None);
        assert(self@.seats =~= s.seats.update(id.spec_idx() as int, None));
        was
    }

    /// The seat remembered for `user_id`, if the user ever sat.
    pub fn seat_of(&self, user_id: &str) -> (r: Option<PlayerId>)
        requires
            seating_wf(self@),
        ensures
            r == (match slot_index(self@.user_slots, user_id@) {
                Some(i) => Some(self@.user_slots[i].1),
                None => None,
            }),
    {
        match self.find_user(user_id) {
            Some(i) => Some(self.user_slots[i].1),
            None => None,
        }
    }

    /// The seat in which `user_id` sits now: the white seat first.
    pub fn occupied_seat_of(&self, user_id: &str) -> (r: Option<PlayerId>)
        requires
            seating_wf(self@),
        ensures
            r == (if seat_user(self@, PlayerId::Player1) == Some(user_id@) {
                Some(PlayerId::Player1)
            } else if seat_user(self@, PlayerId::Player2) == Some(user_id@) {
                Some(PlayerId::Player2)
            } else {
                None
            }),
    {
        if self.seat_holder_is(PlayerId::Player1, user_id) {
            Some(PlayerId::Player1)
        } else if self.seat_holder_is(PlayerId::Player2, user_id) {
            Some(PlayerId::Player2)
        } else {
            None
        }
    }

    pub fn both_connected(&self) -> (r: bool)
        requires
            seating_wf(self@),
        ensures
            r == (self@.seats[0] is Some && self@.seats[1] is Some),
    {
        self.seats[0].is_some() && self.seats[1].is_some()
    }

    /// A user remembered in the white seat and one remembered in the black seat,
    /// where there are such users.
    pub fn color_user_ids(&self) -> (r: (Option<String>, Option<String>))
        requires
            seating_wf(self@),
        ensures
            r.0 is None <==> !exists|i: int| 0 <= i < self@.user_slots.len() && #[trigger] self@.user_slots[i].1 == PlayerId::Player1,
            r.1 is None <==> !exists|i: int| 0 <= i < self@.user_slots.len() && #[trigger] self@.user_slots[i].1 == PlayerId::Player2,
            r.0 matches Some(u) ==> exists|i: int| 0 <= i < self@.user_slots.len() && #[trigger] self@.user_slots[i] == (u@, PlayerId::Player1),
            r.1 matches Some(u) ==> exists|i: int| 0 <= i < self@.user_slots.len() && #[trigger] self@.user_slots[i] == (u@, PlayerId::Player2),
    {
        let mut white: Option<String> = None;
        let mut black: Option<String> = None;
        let mut i: usize = 0;
        while i < self.user_slots.len()
            invariant
                i <= self.user_slots.len(),
                white is None <==> !exists|k: int| 0 <= k < i && #[trigger] self@.user_slots[k].1 == PlayerId::Player1,
                black is None <==> !exists|k: int| 0 <= k < i && #[trigger] self@.user_slots[k].1 == PlayerId::Player2,
                white matches Some(u) ==> exists|k: int| 0 <= k < i && #[trigger] self@.user_slots[k] == (u@, PlayerId::Player1),
                black matches Some(u) ==> exists|k: int| 0 <= k < i && #[trigger] self@.user_slots[k] == (u@, PlayerId::Player2),
            decreases self.user_slots.len() - i,
        {
            let uid = string_of(self.user_slots[i].0.as_str());
            assert(self@.user_slots[i as int] == (self.user_slots@[i as int].0@, self.user_slots@[i as int].1));
            match self.user_slots[i].1 {
                PlayerId::Player1 => {
                    assert(self@.user_slots[i as int].1 == PlayerId::Player1);
                    white = Some(uid);
                }
                PlayerId::Player2 => {
                    assert(self@.user_slots[i as int].1 == PlayerId::Player2);
                    black = Some(uid);
                }
            }
            i = i + 1;
        }
        (white, black)
    }
}

/// The seating after seat `p` is freed.
pub open spec fn seat_freed(s: SeatingView, p: PlayerId) -> SeatingView {
    SeatingView { seats: s.seats.update(p.spec_idx() as int, None), ..s }
}

proof fn lemma_slot_index_unique(m: Seq<(Seq<char>, PlayerId)>, u: Seq<char>, i: int)
    requires
        forall|a: int, b: int| 0 <= a < b < m.len() ==> #[trigger] m[a].0 != #[trigger] m[b].0,
        0 <= i < m.len(),
        m[i].0 == u,
    ensures
        slot_index(m, u) == Some(i),
{
    let j = choose|j: int| 0 <= j < m.len() && #[trigger] m[j].0 == u;
    if j < i {
        assert(m[j].0 != m[i].0);
    } else if i < j {
        assert(m[i].0 != m[j].0);
    }
}

proof fn lemma_slots_with(m: Seq<(Seq<char>, PlayerId)>, u: Seq<char>, p: PlayerId)
    requires
        forall|a: int, b: int| 0 <= a < b < m.len() ==> #[trigger] m[a].0 != #[trigger] m[b].0,
    ensures
        forall|a: int, b: int| 0 <= a < b < slots_with(m, u, p).len() ==> #[trigger] slots_with(m, u, p)[a].0
            != #[trigger] slots_with(m, u, p)[b].0,
        slot_index(slots_with(m, u, p), u) matches Some(i) && slots_with(m, u, p)[i].1 == p,
{
    let n = slots_with(m, u, p);
    match slot_index(m, u) {
        Some(i) => {
            assert forall|a: int, b: int| 0 <= a < b < n.len() implies #[trigger] n[a].0 != #[trigger] n[b].0 by {
                if a != i && b != i {
                    assert(m[a].0 != m[b].0);
                } else if a == i {
                    assert(m[i].0 != m[b].0);
                } else {
                    assert(m[a].0 != m[i].0);
                }
            }
            lemma_slot_index_unique(n, u, i);
        },
        None => {
            assert forall|a: int, b: int| 0 <= a < b < n.len() implies #[trigger] n[a].0 != #[trigger] n[b].0 by {
                if b == m.len() {
                    assert(!(0 <= a < m.len() && m[a].0 == u));
                }
            }
            lemma_slot_index_unique(n, u, m.len() as int);
        },
    }
}

/// A user who is given a seat sits in it and is remembered there; when no seat
/// is given both seats are taken and nothing changes. Either way two seats stay
/// and no user is remembered twice.
pub proof fn law_connect_seats_user(s: SeatingView, seat: SeatView)
    requires
        seating_wf(s),
    ensures
        seating_wf(connect_outcome(s, seat).0),
        connect_outcome(s, seat).1 matches Some(p) ==> {
            let after = connect_outcome(s, seat).0;
            &&& seat_user(after, p) == Some(seat.user_id)
            &&& slot_index(after.user_slots, seat.user_id) matches Some(i) && after.user_slots[i].1 == p
        },
        connect_outcome(s, seat).1 is None ==> connect_outcome(s, seat).0 == s && s.seats[0] is Some && s.seats[1] is Some,
{
    lemma_slots_with(s.user_slots, seat.user_id, PlayerId::Player1);
    lemma_slots_with(s.user_slots, seat.user_id, PlayerId::Player2);
}

/// A user who leaves a seat and comes back gets the same seat again.
pub proof fn law_reconnect_same_seat(s: SeatingView, seat: SeatView, again: SeatView)
    requires
        seating_wf(s),
        again.user_id == seat.user_id,
        connect_outcome(s, seat).1 is Some,
    ensures
        connect_outcome(seat_freed(connect_outcome(s, seat).0, connect_outcome(s, seat).1->0), again).1
            == connect_outcome(s, seat).1,
{
    law_connect_seats_user(s, seat);
}

} // verus!
