//! The decisions around a game's life: its time control when it is created, the
//! winner when a player abandons it, and whose sessions end with it.
use vstd::prelude::*;
use crate::board::types::Color;
use crate::lobby::PlayerId;
use crate::text::str_eq;

verus! {

pub open spec fn is_digit(c: char) -> bool {
    '0' <= c && c <= '9'
}

/// The number that a run of decimal digits writes.
pub open spec fn digits_value(s: Seq<char>) -> nat
    decreases s.len(),
{
    if s.len() == 0 {
        0
    } else {
        digits_value(s.drop_last()) * 10 + (s.last() as nat - 48) as nat
    }
}

pub open spec fn all_digits(d: Seq<char>) -> bool {
    forall|i: int| 0 <= i < d.len() ==> is_digit(#[trigger] d[i])
}

/// The text after an optional leading `+`.
pub open spec fn unsigned_part(s: Seq<char>) -> Seq<char> {
    if s.len() > 0 && s[0] == '+' { s.drop_first() } else { s }
}

/// What `str::parse::<u64>` gives: an optional `+`, then at least one digit,
/// and a value that fits in 64 bits.
pub open spec fn parsed_u64(s: Seq<char>) -> Option<u64> {
    let d = unsigned_part(s);
    if d.len() > 0 && all_digits(d) && digits_value(d) <= u64::MAX {
        Some(digits_value(d) as u64)
    } else {
        None
    }
}

/// The unsigned decimal number that `s` writes, as `str::parse::<u64>` reads it.
pub fn parse_u64(s: &str) -> (r: Option<u64>)
    ensures
        r == parsed_u64(s@),
{
    let n = s.unicode_len();
    let start: usize = if n > 0 && s.get_char(0) == '+' { 1 } else { 0 };
    let ghost d = unsigned_part(s@);
    assert(d =~= s@.subrange(start as int, n as int));
    if start >= n {
        return None;
    }
    let mut acc: u64 = 0;
    let mut i: usize = start;
    while i < n
        invariant
            start <= i <= n,
            n == s@.len(),
            d == s@.subrange(start as int, n as int),
            d == unsigned_part(s@),
            forall|k: int| start <= k < i ==> is_digit(#[trigger] s@[k]),
            acc == digits_value(s@.subrange(start as int, i as int)),
        decreases n - i,
    {
        let c = s.get_char(i);
        let ghost prefix = s@.subrange(start as int, i + 1);
        assert(prefix.drop_last() =~= s@.subrange(start as int, i as int));
        if !('0' <= c && c <= '9') {
            assert(!is_digit(d[i - start]));
            assert(!all_digits(d));
            return None;
        }
        let digit = (c as u32 - 48) as u64;
        match acc.checked_mul(10) {
            Some(m) => match m.checked_add(digit) {
                Some(v) => {
                    acc = v;
                }
                None => {
                    assert(d.subrange(0, (i + 1 - start) as int) =~= prefix);
                    proof {
                        if all_digits(d) {
                            lemma_digits_grow(d, (i + 1 - start) as int);
                        }
                    }
                    return None;
                }
            },
            None => {
                assert(d.subrange(0, (i + 1 - start) as int) =~= prefix);
                proof {
                    if all_digits(d) {
                        lemma_digits_grow(d, (i + 1 - start) as int);
                    }
                }
                return None;
            }
        }
        i = i + 1;
    }
    assert(s@.subrange(start as int, n as int) =~= d);
    Some(acc)
}

/// The value of a run of digits is at least the value of each of its prefixes.
pub proof fn lemma_digits_grow(d: Seq<char>, k: int)
    requires
        0 <= k <= d.len(),
        all_digits(d),
    ensures
        digits_value(d.subrange(0, k)) <= digits_value(d),
    decreases d.len() - k,
{
    if k < d.len() {
        lemma_digits_grow(d, k + 1);
        assert(d.subrange(0, k + 1).drop_last() =~= d.subrange(0, k));
    } else {
        assert(d.subrange(0, k) =~= d);
    }
}

/// The starting time of each clock of a new game, in ms: the time control in
/// minutes when it is 5, 10 or 15, else ten minutes.
pub open spec fn initial_time_for(time_control: Option<Seq<char>>) -> u64 {
    match time_control {
        Some(t) => match parsed_u64(t) {
            Some(m) => if m == 5 || m == 10 || m == 15 { (m * 60000) as u64 } else { 600000 },
            None => 600000,
        },
        None => 600000,
    }
}

pub fn initial_time_ms(time_control: Option<&str>) -> (r: u64)
    ensures
        r == initial_time_for(match time_control {
            Some(t) => Some(t@),
            None => None,
        }),
{
    match time_control {
        Some(t) => match parse_u64(t) {
            Some(minutes) => {
                if minutes == 5 || minutes == 10 || minutes == 15 {
                    minutes * 60000
                } else {
                    600000
                }
            }
            None => 600000,
        },
        None => 600000,
    }
}

/// The winner when a user abandons: the other colour than the seat the user
/// was given, and black when the user had no seat.
pub open spec fn abandon_winner_of(abandoner: Option<PlayerId>) -> Color {
    match abandoner {
        Some(PlayerId::Player1) => Color::Black,
        Some(PlayerId::Player2) => Color::White,
        None => Color::Black,
    }
}

pub fn abandon_winner(abandoner: Option<PlayerId>) -> (r: Color)
    ensures
        r == abandon_winner_of(abandoner),
{
    match abandoner {
        Some(PlayerId::Player1) => Color::Black,
        Some(PlayerId::Player2) => Color::White,
        None => Color::Black,
    }
}

/// The name of a colour in messages.
pub fn color_label(c: Color) -> (r: &'static str)
    ensures
        r@ == (match c {
            Color::White => "white"@,
            Color::Black => "black"@,
        }),
{
    match c {
        Color::White => "white",
        Color::Black => "black",
    }
}

pub open spec fn texts_of(v: Seq<String>) -> Seq<Seq<char>> {
    v.map_values(|s: String| s@)
}

/// The known players followed by each recorded player, in order, that is not
/// empty and not among those before it.
pub open spec fn merged_players(known: Seq<Seq<char>>, recorded: Seq<Seq<char>>) -> Seq<Seq<char>>
    decreases recorded.len(),
{
    if recorded.len() == 0 {
        known
    } else {
        let before = merged_players(known, recorded.drop_last());
        let p = recorded.last();
        if p.len() > 0 && !before.contains(p) { before.push(p) } else { before }
    }
}

fn holds_text(v: &Vec<String>, t: &str) -> (r: bool)
    ensures
        r == texts_of(v@).contains(t@),
{
    let mut i: usize = 0;
    while i < v.len()
        invariant
            i <= v.len(),
            forall|k: int| 0 <= k < i ==> v@[k]@ != t@,
        decreases v.len() - i,
    {
        if str_eq(v[i].as_str(), t) {
            assert(texts_of(v@)[i as int] == t@);
            return true;
        }
        i = i + 1;
    }
    assert forall|k: int| 0 <= k < texts_of(v@).len() implies texts_of(v@)[k] != t@ by {
        assert(texts_of(v@)[k] == v@[k]@);
    }
    false
}

/// The players whose sessions end with the game: those the game knew, and
/// those recorded for it, each once.
pub fn players_to_clean(known: Vec<String>, recorded: &Vec<String>) -> (r: Vec<String>)
    ensures
        texts_of(r@) == merged_players(texts_of(known@), texts_of(recorded@)),
{
    let mut ids = known;
    let ghost k = texts_of(ids@);
    let mut i: usize = 0;
    while i < recorded.len()
        invariant
            i <= recorded.len(),
            texts_of(ids@) == merged_players(k, texts_of(recorded@).subrange(0, i as int)),
        decreases recorded.len() - i,
    {
        let ghost sub = texts_of(recorded@).subrange(0, i + 1);
        assert(sub.drop_last() =~= texts_of(recorded@).subrange(0, i as int));
        assert(sub.last() == recorded@[i as int]@);
        let p = recorded[i].as_str();
        if p.unicode_len() > 0 && !holds_text(&ids, p) {
            let ghost before = ids@;
            ids.push(crate::text::string_of(p));
            assert(texts_of(ids@) =~= texts_of(before).push(p@));
        }
        i = i + 1;
    }
    assert(texts_of(recorded@).subrange(0, recorded.len() as int) =~= texts_of(recorded@));
    ids
}

} // verus!
