//! Who a notification goes to: a user's own connections, or every connection.
use vstd::prelude::*;
use vstd::arithmetic::power::pow;
use crate::text::{push_str, string_of};

verus! {

/// The digit `d` (below 16) in lower-case hexadecimal.
pub open spec fn hex_char(d: nat) -> char {
    if d < 10 { (48 + d) as char } else { (87 + d) as char }
}

/// The `k`-th of the 32 hexadecimal digits of `v`, from the most significant.
pub open spec fn uuid_nibble(v: u128, k: int) -> nat {
    ((v as nat) / (pow(16, (31 - k) as nat) as nat)) % 16
}

/// The number of hyphens before position `i` of a uuid's text.
pub open spec fn hyphens_before(i: int) -> int {
    if i < 9 { 0 } else if i < 14 { 1 } else if i < 19 { 2 } else if i < 24 { 3 } else { 4 }
}

/// The text of a uuid: 32 lower-case hexadecimal digits in groups of 8, 4, 4,
/// 4 and 12, joined by hyphens.
pub open spec fn uuid_text(v: u128) -> Seq<char> {
    Seq::new(36, |i: int|
        if i == 8 || i == 13 || i == 18 || i == 23 {
            '-'
        } else {
            hex_char(uuid_nibble(v, i - hyphens_before(i)))
        })
}

/// The text of a uuid through `uuid::Uuid::from_u128` and its `Display`, which
/// writes the hyphenated lower-case form.
#[verifier::external_body]
fn uuid_string(v: u128) -> (r: String)
    ensures
        r@ == uuid_text(v),
{
    uuid::Uuid::from_u128(v).to_string()
}

/// The routing key of a user's connections.
pub fn user_routing_key(user_id: u128) -> (r: String)
    ensures
        r@ == "user:"@ + uuid_text(user_id),
{
    let mut s = string_of("user:");
    let u = uuid_string(user_id);
    push_str(&mut s, u.as_str());
    s
}

/// A connection, by the user it belongs to (the uuid as a number).
#[derive(Debug, Clone, Copy, PartialEq, Eq, Structural)]
pub struct NotificationMetadata {
    pub user_id: u128,
}

/// Where a notification goes: one user, or everyone when the uuid is nil.
#[derive(Debug, Clone, Copy, PartialEq, Eq, Structural)]
pub struct NotificationTarget {
    pub user_id: u128,
}

impl NotificationMetadata {
    pub fn routing_keys(&self) -> (r: Vec<String>)
        ensures
            r@.len() == 1,
            r@[0]@ == "user:"@ + uuid_text(self.user_id),
    {
        let mut v: Vec<String> = Vec::new();
        v.push(user_routing_key(self.user_id));
        v
    }
}

impl NotificationTarget {
    /// The keys of the connections that the notification is routed to: none for
    /// a broadcast, which goes to every connection.
    pub fn routing_keys(&self) -> (r: Vec<String>)
        ensures
            self.user_id == 0 ==> r@.len() == 0,
            self.user_id != 0 ==> r@.len() == 1 && r@[0]@ == "user:"@ + uuid_text(self.user_id),
    {
        let mut v: Vec<String> = Vec::new();
        if self.user_id != 0 {
            v.push(user_routing_key(self.user_id));
        }
        v
    }

    /// Whether a connection receives the notification.
    pub fn matches(&self, metadata: &NotificationMetadata) -> (r: bool)
        ensures
            r == (self.user_id == 0 || self.user_id == metadata.user_id),
    {
        self.user_id == 0 || self.user_id == metadata.user_id
    }
}

/// A game in progress, as listed to spectators.
#[derive(Debug, Clone)]
pub struct LiveGame {
    pub game_id: String,
    pub kind: String,
    pub player1: Option<String>,
    pub player2: Option<String>,
    pub label: Option<String>,
}

/// A room that anyone may join.
#[derive(Debug, Clone)]
pub struct PublicRoom {
    pub id: String,
    pub title: Option<String>,
    pub host_username: String,
    pub player_count: u32,
    pub max_players: u32,
    pub created_at: i64,
    pub private: bool,
    pub join_code: Option<String>,
    pub mode: String,
}

} // verus!
