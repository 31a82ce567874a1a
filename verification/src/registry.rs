//! How a chess instance is recorded for the gateway to find, and who may join
//! a game.
use vstd::prelude::*;
use crate::text::{push_str, string_of, str_eq};

verus! {

/// A chess instance as the registry records it.
#[derive(Debug, Clone)]
pub struct ChessInstanceInfo {
    pub id: String,
    pub ws_url: String,
    pub load: usize,
}

/// The record with the instance's current load: the record that was stored, if
/// it could be read, else a record with the id and no address.
pub fn with_load(stored: Option<ChessInstanceInfo>, instance_id: &str, load: usize) -> (r: ChessInstanceInfo)
    ensures
        r.load == load,
        match stored {
            Some(i) => r.id@ == i.id@ && r.ws_url@ == i.ws_url@,
            None => r.id@ == instance_id@ && r.ws_url@ == Seq::<char>::empty(),
        },
{
    let mut info = match stored {
        Some(i) => i,
        None => ChessInstanceInfo { id: string_of(instance_id), ws_url: String::new(), load },
    };
    info.load = load;
    info
}

/// The key under which the instance hosting a game is recorded.
pub fn game_mapping_key(game_id: &str) -> (r: String)
    ensures
        r@ == "chess:game:"@ + game_id@,
{
    let mut s = string_of("chess:game:");
    push_str(&mut s, game_id);
    s
}

/// The key under which the players of a game are recorded.
pub fn game_players_key(game_id: &str) -> (r: String)
    ensures
        r@ == "chess:game_players:"@ + game_id@,
{
    let mut s = string_of("chess:game_players:");
    push_str(&mut s, game_id);
    s
}

/// Whether `user_id` is among the players of a game.
pub fn is_listed_player(players: &Vec<String>, user_id: &str) -> (r: bool)
    ensures
        r == exists|i: int| 0 <= i < players@.len() && #[trigger] players@[i]@ == user_id@,
{
    let mut i: usize = 0;
    while i < players.len()
        invariant
            i <= players.len(),
            forall|k: int| 0 <= k < i ==> players@[k]@ != user_id@,
        decreases players.len() - i,
    {
        if str_eq(players[i].as_str(), user_id) {
            return true;
        }
        i = i + 1;
    }
    false
}

/// The query of a game socket.
#[derive(Debug, Clone)]
pub struct WsParams {
    pub game_id: Option<String>,
    pub access_token: Option<String>,
    pub picture_id: Option<String>,
}

impl WsParams {
    /// The game the socket is for, `default` when none is named.
    pub fn game_or_default(&self) -> (r: String)
        ensures
            r@ == (match self.game_id {
                Some(g) => g@,
                None => "default"@,
            }),
    {
        match &self.game_id {
            Some(g) => string_of(g.as_str()),
            None => string_of("default"),
        }
    }

    /// The access token of the socket: the cookie's, else the query's.
    pub fn token(&self, cookie_token: Option<String>) -> (r: Option<String>)
        ensures
            r == (match cookie_token {
                Some(t) => Some(t),
                None => self.access_token,
            }),
    {
        match cookie_token {
            Some(t) => Some(t),
            None => self.access_token.clone(),
        }
    }
}

} // verus!
