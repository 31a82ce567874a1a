//! Chess with cards: the rules engine of the Cardmate game server, and the
//! small pure decisions of its gateway.

pub mod board;
pub mod cards;
pub mod game_loop;
pub mod lobby;
pub mod gateway;
pub mod text;
pub mod rng;
pub mod clock;
pub mod commands;
pub mod session;
pub mod registry;
pub mod lifecycle;
pub mod notification;
