//! Game rules, account and session handling of a small online role-playing game,
//! with their contracts proved by Verus.

pub mod text;
pub mod class;
pub mod specialization;
pub mod skills;
pub mod leveling;
pub mod clock;
pub mod session;
pub mod password;
pub mod jwt;
pub mod protocol;
pub mod accounts;
pub mod characters;
pub mod server;
pub mod world;
pub mod ui_stack;
pub mod client;
pub mod collision;
pub mod input;
pub mod spatial;
