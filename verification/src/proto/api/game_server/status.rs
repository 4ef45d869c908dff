//! The parts of the game server status.

use vstd::prelude::*;

verus! {

/// A port exposed by the game server's container.
#[derive(Clone, Debug, PartialEq, Default)]
pub struct Port {
    pub name: String,
    pub port: i32,
}

/// The number, capacity and identifiers of the connected players.
#[derive(Clone, Debug, PartialEq, Default)]
pub struct PlayerStatus {
    pub count: i64,
    pub capacity: i64,
    pub ids: Vec<String>,
}

} // verus!
