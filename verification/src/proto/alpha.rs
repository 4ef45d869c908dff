//! The messages of the alpha (player tracking) Agones SDK service.

use vstd::prelude::*;

verus! {

/// The message that carries nothing.
#[derive(Clone, Debug, PartialEq, Default)]
pub struct Empty {}

/// A number of players.
#[derive(Clone, Debug, PartialEq, Default)]
pub struct Count {
    pub count: i64,
}

/// A yes or no answer.
#[derive(Clone, Debug, PartialEq, Default)]
pub struct Bool {
    pub bool: bool,
}

/// The identifier of a player.
#[derive(Clone, Debug, PartialEq, Default)]
pub struct PlayerId {
    pub player_id: String,
}

/// A list of player identifiers.
#[derive(Clone, Debug, PartialEq, Default)]
pub struct PlayerIdList {
    pub list: Vec<String>,
}

} // verus!
