//! The messages of the stable Agones SDK service.

pub mod game_server;

use vstd::prelude::*;

verus! {

/// The message that carries nothing.
#[derive(Clone, Debug, PartialEq, Default)]
pub struct Empty {}

/// A key and its value, such as a label or an annotation.
#[derive(Clone, Debug, PartialEq, Default)]
pub struct KeyValue {
    pub key: String,
    pub value: String,
}

/// A duration in whole seconds.
#[derive(Clone, Debug, PartialEq, Default)]
pub struct Duration {
    pub seconds: i64,
}

/// The game server record, as the SDK server sends it.
#[derive(Clone, Debug, PartialEq, Default)]
pub struct GameServer {
    pub object_meta: Option<game_server::ObjectMeta>,
    pub spec: Option<game_server::Spec>,
    pub status: Option<game_server::Status>,
}

} // verus!
