//! The parts of the game server record.

pub mod spec;
pub mod status;

use vstd::prelude::*;

verus! {

/// The Kubernetes object metadata of the game server.
#[derive(Clone, Debug, PartialEq, Default)]
pub struct ObjectMeta {
    pub name: String,
    pub namespace: String,
    pub uid: String,
    pub resource_version: String,
    pub generation: i64,
    /// Seconds since the Unix epoch.
    pub creation_timestamp: i64,
    /// Seconds since the Unix epoch, or 0 when the object is not being deleted.
    pub deletion_timestamp: i64,
    pub annotations: std::collections::HashMap<String, String>,
    pub labels: std::collections::HashMap<String, String>,
}

/// The specification of the game server.
#[derive(Clone, Debug, PartialEq, Default)]
pub struct Spec {
    pub health: Option<spec::Health>,
}

/// The status of the game server.
#[derive(Clone, Debug, PartialEq, Default)]
pub struct Status {
    pub state: String,
    pub address: String,
    pub ports: Vec<status::Port>,
    pub players: Option<status::PlayerStatus>,
}

} // verus!
