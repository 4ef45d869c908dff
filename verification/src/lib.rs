//! A client for the Agones game server SDK.
//!
//! This crate holds the data model of the messages exchanged with the SDK
//! server that runs beside a game server, and the verified rules of the
//! client: how the raw game server record becomes a strongly typed one, how
//! states are named, which requests carry what, and the decisions taken while
//! connecting.

pub mod errors;
pub mod foreign;
pub mod proto;
pub mod sdk;
pub mod text;

pub use errors::{Error, Result};
pub use sdk::connect::{ConnectAction, ConnectEvent, ConnectPhase, ConnectPlan, ConnectStep};
pub use sdk::gameserver::{
    GameServer, HealthSpec, IpAddr, NonZeroU32, ObjectMeta, Port, State, Status, Timestamp,
};
