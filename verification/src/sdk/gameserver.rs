//! Strongly typed forms of the game server record that the SDK server sends,
//! and the rules that build them from the raw protocol messages.

use crate::errors::Error;
use crate::foreign::{
    check_unix_timestamp, duration_from_secs, duration_of_secs, time_accepts_unix_secs,
    unix_timestamp_check, TIME_MAX_UNIX_SECS, TIME_MIN_UNIX_SECS,
};
use crate::proto::api;
use crate::text::str_eq;
use vstd::prelude::*;

verus! {

/// The exclusive states a game server can be in. See the Agones client SDK
/// documentation for the lifecycle.
#[derive(Copy, Clone, Debug, PartialEq, Eq, Structural)]
pub enum State {
    /// An open port is being allocated for a dynamically allocated game
    /// server; hardly ever observed from the game server itself.
    PortAllocation,
    /// Before the pod is created; hardly ever observed from the game server.
    Creating,
    /// The pod is being created; hardly ever observed from the game server.
    Starting,
    /// The initial state of a newly created game server pod. Not sent by the
    /// SDK server when it runs locally.
    Scheduled,
    /// The game server has declared itself ready.
    RequestReady,
    /// Ready to take player connections.
    Ready,
    /// Reserved: it cannot be deleted, but does not trigger a fleet scale up.
    Reserved,
    /// Allocated: it has active players and must not be deleted or scaled down.
    Allocated,
    /// It failed to send health checks in time.
    Unhealthy,
    /// Marked as reapable.
    Shutdown,
    /// Something has gone wrong that cannot be resolved.
    Error,
}

/// The state that the SDK server's name for it denotes, if any.
pub open spec fn state_named(name: Seq<char>) -> Option<State> {
    if name == "PortAllocation"@ {
        Some(State::PortAllocation)
    } else if name == "Creating"@ {
        Some(State::Creating)
    } else if name == "Starting"@ {
        Some(State::Starting)
    } else if name == "Scheduled"@ {
        Some(State::Scheduled)
    } else if name == "RequestReady"@ {
        Some(State::RequestReady)
    } else if name == "Ready"@ {
        Some(State::Ready)
    } else if name == "Reserved"@ {
        Some(State::Reserved)
    } else if name == "Allocated"@ {
        Some(State::Allocated)
    } else if name == "Unhealthy"@ {
        Some(State::Unhealthy)
    } else if name == "Shutdown"@ {
        Some(State::Shutdown)
    } else if name == "Error"@ {
        Some(State::Error)
    } else {
        None
    }
}

impl State {
    /// Reads a state from the name that the SDK server uses for it; any other
    /// name is an `UnknownState` error that holds the name.
    pub fn from_name(s: &str) -> (r: Result<State, Error>)
        ensures
            r is Ok <==> state_named(s@) is Some,
            r matches Ok(state) ==> state_named(s@) == Some(state),
            r matches Err(e) ==> e matches Error::UnknownState(unknown) && unknown@ == s@,
    {
        if str_eq(s, "PortAllocation") {
            Ok(State::PortAllocation)
        } else if str_eq(s, "Creating") {
            Ok(State::Creating)
        } else if str_eq(s, "Starting") {
            Ok(State::Starting)
        } else if str_eq(s, "Scheduled") {
            Ok(State::Scheduled)
        } else if str_eq(s, "RequestReady") {
            Ok(State::RequestReady)
        } else if str_eq(s, "Ready") {
            Ok(State::Ready)
        } else if str_eq(s, "Reserved") {
            Ok(State::Reserved)
        } else if str_eq(s, "Allocated") {
            Ok(State::Allocated)
        } else if str_eq(s, "Unhealthy") {
            Ok(State::Unhealthy)
        } else if str_eq(s, "Shutdown") {
            Ok(State::Shutdown)
        } else if str_eq(s, "Error") {
            Ok(State::Error)
        } else {
            Err(Error::UnknownState(s.to_owned()))
        }
    }
}

impl std::str::FromStr for State {
    type Err = Error;

    fn from_str(s: &str) -> (r: Result<State, Error>)
        ensures
            r is Ok <==> state_named(s@) is Some,
            r matches Ok(state) ==> state_named(s@) == Some(state),
            r matches Err(e) ==> e matches Error::UnknownState(unknown) && unknown@ == s@,
    {
        State::from_name(s)
    }
}


/// An IP address, as the bytes of its network form.
#[derive(Copy, Clone, Debug, PartialEq, Eq)]
pub enum IpAddr {
    /// An IPv4 address.
    V4([u8; 4]),
    /// An IPv6 address.
    V6([u8; 16]),
}

/// The smallest number of seconds since the Unix epoch that a timestamp can
/// hold: the first second of the year -9999, as in the `time` crate.
pub const MIN_UNIX_SECS: i64 = TIME_MIN_UNIX_SECS;

/// The largest number of seconds since the Unix epoch that a timestamp can
/// hold: the last second of the year 9999, as in the `time` crate.
pub const MAX_UNIX_SECS: i64 = TIME_MAX_UNIX_SECS;

/// Whether `secs` seconds after the Unix epoch is an instant that a
/// timestamp can hold: one that `time::OffsetDateTime::from_unix_timestamp`
/// accepts.
pub open spec fn representable(secs: i64) -> bool {
    time_accepts_unix_secs(secs)
}

/// A point in time in UTC, in whole seconds since 1970-01-01T00:00:00Z,
/// within the years that the `time` crate's `OffsetDateTime` represents.
#[derive(Copy, Clone, Debug, PartialEq, Eq)]
pub struct Timestamp {
    secs: i64,
}

impl View for Timestamp {
    type V = i64;

    closed spec fn view(&self) -> i64 {
        self.secs
    }
}

impl Timestamp {
    #[verifier::type_invariant]
    spec fn in_range(self) -> bool {
        representable(self.secs)
    }

    /// The instant `secs` seconds after the Unix epoch, as
    /// `time::OffsetDateTime::from_unix_timestamp` reads it: its
    /// `ComponentRange` error when the instant lies outside the years it
    /// represents.
    pub fn from_unix_secs(secs: i64) -> (r: Result<Timestamp, time::error::ComponentRange>)
        ensures
            r is Ok <==> representable(secs),
            r matches Ok(t) ==> t@ == secs,
            r matches Err(e) ==> unix_timestamp_check(secs) == Err::<(), time::error::ComponentRange>(e),
    {
        match check_unix_timestamp(secs) {
            Ok(()) => Ok(Timestamp { secs }),
            Err(e) => Err(e),
        }
    }

    /// The number of seconds since the Unix epoch.
    pub fn unix_secs(&self) -> (secs: i64)
        ensures
            secs == self@,
            representable(secs),
    {
        proof {
            use_type_invariant(self);
        }
        self.secs
    }
}

/// A `u32` that is not zero.
#[derive(Copy, Clone, Debug, PartialEq, Eq)]
pub struct NonZeroU32 {
    value: u32,
}

impl View for NonZeroU32 {
    type V = u32;

    closed spec fn view(&self) -> u32 {
        self.value
    }
}

impl NonZeroU32 {
    #[verifier::type_invariant]
    spec fn not_zero(self) -> bool {
        self.value != 0
    }

    /// `value`, if it is not zero.
    pub fn new(value: u32) -> (r: Option<NonZeroU32>)
        ensures
            r is Some <==> value != 0,
            r matches Some(n) ==> n@ == value,
    {
        if value != 0 {
            Some(NonZeroU32 { value })
        } else {
            None
        }
    }

    /// The value, which is never zero.
    pub fn get(&self) -> (value: u32)
        ensures
            value == self@,
            value != 0,
    {
        proof {
            use_type_invariant(self);
        }
        self.value
    }
}

/// A port exposed by the container.
#[derive(Clone, Debug, PartialEq)]
pub struct Port {
    /// The name of the port.
    pub name: String,
    /// The port number.
    pub port: u16,
}

/// The status of a game server.
#[derive(Clone, Debug, PartialEq)]
pub struct Status {
    /// The current state, see the lifecycle management documentation of
    /// Agones.
    pub state: State,
    /// The public IP address the game server is served from.
    pub address: IpAddr,
    /// The ports exposed by the game server's container.
    pub ports: Vec<Port>,
    /// The current number, capacity and identifiers of connected players.
    pub players: Option<api::game_server::status::PlayerStatus>,
}

/// The Kubernetes object metadata of a game server's pod.
#[derive(Clone, Debug, PartialEq)]
pub struct ObjectMeta {
    /// The name of the pod.
    pub name: String,
    /// The namespace the pod runs in.
    pub namespace: String,
    /// The unique identifier assigned to the pod.
    pub uid: String,
    /// The resource version of the pod.
    pub resource_version: String,
    /// The generation of the deployed pod.
    pub generation: i64,
    /// When the pod was created.
    pub creation_timestamp: Timestamp,
    /// When the pod was deleted, if it was.
    pub deletion_timestamp: Option<Timestamp>,
    /// The annotations applied to the pod.
    pub annotations: std::collections::HashMap<String, String>,
    /// The labels applied to the pod.
    pub labels: std::collections::HashMap<String, String>,
}

/// The health checking configuration of a game server.
#[derive(Copy, Clone, Debug, PartialEq)]
pub struct HealthSpec {
    /// How often health checks must be sent for the game server to count as
    /// healthy.
    pub period: core::time::Duration,
    /// How many consecutive failures make the health probe fail.
    pub failure_threshold: NonZeroU32,
    /// How long after the game server started the health checks begin.
    pub initial_delay: core::time::Duration,
}

/// A strongly typed game server record.
#[derive(Clone, Debug, PartialEq)]
pub struct GameServer {
    /// The Kubernetes object metadata.
    pub object_meta: Option<ObjectMeta>,
    /// The health checking configuration, the only part of the specification
    /// that is exposed. `None` when the record has no specification, when
    /// the specification has no health part, when health checking is
    /// disabled, or when the failure threshold is zero.
    pub health_spec: Option<HealthSpec>,
    /// The status.
    pub status: Option<Status>,
}

/// The port that a raw port becomes: the same name, and the number cut down
/// to its low 16 bits.
pub open spec fn port_from(p: api::game_server::status::Port) -> Port {
    Port { name: p.name, port: p.port as u16 }
}

/// Whether the raw status is accepted with the given outcome of parsing its
/// address: there is no status, or its address parsed and its state is known.
pub open spec fn status_accepted(
    status: Option<api::game_server::Status>,
    address: Result<IpAddr, String>,
) -> bool {
    match status {
        None => true,
        Some(st) => address is Ok && state_named(st.state@) is Some,
    }
}

/// Whether `s` is the status built from the raw status `st`, whose address
/// parsed to `address`.
pub open spec fn status_converted(
    s: Status,
    st: api::game_server::Status,
    address: IpAddr,
) -> bool {
    &&& state_named(st.state@) == Some(s.state)
    &&& s.address == address
    &&& s.ports@ == st.ports@.map_values(|p: api::game_server::status::Port| port_from(p))
    &&& s.players == st.players
}

/// Whether the timestamps of the raw metadata are instants a timestamp can
/// hold (a deletion timestamp of 0 means there is none).
pub open spec fn timestamps_representable(om: Option<api::game_server::ObjectMeta>) -> bool {
    match om {
        None => true,
        Some(m) => representable(m.creation_timestamp) && (m.deletion_timestamp == 0
            || representable(m.deletion_timestamp)),
    }
}

/// Whether `m` is the metadata built from the raw metadata `om`.
pub open spec fn object_meta_converted(m: ObjectMeta, om: api::game_server::ObjectMeta) -> bool {
    &&& m.name == om.name
    &&& m.namespace == om.namespace
    &&& m.uid == om.uid
    &&& m.resource_version == om.resource_version
    &&& m.generation == om.generation
    &&& m.creation_timestamp@ == om.creation_timestamp
    &&& if om.deletion_timestamp == 0 {
        m.deletion_timestamp is None
    } else {
        m.deletion_timestamp matches Some(t) && t@ == om.deletion_timestamp
    }
    &&& m.annotations == om.annotations
    &&& m.labels == om.labels
}

/// Whether `h` is the health configuration built from the raw specification
/// `spec`: none without a specification, without a health part, with health
/// checking disabled, or with a failure threshold of zero (read as a `u32`);
/// otherwise the periods in whole seconds (read as `u64`) and the threshold.
pub open spec fn health_converted(h: Option<HealthSpec>, spec: Option<api::game_server::Spec>) -> bool {
    match spec {
        None => h is None,
        Some(sp) => match sp.health {
            None => h is None,
            Some(health) => if health.disabled || health.failure_threshold as u32 == 0 {
                h is None
            } else {
                h matches Some(hs) && hs.period == duration_of_secs(
                    health.period_seconds as u64,
                ) && hs.failure_threshold@ == health.failure_threshold as u32
                    && hs.initial_delay == duration_of_secs(health.initial_delay_seconds as u64)
            },
        },
    }
}

/// Turns the raw ports into ports, in the same order.
fn convert_ports(ports: Vec<api::game_server::status::Port>) -> (r: Vec<Port>)
    ensures
        r@ == ports@.map_values(|p: api::game_server::status::Port| port_from(p)),
{
    let ghost all = ports@;
    let mut rest = ports;
    let mut out: Vec<Port> = Vec::new();
    while rest.len() > 0
        invariant
            out@.len() + rest@.len() == all.len(),
            rest@ == all.subrange(out@.len() as int, all.len() as int),
            out@ == all.subrange(0, out@.len() as int).map_values(
                |p: api::game_server::status::Port| port_from(p),
            ),
        decreases rest@.len(),
    {
        let ghost done = out@.len() as int;
        let p = rest.remove(0);
        out.push(Port { name: p.name, port: p.port as u16 });
        assert(all.subrange(0, done + 1) =~= all.subrange(0, done).push(all[done]));
        assert(rest@ =~= all.subrange(done + 1, all.len() as int));
    }
    assert(all.subrange(0, all.len() as int) =~= all);
    out
}

/// The error that `time` gives for the first timestamp of the raw metadata
/// that it does not accept: the creation timestamp, else the deletion
/// timestamp.
pub open spec fn timestamp_error(m: api::game_server::ObjectMeta) -> time::error::ComponentRange {
    if !representable(m.creation_timestamp) {
        unix_timestamp_check(m.creation_timestamp)->Err_0
    } else {
        unix_timestamp_check(m.deletion_timestamp)->Err_0
    }
}

/// Turns the raw metadata into metadata; a timestamp outside the range of
/// `time` is its `InvalidComponentRange` error, the creation timestamp
/// being read first.
fn convert_object_meta(om: api::game_server::ObjectMeta) -> (r: Result<ObjectMeta, Error>)
    ensures
        r is Ok <==> timestamps_representable(Some(om)),
        r matches Ok(m) ==> object_meta_converted(m, om),
        r matches Err(e) ==> e matches Error::InvalidComponentRange(cr) && cr == timestamp_error(om),
{
    let creation_timestamp = match Timestamp::from_unix_secs(om.creation_timestamp) {
        Ok(t) => t,
        Err(e) => {
            return Err(Error::InvalidComponentRange(e));
        },
    };
    let dt = om.deletion_timestamp;
    let deletion_timestamp = if dt != 0 {
        match Timestamp::from_unix_secs(dt) {
            Ok(t) => Some(t),
            Err(e) => {
                return Err(Error::InvalidComponentRange(e));
            },
        }
    } else {
        None
    };
    Ok(
        ObjectMeta {
            name: om.name,
            namespace: om.namespace,
            uid: om.uid,
            resource_version: om.resource_version,
            generation: om.generation,
            creation_timestamp,
            deletion_timestamp,
            annotations: om.annotations,
            labels: om.labels,
        },
    )
}

/// Turns the raw specification into the health configuration.
fn convert_health(spec: Option<api::game_server::Spec>) -> (h: Option<HealthSpec>)
    ensures
        health_converted(h, spec),
{
    match spec {
        None => None,
        Some(spec) => match spec.health {
            None => None,
            Some(health) => {
                if health.disabled {
                    None
                } else {
                    match NonZeroU32::new(health.failure_threshold as u32) {
                        None => None,
                        Some(failure_threshold) => Some(
                            HealthSpec {
                                period: duration_from_secs(health.period_seconds as u64),
                                failure_threshold,
                                initial_delay: duration_from_secs(
                                    health.initial_delay_seconds as u64,
                                ),
                            },
                        ),
                    }
                }
            },
        },
    }
}

/// A converted status keeps what the raw status says: its state is the one
/// the raw state names, its address is the parsed address, its player status
/// is the raw one unchanged (count, capacity and identifiers), and it has one
/// port per raw port, in the same order, with the same name and the raw number
/// cut to its low 16 bits.
pub proof fn law_status_keeps_raw_fields(s: Status, st: api::game_server::Status, address: IpAddr)
    requires
        status_converted(s, st, address),
    ensures
        state_named(st.state@) == Some(s.state),
        s.address == address,
        s.players == st.players,
        s.players matches Some(ps) ==> st.players matches Some(raw) && ps.count == raw.count
            && ps.capacity == raw.capacity && ps.ids == raw.ids,
        s.players is None <==> st.players is None,
        s.ports@.len() == st.ports@.len(),
        forall|i: int|
            0 <= i < s.ports@.len() ==> #[trigger] s.ports@[i].name == st.ports@[i].name
                && s.ports@[i].port == st.ports@[i].port as u16,
        forall|i: int|
            0 <= i < s.ports@.len() && 0 <= #[trigger] st.ports@[i].port <= 65535 ==> s.ports@[i].port
                == st.ports@[i].port,
{
}

/// The eleven names that the SDK server uses are read as their states, and
/// every other text is no state.
pub proof fn law_state_names(name: Seq<char>)
    ensures
        state_named("PortAllocation"@) == Some(State::PortAllocation),
        state_named("Creating"@) == Some(State::Creating),
        state_named("Starting"@) == Some(State::Starting),
        state_named("Scheduled"@) == Some(State::Scheduled),
        state_named("RequestReady"@) == Some(State::RequestReady),
        state_named("Ready"@) == Some(State::Ready),
        state_named("Reserved"@) == Some(State::Reserved),
        state_named("Allocated"@) == Some(State::Allocated),
        state_named("Unhealthy"@) == Some(State::Unhealthy),
        state_named("Shutdown"@) == Some(State::Shutdown),
        state_named("Error"@) == Some(State::Error),
        state_named(name) is Some <==> name == "PortAllocation"@ || name == "Creating"@
            || name == "Starting"@ || name == "Scheduled"@ || name == "RequestReady"@ || name
            == "Ready"@ || name == "Reserved"@ || name == "Allocated"@ || name == "Unhealthy"@
            || name == "Shutdown"@ || name == "Error"@,
{
    reveal_strlit("PortAllocation");
    reveal_strlit("Creating");
    reveal_strlit("Starting");
    reveal_strlit("Scheduled");
    reveal_strlit("RequestReady");
    reveal_strlit("Ready");
    reveal_strlit("Reserved");
    reveal_strlit("Allocated");
    reveal_strlit("Unhealthy");
    reveal_strlit("Shutdown");
    reveal_strlit("Error");
    assert("PortAllocation"@.len() == 14);
    assert("Creating"@.len() == 8);
    assert("Starting"@.len() == 8);
    assert("Scheduled"@.len() == 9);
    assert("RequestReady"@.len() == 12);
    assert("Ready"@.len() == 5);
    assert("Reserved"@.len() == 8);
    assert("Allocated"@.len() == 9);
    assert("Unhealthy"@.len() == 9);
    assert("Shutdown"@.len() == 8);
    assert("Error"@.len() == 5);
    assert("Creating"@[0] != "Starting"@[0]);
    assert("Creating"@[0] != "Reserved"@[0]);
    assert("Creating"@[0] != "Shutdown"@[0]);
    assert("Starting"@[0] != "Reserved"@[0]);
    assert("Starting"@[1] != "Shutdown"@[1]);
    assert("Reserved"@[0] != "Shutdown"@[0]);
    assert("Scheduled"@[0] != "Allocated"@[0]);
    assert("Scheduled"@[0] != "Unhealthy"@[0]);
    assert("Allocated"@[0] != "Unhealthy"@[0]);
    assert("Ready"@[0] != "Error"@[0]);
}

/// Converted metadata keeps every field of the raw metadata: the texts, the
/// generation, the label and annotation maps, and the timestamps as the same
/// numbers of seconds, a raw deletion timestamp of 0 standing for none.
pub proof fn law_object_meta_keeps_raw_fields(m: ObjectMeta, om: api::game_server::ObjectMeta)
    requires
        object_meta_converted(m, om),
    ensures
        m.name == om.name && m.namespace == om.namespace && m.uid == om.uid,
        m.resource_version == om.resource_version && m.generation == om.generation,
        m.annotations == om.annotations && m.labels == om.labels,
        m.creation_timestamp@ == om.creation_timestamp,
        m.deletion_timestamp is None <==> om.deletion_timestamp == 0,
        m.deletion_timestamp matches Some(t) ==> t@ == om.deletion_timestamp,
{
}

/// The health configuration exists exactly when the raw specification has a
/// health part that is enabled with a failure threshold that is not zero as a
/// `u32`; it then keeps the threshold and the two periods as whole seconds.
pub proof fn law_health_keeps_raw_fields(h: Option<HealthSpec>, spec: Option<api::game_server::Spec>)
    requires
        health_converted(h, spec),
    ensures
        h is Some <==> (spec matches Some(sp) && sp.health matches Some(raw) && !raw.disabled
            && raw.failure_threshold as u32 != 0),
        h matches Some(hs) ==> (spec matches Some(sp) && sp.health matches Some(raw)
            && hs.failure_threshold@ == raw.failure_threshold as u32
            && hs.period == duration_of_secs(raw.period_seconds as u64)
            && hs.initial_delay == duration_of_secs(raw.initial_delay_seconds as u64)),
{
}

impl GameServer {
    /// Builds the strongly typed record from the raw one. `address` is the
    /// outcome of parsing the raw status's address as an IP address (the
    /// text of the parse error when it failed); it is not read when there is
    /// no status.
    ///
    /// The status is read first: an address that did not parse is an
    /// `InvalidIp` error that holds the address and the parse error, and an
    /// unknown state then an `UnknownState` error. Ports keep their names and
    /// the low 16 bits of their numbers. The metadata is read next: its
    /// timestamps are seconds since the Unix epoch, a deletion timestamp of 0
    /// means none, and a timestamp outside the years of the `time` crate is
    /// the `InvalidComponentRange` error that `time` gives for it.
    pub fn try_from_proto(ogs: api::GameServer, address: Result<IpAddr, String>) -> (r: Result<GameServer, Error>)
        ensures
            r is Ok <==> status_accepted(ogs.status, address) && timestamps_representable(ogs.object_meta),
            match ogs.status {
                None => true,
                Some(st) => match address {
                    Err(e) => r matches Err(Error::InvalidIp { ip_str, err }) && ip_str == st.address
                        && err == e,
                    Ok(_) => state_named(st.state@) is None ==> (r matches Err(
                        Error::UnknownState(unknown),
                    ) && unknown@ == st.state@),
                },
            },
            status_accepted(ogs.status, address) && !timestamps_representable(ogs.object_meta) ==> (
            r matches Err(Error::InvalidComponentRange(cr)) && cr == timestamp_error(ogs.object_meta->0)),
            r matches Ok(gs) ==> match ogs.status {
                None => gs.status is None,
                Some(st) => gs.status matches Some(s) && status_converted(s, st, address->Ok_0),
            },
            r matches Ok(gs) ==> match ogs.object_meta {
                None => gs.object_meta is None,
                Some(om) => gs.object_meta matches Some(m) && object_meta_converted(m, om),
            },
            r matches Ok(gs) ==> health_converted(gs.health_spec, ogs.spec),
            r matches Ok(gs) ==> match ogs.status {
                None => true,
                Some(st) => gs.status matches Some(s) && s.players == st.players && s.address
                    == address->Ok_0 && s.ports@.len() == st.ports@.len(),
            },
            r is Ok && (ogs.spec is None || ogs.spec->0.health is None
                || ogs.spec->0.health->0.disabled) ==> r->Ok_0.health_spec is None,
    {
        let api::GameServer { object_meta, spec, status } = ogs;
        let status = match status {
            Some(status) => {
                let api::game_server::Status { state, address: ip_str, ports, players } = status;
                let address = match address {
                    Ok(address) => address,
                    Err(err) => {
                        return Err(Error::InvalidIp { ip_str, err });
                    },
                };
                let state = match State::from_name(state.as_str()) {
                    Ok(state) => state,
                    Err(err) => {
                        return Err(err);
                    },
                };
                Some(Status { state, address, ports: convert_ports(ports), players })
            },
            None => None,
        };
        let object_meta = match object_meta {
            Some(om) => match convert_object_meta(om) {
                Ok(m) => Some(m),
                Err(e) => {
                    return Err(e);
                },
            },
            None => None,
        };
        let health_spec = convert_health(spec);
        Ok(GameServer { object_meta, health_spec, status })
    }
}

} // verus!
