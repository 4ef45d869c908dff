//! The decisions taken while connecting to the SDK server: where to connect,
//! how long to wait, and what to do after each step of the connection.

use crate::errors::Error;
use crate::foreign::{
    duration_from_secs, duration_of_secs, parse_u16, parse_uri, parsed_uri, whole_secs,
};
use crate::sdk::gameserver::GameServer;
use crate::text::{decimal_string, decimal_text, decimal_u16, law_decimal_text_reads_back};
use vstd::prelude::*;

verus! {

/// The port the SDK server listens on when nothing else says otherwise.
pub const DEFAULT_PORT: u16 = 9357u16;

/// The keep alive timeout and the connection timeout, in seconds, used when
/// none is given.
pub const DEFAULT_TIMEOUT_SECS: u64 = 30u64;

/// The port to connect to: the given one, else the one that the
/// `AGONES_SDK_GRPC_PORT` environment variable holds (`env_port`, when it is
/// set), else the default. `None` when the variable's value is not a `u16`.
pub open spec fn resolved_port(port: Option<u16>, env_port: Option<Seq<char>>) -> Option<u16> {
    match port {
        Some(p) => Some(p),
        None => match env_port {
            Some(v) => decimal_u16(v),
            None => Some(DEFAULT_PORT),
        },
    }
}

/// The characters of an optional string.
pub open spec fn text_of(s: Option<String>) -> Option<Seq<char>> {
    match s {
        Some(v) => Some(v@),
        None => None,
    }
}

/// The address of the SDK server on the local host at `port`.
pub open spec fn address_text(port: u16) -> Seq<char> {
    "http://localhost:"@ + decimal_text(port as nat)
}

/// Picks the port to connect to: `port` when given, else the value of the
/// `AGONES_SDK_GRPC_PORT` environment variable when it is set (`env_port`),
/// else 9357. A variable that does not hold a `u16` is a `ParseInteger`
/// error.
pub fn resolve_port(port: Option<u16>, env_port: Option<String>) -> (r: Result<u16, Error>)
    ensures
        r is Ok <==> resolved_port(port, text_of(env_port)) is Some,
        r matches Ok(p) ==> resolved_port(port, text_of(env_port)) == Some(p),
        r matches Err(e) ==> e is ParseInteger,
        match port {
            Some(p) => r matches Ok(q) && q == p,
            None => true,
        },
        port is None && env_port is None ==> r == Ok::<u16, Error>(DEFAULT_PORT),
{
    match port {
        Some(p) => Ok(p),
        None => match env_port {
            Some(v) => match parse_u16(v.as_str()) {
                Ok(p) => Ok(p),
                Err(e) => Err(Error::ParseInteger(e)),
            },
            None => Ok(DEFAULT_PORT),
        },
    }
}

/// The URI of the SDK server on the local host at `port`; a text that http
/// does not take as a URI is an `InvalidUri` error.
pub fn server_uri(port: u16) -> (r: Result<http::Uri, Error>)
    ensures
        match parsed_uri(address_text(port)) {
            Ok(u) => r matches Ok(v) && v == u,
            Err(e) => r matches Err(Error::InvalidUri(v)) && v == e,
        },
{
    let mut text = String::from_str("http://localhost:");
    let digits = decimal_string(port as u64);
    text.append(digits.as_str());
    assert(text@ == address_text(port));
    match parse_uri(text.as_str()) {
        Ok(u) => Ok(u),
        Err(e) => Err(Error::InvalidUri(e)),
    }
}

/// A given port is used whatever the environment says; without one the
/// environment variable's value is read as an unsigned decimal `u16`; without
/// either the port is 9357.
pub proof fn law_port_precedence(port: Option<u16>, env_port: Option<Seq<char>>)
    ensures
        match port {
            Some(p) => resolved_port(port, env_port) == Some(p),
            None => match env_port {
                Some(v) => resolved_port(port, env_port) == decimal_u16(v),
                None => resolved_port(port, env_port) == Some(9357u16),
            },
        },
{
}

/// The address of the SDK server at `port` is `http://localhost:` followed by
/// a numeral that reads back as `port`.
pub proof fn law_address_names_the_port(port: u16)
    ensures
        address_text(port).len() > 17,
        address_text(port).take(17) == "http://localhost:"@,
        decimal_u16(address_text(port).skip(17)) == Some(port),
{
    reveal_strlit("http://localhost:");
    law_decimal_text_reads_back(port as nat);
    assert("http://localhost:"@.len() == 17);
    assert(address_text(port).take(17) =~= "http://localhost:"@);
    assert(address_text(port).skip(17) =~= decimal_text(port as nat));
}

/// A given timeout is used as it is, whatever its length; only a missing one
/// is replaced by the default of 30 seconds.
pub proof fn law_timeouts_are_kept(d: core::time::Duration)
    ensures
        or_default_timeout(Some(d)) == d,
        or_default_timeout(None) == duration_of_secs(30),
{
}

/// Where and how to connect to the SDK server.
pub struct ConnectPlan {
    /// The address of the SDK server.
    pub uri: http::Uri,
    /// How long the connection may stay silent before it counts as lost.
    pub keep_alive: core::time::Duration,
    /// How long connecting, and fetching the first game server record, may
    /// take in all.
    pub connect_timeout: core::time::Duration,
}

/// The given duration, or the default of 30 seconds.
pub open spec fn or_default_timeout(d: Option<core::time::Duration>) -> core::time::Duration {
    match d {
        Some(d) => d,
        None => duration_of_secs(DEFAULT_TIMEOUT_SECS),
    }
}

/// Plans a connection to the SDK server: the URI from `resolve_port` and
/// `server_uri` (the first error stops the planning), and the timeouts, which
/// default to 30 seconds each.
pub fn plan_connect(
    port: Option<u16>,
    env_port: Option<String>,
    connect_timeout: Option<core::time::Duration>,
    keep_alive: Option<core::time::Duration>,
) -> (r: Result<ConnectPlan, Error>)
    ensures
        match resolved_port(port, text_of(env_port)) {
            None => r matches Err(e) && e is ParseInteger,
            Some(p) => match parsed_uri(address_text(p)) {
                Ok(u) => r matches Ok(plan) && plan.uri == u
                    && plan.connect_timeout == or_default_timeout(connect_timeout)
                    && plan.keep_alive == or_default_timeout(keep_alive),
                Err(e) => r matches Err(Error::InvalidUri(v)) && v == e,
            },
        },
        r matches Ok(plan) ==> match connect_timeout {
            Some(d) => plan.connect_timeout == d,
            None => whole_secs(plan.connect_timeout) == DEFAULT_TIMEOUT_SECS,
        },
        r matches Ok(plan) ==> match keep_alive {
            Some(d) => plan.keep_alive == d,
            None => whole_secs(plan.keep_alive) == DEFAULT_TIMEOUT_SECS,
        },
{
    let port = match resolve_port(port, env_port) {
        Ok(p) => p,
        Err(e) => {
            return Err(e);
        },
    };
    let uri = match server_uri(port) {
        Ok(u) => u,
        Err(e) => {
            return Err(e);
        },
    };
    let keep_alive = match keep_alive {
        Some(d) => d,
        None => duration_from_secs(DEFAULT_TIMEOUT_SECS),
    };
    let connect_timeout = match connect_timeout {
        Some(d) => d,
        None => duration_from_secs(DEFAULT_TIMEOUT_SECS),
    };
    Ok(ConnectPlan { uri, keep_alive, connect_timeout })
}

/// Where a connection to the SDK server stands. A connection first waits for
/// the retry timer and opens a channel, retrying until one opens; it then
/// fetches the game server record, retrying after each timer tick until a
/// fetch succeeds.
#[derive(Copy, Clone, Debug, PartialEq, Eq, Structural)]
pub enum ConnectPhase {
    /// Waiting for the timer before opening a channel.
    TickBeforeChannel,
    /// Opening a channel.
    OpeningChannel,
    /// Fetching the game server record over the open channel.
    FetchingGameServer,
    /// Waiting for the timer before fetching again.
    TickBeforeFetch,
}

/// What the caller must do for a connection to progress.
#[derive(Copy, Clone, Debug, PartialEq, Eq, Structural)]
pub enum ConnectAction {
    /// Wait for the next tick of the retry timer.
    WaitForTick,
    /// Try to open a channel to the SDK server.
    OpenChannel,
    /// Ask the SDK server for the game server record.
    FetchGameServer,
}

/// What happened when the caller did what was asked.
#[derive(Debug)]
pub enum ConnectEvent {
    /// The retry timer ticked.
    Ticked,
    /// A channel opened.
    ChannelOpened,
    /// Opening a channel failed.
    ChannelFailed,
    /// The SDK server sent a game server record, and this is the outcome of
    /// reading it.
    Fetched(Result<GameServer, Error>),
    /// The request for the game server record failed.
    FetchFailed,
}

/// Where a connection goes after an event.
#[derive(Debug)]
pub enum ConnectStep {
    /// The connection goes on in this phase.
    Continue(ConnectPhase),
    /// The connection is over, with this outcome.
    Finished(Result<GameServer, Error>),
}

/// The phase a connection is in after an event that is not the fetched
/// record; an event that the phase does not wait for changes nothing.
pub open spec fn next_phase(phase: ConnectPhase, event: ConnectEvent) -> ConnectPhase {
    match (phase, event) {
        (ConnectPhase::TickBeforeChannel, ConnectEvent::Ticked) => ConnectPhase::OpeningChannel,
        (ConnectPhase::OpeningChannel, ConnectEvent::ChannelFailed) => ConnectPhase::TickBeforeChannel,
        (ConnectPhase::OpeningChannel, ConnectEvent::ChannelOpened) => ConnectPhase::FetchingGameServer,
        (ConnectPhase::FetchingGameServer, ConnectEvent::FetchFailed) => ConnectPhase::TickBeforeFetch,
        (ConnectPhase::TickBeforeFetch, ConnectEvent::Ticked) => ConnectPhase::FetchingGameServer,
        _ => phase,
    }
}

/// The action that a phase asks for.
pub open spec fn phase_action(phase: ConnectPhase) -> ConnectAction {
    match phase {
        ConnectPhase::TickBeforeChannel => ConnectAction::WaitForTick,
        ConnectPhase::OpeningChannel => ConnectAction::OpenChannel,
        ConnectPhase::FetchingGameServer => ConnectAction::FetchGameServer,
        ConnectPhase::TickBeforeFetch => ConnectAction::WaitForTick,
    }
}

/// Once a channel has opened, a connection never opens another: from the
/// phases that follow the opening, every event other than the fetched record
/// leads to one of those phases again.
pub proof fn lemma_channel_opens_once(phase: ConnectPhase, event: ConnectEvent)
    requires
        phase == ConnectPhase::FetchingGameServer || phase == ConnectPhase::TickBeforeFetch,
    ensures
        next_phase(phase, event) == ConnectPhase::FetchingGameServer || next_phase(phase, event)
            == ConnectPhase::TickBeforeFetch,
{
}

/// Until a channel opens, a connection only waits for ticks and tries to open
/// one: from the phases before the opening, every event other than an opened
/// channel leads to one of those phases again.
pub proof fn lemma_no_fetch_before_channel(phase: ConnectPhase, event: ConnectEvent)
    requires
        phase == ConnectPhase::TickBeforeChannel || phase == ConnectPhase::OpeningChannel,
        !(event is ChannelOpened),
    ensures
        next_phase(phase, event) == ConnectPhase::TickBeforeChannel || next_phase(phase, event)
            == ConnectPhase::OpeningChannel,
{
}

impl ConnectPhase {
    /// The phase a connection starts in: waiting for the first tick.
    pub fn start() -> (phase: ConnectPhase)
        ensures
            phase == ConnectPhase::TickBeforeChannel,
    {
        ConnectPhase::TickBeforeChannel
    }

    /// What the caller must do next.
    pub fn action(&self) -> (a: ConnectAction)
        ensures
            a == phase_action(*self),
    {
        match self {
            ConnectPhase::TickBeforeChannel => ConnectAction::WaitForTick,
            ConnectPhase::OpeningChannel => ConnectAction::OpenChannel,
            ConnectPhase::FetchingGameServer => ConnectAction::FetchGameServer,
            ConnectPhase::TickBeforeFetch => ConnectAction::WaitForTick,
        }
    }

    /// Where the connection goes after `event`. The record that a fetch
    /// brings ends the connection while a fetch is under way, with the outcome
    /// of reading it, an error included; failures to open a channel or to
    /// fetch are retried after the next tick, so only the caller's deadline
    /// ends a connection that keeps failing.
    pub fn step(self, event: ConnectEvent) -> (next: ConnectStep)
        ensures
            match event {
                ConnectEvent::Fetched(outcome) => if self == ConnectPhase::FetchingGameServer {
                    next matches ConnectStep::Finished(o) && o == outcome
                } else {
                    next == ConnectStep::Continue(self)
                },
                _ => next == ConnectStep::Continue(next_phase(self, event)),
            },
    {
        match event {
            ConnectEvent::Fetched(outcome) => {
                if self == ConnectPhase::FetchingGameServer {
                    ConnectStep::Finished(outcome)
                } else {
                    ConnectStep::Continue(self)
                }
            },
            ConnectEvent::Ticked => match self {
                ConnectPhase::TickBeforeChannel => ConnectStep::Continue(ConnectPhase::OpeningChannel),
                ConnectPhase::TickBeforeFetch => ConnectStep::Continue(ConnectPhase::FetchingGameServer),
                _ => ConnectStep::Continue(self),
            },
            ConnectEvent::ChannelOpened => match self {
                ConnectPhase::OpeningChannel => ConnectStep::Continue(ConnectPhase::FetchingGameServer),
                _ => ConnectStep::Continue(self),
            },
            ConnectEvent::ChannelFailed => match self {
                ConnectPhase::OpeningChannel => ConnectStep::Continue(ConnectPhase::TickBeforeChannel),
                _ => ConnectStep::Continue(self),
            },
            ConnectEvent::FetchFailed => match self {
                ConnectPhase::FetchingGameServer => ConnectStep::Continue(ConnectPhase::TickBeforeFetch),
                _ => ConnectStep::Continue(self),
            },
        }
    }
}

} // verus!
