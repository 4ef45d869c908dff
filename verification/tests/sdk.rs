use rymder::proto::{alpha, api};
use rymder::sdk::connect::{
    plan_connect, resolve_port, server_uri, DEFAULT_PORT, DEFAULT_TIMEOUT_SECS,
};
use rymder::sdk::{count_value, empty, player_capacity_request, reserve_request};
use rymder::text::{decimal_string, str_eq};
use rymder::{ConnectAction, ConnectEvent, ConnectPhase, ConnectStep, Error, GameServer, State};
use std::time::Duration;

#[test]
fn empty_message() {
    assert_eq!(empty(), api::Empty {});
}

#[test]
fn reserve_is_at_least_one_second() {
    assert_eq!(reserve_request(Duration::from_secs(0)).seconds, 1);
    assert_eq!(reserve_request(Duration::from_millis(999)).seconds, 1);
    assert_eq!(reserve_request(Duration::from_millis(2500)).seconds, 2);
    assert_eq!(reserve_request(Duration::from_secs(30)).seconds, 30);
    assert_eq!(reserve_request(Duration::from_secs(i64::MAX as u64)).seconds, i64::MAX);
    assert_eq!(reserve_request(Duration::from_secs(u64::MAX)).seconds, 1);
}

#[test]
fn player_counts_keep_their_bits() {
    assert_eq!(player_capacity_request(20), alpha::Count { count: 20 });
    assert_eq!(player_capacity_request(i64::MAX as u64), alpha::Count { count: i64::MAX });
    assert_eq!(player_capacity_request(u64::MAX), alpha::Count { count: -1 });
    assert_eq!(count_value(alpha::Count { count: 10 }), 10);
    assert_eq!(count_value(alpha::Count { count: -1 }), u64::MAX);
}

#[test]
fn port_resolution() {
    assert_eq!(resolve_port(Some(1234), Some("80".to_string())).unwrap(), 1234);
    assert_eq!(resolve_port(None, Some("8080".to_string())).unwrap(), 8080);
    assert_eq!(resolve_port(None, Some("+80".to_string())).unwrap(), 80);
    assert_eq!(resolve_port(None, Some("065535".to_string())).unwrap(), 65535);
    assert_eq!(resolve_port(None, None).unwrap(), DEFAULT_PORT);
    assert_eq!(DEFAULT_PORT, 9357);
    for bad in ["", "+", " 80", "80 ", "-1", "65536", "8o", "1_000"] {
        assert!(
            matches!(resolve_port(None, Some(bad.to_string())), Err(Error::ParseInteger(_))),
            "{:?} should not be a port",
            bad
        );
    }
}

#[test]
fn server_uri_is_on_localhost() {
    let uri = server_uri(9357).unwrap();
    assert_eq!(uri.scheme_str(), Some("http"));
    assert_eq!(uri.host(), Some("localhost"));
    assert_eq!(uri.port_u16(), Some(9357));
    let uri = server_uri(0).unwrap();
    assert_eq!(uri.port_u16(), Some(0));
}

#[test]
fn connect_plan_defaults() {
    let plan = plan_connect(None, None, None, None).unwrap();
    assert_eq!(plan.uri.port_u16(), Some(9357));
    assert_eq!(plan.connect_timeout, Duration::from_secs(DEFAULT_TIMEOUT_SECS));
    assert_eq!(plan.keep_alive, Duration::from_secs(30));

    let plan = plan_connect(
        Some(7000),
        Some("nonsense".to_string()),
        Some(Duration::from_secs(2)),
        Some(Duration::from_millis(1500)),
    )
    .unwrap();
    assert_eq!(plan.uri.port_u16(), Some(7000));
    assert_eq!(plan.connect_timeout, Duration::from_secs(2));
    assert_eq!(plan.keep_alive, Duration::from_millis(1500));

    assert!(matches!(
        plan_connect(None, Some("x".to_string()), None, None),
        Err(Error::ParseInteger(_))
    ));
}

#[test]
fn connect_retries_until_a_record_arrives() {
    let mut phase = ConnectPhase::start();
    assert_eq!(phase.action(), ConnectAction::WaitForTick);
    let events = [
        (ConnectEvent::Ticked, ConnectAction::OpenChannel),
        (ConnectEvent::ChannelFailed, ConnectAction::WaitForTick),
        (ConnectEvent::Ticked, ConnectAction::OpenChannel),
        (ConnectEvent::ChannelOpened, ConnectAction::FetchGameServer),
        (ConnectEvent::FetchFailed, ConnectAction::WaitForTick),
        (ConnectEvent::Ticked, ConnectAction::FetchGameServer),
    ];
    for (event, expected) in events {
        match phase.step(event) {
            ConnectStep::Continue(next) => phase = next,
            ConnectStep::Finished(_) => panic!("finished too early"),
        }
        assert_eq!(phase.action(), expected);
    }
    let record = GameServer { object_meta: None, health_spec: None, status: None };
    match phase.step(ConnectEvent::Fetched(Ok(record))) {
        ConnectStep::Finished(Ok(gs)) => assert!(gs.status.is_none()),
        other => panic!("unexpected step: {:?}", other),
    }
}

#[test]
fn connect_ends_with_a_conversion_error() {
    let phase = ConnectPhase::FetchingGameServer;
    match phase.step(ConnectEvent::Fetched(Err(Error::UnknownState("x".to_string())))) {
        ConnectStep::Finished(Err(Error::UnknownState(s))) => assert_eq!(s, "x"),
        other => panic!("unexpected step: {:?}", other),
    }
}

#[test]
fn unexpected_events_change_nothing() {
    let phase = ConnectPhase::TickBeforeChannel;
    match phase.step(ConnectEvent::FetchFailed) {
        ConnectStep::Continue(p) => assert_eq!(p, ConnectPhase::TickBeforeChannel),
        other => panic!("unexpected step: {:?}", other),
    }
    let phase = ConnectPhase::OpeningChannel;
    match phase.step(ConnectEvent::Fetched(Ok(GameServer {
        object_meta: None,
        health_spec: None,
        status: None,
    }))) {
        ConnectStep::Continue(p) => assert_eq!(p, ConnectPhase::OpeningChannel),
        other => panic!("unexpected step: {:?}", other),
    }
}

#[test]
fn error_messages() {
    assert_eq!(
        Error::UnknownState("Sleeping".to_string()).message(),
        "received an unknown state 'Sleeping' from agones"
    );
    assert_eq!(
        Error::HealthPingConnectionFailure("gone".to_string()).message(),
        "health ping connection failure: `gone`"
    );
    assert_eq!(
        Error::InvalidIp { ip_str: "1.2.3".to_string(), err: "invalid IP address syntax".to_string() }
            .message(),
        "failed to parse ip '1.2.3': invalid IP address syntax"
    );
    assert_eq!(Error::Rpc("boom".to_string()).message(), "rpc failure: `boom`");
    assert_eq!(Error::Transport("reset".to_string()).message(), "transport failure: `reset`");
    let parse = "x".parse::<u16>().unwrap_err();
    assert_eq!(
        Error::ParseInteger(parse.clone()).message(),
        format!("failed to parse integer: `{}`", parse)
    );
    let invalid = "http://[".parse::<http::Uri>().unwrap_err();
    let text = invalid.to_string();
    assert_eq!(
        Error::InvalidUri(invalid).message(),
        format!("failed to parse connection uri: `{}`", text)
    );
}

#[test]
fn text_helpers() {
    assert!(str_eq("Ready", "Ready"));
    assert!(!str_eq("Ready", "Read"));
    assert!(!str_eq("Ready", "ready"));
    assert!(str_eq("", ""));
    assert_eq!(decimal_string(0), "0");
    assert_eq!(decimal_string(9357), "9357");
    assert_eq!(decimal_string(u64::MAX), u64::MAX.to_string());
}

#[test]
fn state_copies() {
    let s = State::Allocated;
    let t = s;
    assert_eq!(s, t);
}
