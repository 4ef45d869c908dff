use rymder::proto::api;
use rymder::proto::api::game_server::{spec::Health, status::PlayerStatus, status::Port as RawPort};
use rymder::sdk::gameserver::{MAX_UNIX_SECS, MIN_UNIX_SECS};
use rymder::{Error, GameServer, IpAddr, NonZeroU32, State, Timestamp};
use std::collections::HashMap;
use std::time::Duration;

#[test]
fn string_states() {
    assert_eq!(
        "PortAllocation".parse::<State>().unwrap(),
        State::PortAllocation
    );
    assert_eq!("Creating".parse::<State>().unwrap(), State::Creating);
    assert_eq!("Starting".parse::<State>().unwrap(), State::Starting);
    assert_eq!("Scheduled".parse::<State>().unwrap(), State::Scheduled);
    assert_eq!(
        "RequestReady".parse::<State>().unwrap(),
        State::RequestReady
    );
    assert_eq!("Ready".parse::<State>().unwrap(), State::Ready);
    assert_eq!("Shutdown".parse::<State>().unwrap(), State::Shutdown);
    assert_eq!("Error".parse::<State>().unwrap(), State::Error);
    assert_eq!("Unhealthy".parse::<State>().unwrap(), State::Unhealthy);
    assert_eq!("Reserved".parse::<State>().unwrap(), State::Reserved);
    assert_eq!("Allocated".parse::<State>().unwrap(), State::Allocated);
}

#[test]
fn unknown_states_are_refused() {
    for name in ["", "ready", "Ready ", " Ready", "Readyy", "Shut down", "ERROR"] {
        match name.parse::<State>() {
            Err(Error::UnknownState(s)) => assert_eq!(s, name),
            other => panic!("unexpected outcome for {:?}: {:?}", name, other),
        }
    }
}

fn raw_status(state: &str, address: &str) -> api::game_server::Status {
    api::game_server::Status {
        state: state.to_string(),
        address: address.to_string(),
        ports: vec![
            RawPort { name: "default".to_string(), port: 7654 },
            RawPort { name: "wide".to_string(), port: 70000 },
            RawPort { name: "negative".to_string(), port: -1 },
        ],
        players: Some(PlayerStatus { count: 2, capacity: 10, ids: vec!["a".to_string(), "b".to_string()] }),
    }
}

fn raw_meta(created: i64, deleted: i64) -> api::game_server::ObjectMeta {
    let mut labels = HashMap::new();
    labels.insert("label-key".to_string(), "label-value".to_string());
    let mut annotations = HashMap::new();
    annotations.insert("annotation-key".to_string(), "annotation-value".to_string());
    api::game_server::ObjectMeta {
        name: "gs-1".to_string(),
        namespace: "default".to_string(),
        uid: "1234".to_string(),
        resource_version: "42".to_string(),
        generation: 3,
        creation_timestamp: created,
        deletion_timestamp: deleted,
        annotations,
        labels,
    }
}

fn raw_health(disabled: bool, period: i32, threshold: i32, delay: i32) -> Option<api::game_server::Spec> {
    Some(api::game_server::Spec {
        health: Some(Health {
            disabled,
            period_seconds: period,
            failure_threshold: threshold,
            initial_delay_seconds: delay,
        }),
    })
}

#[test]
fn full_record_converts() {
    let ogs = api::GameServer {
        object_meta: Some(raw_meta(1_600_000_000, 0)),
        spec: raw_health(false, 5, 3, 10),
        status: Some(raw_status("Ready", "127.0.0.1")),
    };
    let gs = GameServer::try_from_proto(ogs, Ok(IpAddr::V4([127, 0, 0, 1]))).unwrap();

    let status = gs.status.unwrap();
    assert_eq!(status.state, State::Ready);
    assert_eq!(status.address, IpAddr::V4([127, 0, 0, 1]));
    assert_eq!(status.ports.len(), 3);
    assert_eq!(status.ports[0].name, "default");
    assert_eq!(status.ports[0].port, 7654);
    assert_eq!(status.ports[1].name, "wide");
    assert_eq!(status.ports[1].port, 4464);
    assert_eq!(status.ports[2].name, "negative");
    assert_eq!(status.ports[2].port, 65535);
    assert_eq!(status.players.unwrap().ids, vec!["a".to_string(), "b".to_string()]);

    let meta = gs.object_meta.unwrap();
    assert_eq!(meta.name, "gs-1");
    assert_eq!(meta.namespace, "default");
    assert_eq!(meta.uid, "1234");
    assert_eq!(meta.resource_version, "42");
    assert_eq!(meta.generation, 3);
    assert_eq!(meta.creation_timestamp.unix_secs(), 1_600_000_000);
    assert!(meta.deletion_timestamp.is_none());
    assert_eq!(meta.labels.get("label-key").map(String::as_str), Some("label-value"));
    assert_eq!(
        meta.annotations.get("annotation-key").map(String::as_str),
        Some("annotation-value")
    );

    let health = gs.health_spec.unwrap();
    assert_eq!(health.period, Duration::from_secs(5));
    assert_eq!(health.failure_threshold.get(), 3);
    assert_eq!(health.initial_delay, Duration::from_secs(10));
}

#[test]
fn empty_record_converts_to_nothing() {
    let gs = GameServer::try_from_proto(api::GameServer::default(), Err("unused".to_string())).unwrap();
    assert!(gs.object_meta.is_none());
    assert!(gs.health_spec.is_none());
    assert!(gs.status.is_none());
}

#[test]
fn deletion_timestamp_is_kept_when_set() {
    let ogs = api::GameServer {
        object_meta: Some(raw_meta(0, 1_700_000_000)),
        spec: None,
        status: None,
    };
    let gs = GameServer::try_from_proto(ogs, Err(String::new())).unwrap();
    let meta = gs.object_meta.unwrap();
    assert_eq!(meta.creation_timestamp.unix_secs(), 0);
    assert_eq!(meta.deletion_timestamp.unwrap().unix_secs(), 1_700_000_000);
}

#[test]
fn invalid_address_is_reported_before_unknown_state() {
    let ogs = api::GameServer {
        object_meta: None,
        spec: None,
        status: Some(raw_status("NotAState", "not-an-ip")),
    };
    match GameServer::try_from_proto(ogs, Err("invalid IP address syntax".to_string())) {
        Err(Error::InvalidIp { ip_str, err }) => {
            assert_eq!(ip_str, "not-an-ip");
            assert_eq!(err, "invalid IP address syntax");
        }
        other => panic!("unexpected outcome: {:?}", other),
    }
}

#[test]
fn unknown_state_is_reported() {
    let ogs = api::GameServer {
        object_meta: None,
        spec: None,
        status: Some(raw_status("Sleeping", "::1")),
    };
    let mut v6 = [0u8; 16];
    v6[15] = 1;
    match GameServer::try_from_proto(ogs, Ok(IpAddr::V6(v6))) {
        Err(Error::UnknownState(s)) => assert_eq!(s, "Sleeping"),
        other => panic!("unexpected outcome: {:?}", other),
    }
}

#[test]
fn health_is_none_when_absent_disabled_or_without_threshold() {
    let no_spec = api::GameServer { object_meta: None, spec: None, status: None };
    assert!(GameServer::try_from_proto(no_spec, Err(String::new())).unwrap().health_spec.is_none());

    let no_health = api::GameServer {
        object_meta: None,
        spec: Some(api::game_server::Spec { health: None }),
        status: None,
    };
    assert!(GameServer::try_from_proto(no_health, Err(String::new())).unwrap().health_spec.is_none());

    let disabled = api::GameServer { object_meta: None, spec: raw_health(true, 5, 3, 10), status: None };
    assert!(GameServer::try_from_proto(disabled, Err(String::new())).unwrap().health_spec.is_none());

    let zero = api::GameServer { object_meta: None, spec: raw_health(false, 5, 0, 10), status: None };
    assert!(GameServer::try_from_proto(zero, Err(String::new())).unwrap().health_spec.is_none());
}

#[test]
fn negative_health_numbers_are_read_as_unsigned() {
    let ogs = api::GameServer { object_meta: None, spec: raw_health(false, -1, -2, -3), status: None };
    let health = GameServer::try_from_proto(ogs, Err(String::new())).unwrap().health_spec.unwrap();
    assert_eq!(health.period, Duration::from_secs(u64::MAX));
    assert_eq!(health.failure_threshold.get(), u32::MAX - 1);
    assert_eq!(health.initial_delay, Duration::from_secs(u64::MAX - 2));
}

#[test]
fn timestamps_cover_the_range_of_time() {
    assert_eq!(MIN_UNIX_SECS, -377_705_116_800);
    assert_eq!(MAX_UNIX_SECS, 253_402_300_799);
    assert_eq!(Timestamp::from_unix_secs(MIN_UNIX_SECS).unwrap().unix_secs(), MIN_UNIX_SECS);
    assert_eq!(Timestamp::from_unix_secs(MAX_UNIX_SECS).unwrap().unix_secs(), MAX_UNIX_SECS);
    assert_eq!(Timestamp::from_unix_secs(0).unwrap().unix_secs(), 0);
    assert!(Timestamp::from_unix_secs(MIN_UNIX_SECS - 1).is_err());
    assert!(Timestamp::from_unix_secs(MAX_UNIX_SECS + 1).is_err());
    assert!(Timestamp::from_unix_secs(i64::MAX).is_err());
    assert!(Timestamp::from_unix_secs(i64::MIN).is_err());
    let min = time::OffsetDateTime::from_unix_timestamp(MIN_UNIX_SECS).unwrap();
    assert_eq!((min.year(), min.ordinal()), (-9999, 1));
    let max = time::OffsetDateTime::from_unix_timestamp(MAX_UNIX_SECS).unwrap();
    assert_eq!((max.year(), max.month() as u8, max.day()), (9999, 12, 31));
    assert!(time::OffsetDateTime::from_unix_timestamp(MIN_UNIX_SECS - 1).is_err());
    assert!(time::OffsetDateTime::from_unix_timestamp(MAX_UNIX_SECS + 1).is_err());
}

#[test]
fn out_of_range_creation_time_is_a_component_range_error() {
    let ogs = api::GameServer {
        object_meta: Some(api::game_server::ObjectMeta {
            creation_timestamp: i64::MAX,
            ..Default::default()
        }),
        spec: None,
        status: None,
    };
    assert!(matches!(
        GameServer::try_from_proto(ogs, Err(String::new())),
        Err(Error::InvalidComponentRange(_))
    ));
}

#[test]
fn out_of_range_deletion_time_is_a_component_range_error() {
    let ogs = api::GameServer {
        object_meta: Some(raw_meta(0, MAX_UNIX_SECS + 1)),
        spec: None,
        status: Some(raw_status("Ready", "10.0.0.1")),
    };
    match GameServer::try_from_proto(ogs, Ok(IpAddr::V4([10, 0, 0, 1]))) {
        Err(Error::InvalidComponentRange(e)) => {
            let expected = time::OffsetDateTime::from_unix_timestamp(MAX_UNIX_SECS + 1).unwrap_err();
            assert_eq!(e, expected);
        }
        other => panic!("unexpected outcome: {:?}", other),
    }
}

#[test]
fn status_errors_come_before_timestamp_errors() {
    let ogs = api::GameServer {
        object_meta: Some(raw_meta(i64::MAX, 0)),
        spec: None,
        status: Some(raw_status("Nope", "10.0.0.1")),
    };
    match GameServer::try_from_proto(ogs, Ok(IpAddr::V4([10, 0, 0, 1]))) {
        Err(Error::UnknownState(s)) => assert_eq!(s, "Nope"),
        other => panic!("unexpected outcome: {:?}", other),
    }
}

#[test]
fn records_clone() {
    let ogs = api::GameServer {
        object_meta: Some(raw_meta(5, 6)),
        spec: raw_health(false, 5, 3, 10),
        status: Some(raw_status("Allocated", "10.0.0.2")),
    };
    let gs = GameServer::try_from_proto(ogs, Ok(IpAddr::V4([10, 0, 0, 2]))).unwrap();
    let copy = gs.clone();
    assert_eq!(copy, gs);
    let health = gs.health_spec.unwrap();
    let health_copy = health;
    assert_eq!(health_copy, health);
}

#[test]
fn non_zero_values() {
    assert!(NonZeroU32::new(0).is_none());
    assert_eq!(NonZeroU32::new(7).unwrap().get(), 7);
}
