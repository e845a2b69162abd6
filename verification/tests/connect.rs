//! The handling of CONNECT packets, step by step.

use robustmq_handlers::broker::connect::{
    ConnectAction, ConnectEvent, ConnectRequest, ConnectState, Opening,
};
use robustmq_handlers::broker::ping::{PingAction, PingEvent, PingState};
use robustmq_handlers::broker::service::MqttService;
use robustmq_handlers::broker::types::{
    ConnectReturnCode, ConnectionLiveTime, MqttConnection, MqttProtocol, MqttReply, MqttSession,
};
use robustmq_handlers::machine::Step;

fn service() -> MqttService {
    MqttService::new(MqttProtocol::Mqtt5)
}

fn request() -> ConnectRequest {
    ConnectRequest { connect_id: 7, client_id: String::new() }
}

fn connection(keep_alive: u32) -> MqttConnection {
    MqttConnection { client_id: "auto-1".to_string(), keep_alive }
}

fn opening(session_expiry: u64) -> Opening {
    Opening { session: MqttSession { session_expiry }, new_session: true }
}

fn run(
    events: Vec<ConnectEvent<&'static str>>,
) -> (Vec<ConnectAction>, Option<MqttReply<&'static str>>) {
    let service = service();
    let request = request();
    let mut state = ConnectState::Start;
    let mut actions = Vec::new();
    let count = events.len();
    for (i, event) in events.into_iter().enumerate() {
        match service.connect(&request, state, event) {
            Step::Ask(next, action) => {
                state = next;
                actions.push(action);
            }
            Step::Answer(reply) => {
                assert_eq!(i + 1, count);
                return (actions, Some(reply));
            }
            Step::Mismatch => panic!("event {} does not fit", i),
        }
    }
    (actions, None)
}

fn events_up_to_login(flapping_detect: bool) -> Vec<ConnectEvent<&'static str>> {
    vec![
        ConnectEvent::Begin,
        ConnectEvent::Cluster { flapping_detect },
        ConnectEvent::Validated(None),
        ConnectEvent::ClientId { client_id: "auto-1".to_string(), new_client_id: true },
        ConnectEvent::Connection(connection(70_000)),
        ConnectEvent::Banned(false),
        ConnectEvent::Login(Ok(true)),
    ]
}

fn fail(code: ConnectReturnCode, reason: Option<&str>) -> Option<MqttReply<&'static str>> {
    Some(MqttReply::ConnectFail {
        protocol: MqttProtocol::Mqtt5,
        code,
        reason: reason.map(|r| r.to_string()),
    })
}

#[test]
fn connect_lets_a_client_in() {
    let mut events = events_up_to_login(false);
    events.push(ConnectEvent::Session(Ok(opening(0x1_0000_0005))));
    events.push(ConnectEvent::SessionSaved(Ok(())));
    events.push(ConnectEvent::LastWillSaved(Ok(())));
    events.push(ConnectEvent::AutoSubscribed(Ok(())));
    events.push(ConnectEvent::Now(1000));
    for _ in 0..4 {
        events.push(ConnectEvent::Done);
    }
    let (actions, reply) = run(events);
    let client_id = || "auto-1".to_string();
    let session = MqttSession { session_expiry: 0x1_0000_0005 };
    assert_eq!(
        actions,
        vec![
            ConnectAction::ReadCluster,
            ConnectAction::Validate { protocol: MqttProtocol::Mqtt5 },
            ConnectAction::ChooseClientId { client_id: String::new() },
            ConnectAction::BuildConnection { connect_id: 7, client_id: client_id() },
            ConnectAction::CheckBan { connection: connection(70_000) },
            ConnectAction::CheckLogin,
            ConnectAction::BuildSession { connect_id: 7, client_id: client_id() },
            ConnectAction::SaveSession {
                connect_id: 7,
                session,
                new_session: true,
                client_id: client_id(),
            },
            ConnectAction::SaveLastWill { client_id: client_id() },
            ConnectAction::AutoSubscribe {
                client_id: client_id(),
                protocol: MqttProtocol::Mqtt5,
            },
            ConnectAction::ReadClock,
            ConnectAction::ReportHeartbeat {
                client_id: client_id(),
                live_time: ConnectionLiveTime {
                    protocol: MqttProtocol::Mqtt5,
                    keep_live: 4464,
                    heartbeat: 1000,
                },
            },
            ConnectAction::AddSession { client_id: client_id(), session },
            ConnectAction::AddConnection { connect_id: 7, connection: connection(70_000) },
            ConnectAction::ReportConnected {
                session,
                connection: connection(70_000),
                connect_id: 7,
            },
        ]
    );
    assert_eq!(
        reply,
        Some(MqttReply::ConnectSuccess {
            protocol: MqttProtocol::Mqtt5,
            client_id: client_id(),
            new_client_id: true,
            session_expiry: 5,
            new_session: true,
            keep_alive: 70_000,
        })
    );
}

#[test]
fn connect_detects_flapping_by_the_given_client_id() {
    let (actions, reply) = run(events_up_to_login(true));
    assert_eq!(reply, None);
    assert_eq!(
        actions.last(),
        Some(&ConnectAction::DetectFlapping { client_id: String::new() })
    );
    let mut events = events_up_to_login(true);
    events.push(ConnectEvent::Done);
    let (actions, _) = run(events);
    assert_eq!(
        actions.last(),
        Some(&ConnectAction::BuildSession { connect_id: 7, client_id: "auto-1".to_string() })
    );
}

#[test]
fn connect_hands_on_the_validators_packet() {
    let (actions, reply) = run(vec![
        ConnectEvent::Begin,
        ConnectEvent::Cluster { flapping_detect: true },
        ConnectEvent::Validated(Some("rejected")),
    ]);
    assert_eq!(reply, Some(MqttReply::Ready("rejected")));
    assert_eq!(actions.len(), 2);
}

#[test]
fn connect_turns_away_who_is_banned() {
    let mut events = events_up_to_login(false);
    events.truncate(5);
    events.push(ConnectEvent::Banned(true));
    assert_eq!(run(events).1, fail(ConnectReturnCode::Banned, None));
}

#[test]
fn connect_turns_away_who_may_not_log_in() {
    let mut events = events_up_to_login(false);
    events.truncate(6);
    events.push(ConnectEvent::Login(Ok(false)));
    assert_eq!(run(events).1, fail(ConnectReturnCode::NotAuthorized, None));

    let mut events = events_up_to_login(false);
    events.truncate(6);
    events.push(ConnectEvent::Login(Err("no store".to_string())));
    assert_eq!(run(events).1, fail(ConnectReturnCode::UnspecifiedError, Some("no store")));
}

#[test]
fn connect_tells_what_failed() {
    let mut events = events_up_to_login(false);
    events.push(ConnectEvent::Session(Err("a".to_string())));
    assert_eq!(run(events).1, fail(ConnectReturnCode::MalformedPacket, Some("a")));

    let mut events = events_up_to_login(false);
    events.push(ConnectEvent::Session(Ok(opening(1))));
    events.push(ConnectEvent::SessionSaved(Err("b".to_string())));
    assert_eq!(run(events).1, fail(ConnectReturnCode::MalformedPacket, Some("b")));

    let mut events = events_up_to_login(false);
    events.push(ConnectEvent::Session(Ok(opening(1))));
    events.push(ConnectEvent::SessionSaved(Ok(())));
    events.push(ConnectEvent::LastWillSaved(Err("c".to_string())));
    assert_eq!(run(events).1, fail(ConnectReturnCode::UnspecifiedError, Some("c")));

    let mut events = events_up_to_login(false);
    events.push(ConnectEvent::Session(Ok(opening(1))));
    events.push(ConnectEvent::SessionSaved(Ok(())));
    events.push(ConnectEvent::LastWillSaved(Ok(())));
    events.push(ConnectEvent::AutoSubscribed(Err("d".to_string())));
    let (actions, reply) = run(events);
    assert_eq!(reply, fail(ConnectReturnCode::UnspecifiedError, Some("d")));
    assert_eq!(actions.len(), 10);
}

#[test]
fn connect_takes_only_answers() {
    let service = service();
    let wrong: ConnectEvent<()> = ConnectEvent::Done;
    assert_eq!(service.connect(&request(), ConnectState::ReadingCluster, wrong), Step::Mismatch);
    let wrong: ConnectEvent<()> = ConnectEvent::Banned(true);
    assert_eq!(
        service.connect(&request(), ConnectState::Validating { flapping: false }, wrong),
        Step::Mismatch
    );
}

#[test]
fn ping_repeats_the_sign_of_life_of_connect() {
    let mut events = events_up_to_login(true);
    events.push(ConnectEvent::Done);
    events.push(ConnectEvent::Session(Ok(opening(1))));
    events.push(ConnectEvent::SessionSaved(Ok(())));
    events.push(ConnectEvent::LastWillSaved(Ok(())));
    events.push(ConnectEvent::AutoSubscribed(Ok(())));
    events.push(ConnectEvent::Now(1000));
    for _ in 0..4 {
        events.push(ConnectEvent::Done);
    }
    let count = events.len();
    let (actions, _) = run(events);
    let (first_id, first) = match &actions[count - 5] {
        ConnectAction::ReportHeartbeat { client_id, live_time } => (client_id, live_time),
        _ => panic!("no sign of life"),
    };

    let found = PingState::ReadingClock { connection: connection(70_000) };
    let step: Step<_, _, MqttReply<()>> = service().ping(7, found, PingEvent::Now(2000));
    assert_eq!(
        step,
        Step::Ask(
            PingState::ReportingHeartbeat,
            PingAction::ReportHeartbeat {
                client_id: first_id.clone(),
                live_time: ConnectionLiveTime { heartbeat: 2000, ..*first },
            }
        )
    );
}
