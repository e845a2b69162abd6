//! The handling of the other packets, step by step.

use robustmq_handlers::broker::ack::{
    AckAction, AckEvent, AckRequest, AckState, QosAckPackageData, QosAckPackageType,
};
use robustmq_handlers::broker::disconnect::{
    DisconnectAction, DisconnectEvent, DisconnectRequest, DisconnectState,
};
use robustmq_handlers::broker::ping::{PingAction, PingEvent, PingState};
use robustmq_handlers::broker::release::{
    ReleaseAction, ReleaseEvent, ReleaseRequest, ReleaseState,
};
use robustmq_handlers::broker::service::MqttService;
use robustmq_handlers::broker::subscribe::{
    grant, SubscribeAction, SubscribeEvent, SubscribeRequest, SubscribeState,
};
use robustmq_handlers::broker::types::{
    live_time, min_qos, qos, ConnectionLiveTime, DisconnectReasonCode, MqttConnection,
    MqttProtocol, MqttReply, MqttSession, PubCompReason, QoS, SubscribeReasonCode, UnsubAckReason,
};
use robustmq_handlers::broker::unsubscribe::{
    UnsubscribeAction, UnsubscribeEvent, UnsubscribeRequest, UnsubscribeState,
};
use robustmq_handlers::machine::Step;

type Packet = &'static str;

fn service() -> MqttService {
    MqttService::new(MqttProtocol::Mqtt5)
}

fn connection() -> MqttConnection {
    MqttConnection { client_id: "c1".to_string(), keep_alive: 65_537 }
}

fn client_id() -> String {
    "c1".to_string()
}

fn drive<S, E, A, R>(
    step: impl Fn(S, E) -> Step<S, A, R>,
    start: S,
    events: Vec<E>,
) -> (Vec<A>, Option<R>) {
    let mut state = start;
    let mut actions = Vec::new();
    let count = events.len();
    for (i, event) in events.into_iter().enumerate() {
        match step(state, event) {
            Step::Ask(next, action) => {
                state = next;
                actions.push(action);
            }
            Step::Answer(reply) => {
                assert_eq!(i + 1, count);
                return (actions, Some(reply));
            }
            Step::Mismatch => panic!("event {} does not fit", i),
        }
    }
    (actions, None)
}

fn disconnected() -> Option<MqttReply<Packet>> {
    Some(MqttReply::Disconnect {
        protocol: MqttProtocol::Mqtt5,
        reason: Some(DisconnectReasonCode::MaximumConnectTime),
    })
}

#[test]
fn qos_levels() {
    assert_eq!(qos(0), Some(QoS::AtMostOnce));
    assert_eq!(qos(1), Some(QoS::AtLeastOnce));
    assert_eq!(qos(2), Some(QoS::ExactlyOnce));
    assert_eq!(qos(3), None);
    assert_eq!(qos(255), None);
}

#[test]
fn min_qos_is_the_lower_level() {
    let all = [QoS::AtMostOnce, QoS::AtLeastOnce, QoS::ExactlyOnce];
    for (i, a) in all.iter().enumerate() {
        for (j, b) in all.iter().enumerate() {
            assert_eq!(min_qos(*a, *b), all[i.min(j)]);
        }
    }
}

#[test]
fn live_time_keeps_sixteen_bits() {
    assert_eq!(
        live_time(MqttProtocol::Mqtt3, &connection(), 12),
        ConnectionLiveTime { protocol: MqttProtocol::Mqtt3, keep_live: 1, heartbeat: 12 }
    );
}

#[test]
fn acknowledgements_are_passed_on_under_their_kind() {
    let request = AckRequest { connect_id: 4, pkid: 11 };
    let events = || {
        vec![
            AckEvent::Begin,
            AckEvent::Connection(Some(connection())),
            AckEvent::Waiting(true),
            AckEvent::Done,
        ]
    };
    let expected = |ack_type| {
        vec![
            AckAction::LookUpConnection { connect_id: 4 },
            AckAction::FindWaiting { client_id: client_id(), pkid: 11 },
            AckAction::Send(QosAckPackageData { ack_type, pkid: 11 }),
        ]
    };
    let none: Option<Option<MqttReply<Packet>>> = Some(None);

    let (actions, reply) =
        drive(|s, e| service().publish_ack(&request, s, e), AckState::Start, events());
    assert_eq!(actions, expected(QosAckPackageType::PubAck));
    assert_eq!(reply, none);

    let (actions, reply) =
        drive(|s, e| service().publish_rec(&request, s, e), AckState::Start, events());
    assert_eq!(actions, expected(QosAckPackageType::PubRec));
    assert_eq!(reply, none);

    let (actions, reply) =
        drive(|s, e| service().publish_comp(&request, s, e), AckState::Start, events());
    assert_eq!(actions, expected(QosAckPackageType::PubComp));
    assert_eq!(reply, none);
}

#[test]
fn acknowledgements_that_nobody_waits_for_are_dropped() {
    let request = AckRequest { connect_id: 4, pkid: 11 };
    let none: Option<Option<MqttReply<Packet>>> = Some(None);
    let (actions, reply) = drive(
        |s, e| service().publish_ack(&request, s, e),
        AckState::Start,
        vec![AckEvent::Begin, AckEvent::Connection(None)],
    );
    assert_eq!(actions.len(), 1);
    assert_eq!(reply, none);
    let (actions, reply) = drive(
        |s, e| service().publish_comp(&request, s, e),
        AckState::Start,
        vec![AckEvent::Begin, AckEvent::Connection(Some(connection())), AckEvent::Waiting(false)],
    );
    assert_eq!(actions.len(), 2);
    assert_eq!(reply, none);
}

fn release(events: Vec<ReleaseEvent>) -> (Vec<ReleaseAction>, Option<MqttReply<Packet>>) {
    let request = ReleaseRequest { connect_id: 4, pkid: 21 };
    drive(|s, e| service().publish_rel(&request, s, e), ReleaseState::Start, events)
}

fn release_failed(reason: Option<&str>) -> Option<MqttReply<Packet>> {
    Some(MqttReply::PubCompFail {
        protocol: MqttProtocol::Mqtt5,
        connection: connection(),
        pkid: 21,
        code: PubCompReason::PacketIdentifierNotFound,
        reason: reason.map(|r| r.to_string()),
    })
}

#[test]
fn release_deletes_the_packet_identifier() {
    let (actions, reply) = release(vec![
        ReleaseEvent::Begin,
        ReleaseEvent::Connection(Some(connection())),
        ReleaseEvent::PkidFound(Ok(true)),
        ReleaseEvent::PkidDeleted(Ok(())),
        ReleaseEvent::Done,
        ReleaseEvent::Done,
    ]);
    assert_eq!(
        actions,
        vec![
            ReleaseAction::LookUpConnection { connect_id: 4 },
            ReleaseAction::FindPkid { client_id: client_id(), pkid: 21 },
            ReleaseAction::DeletePkid { client_id: client_id(), pkid: 21 },
            ReleaseAction::DecrementReceiving { connection: connection() },
            ReleaseAction::DecrementReceiving { connection: connection() },
        ]
    );
    assert_eq!(
        reply,
        Some(MqttReply::PubCompSuccess { protocol: MqttProtocol::Mqtt5, pkid: 21 })
    );
}

#[test]
fn release_fails_without_a_packet_identifier() {
    let found = |event| {
        release(vec![ReleaseEvent::Begin, ReleaseEvent::Connection(Some(connection())), event]).1
    };
    assert_eq!(found(ReleaseEvent::PkidFound(Ok(false))), release_failed(None));
    assert_eq!(
        found(ReleaseEvent::PkidFound(Err("x".to_string()))),
        release_failed(Some("x"))
    );
    let (actions, reply) = release(vec![
        ReleaseEvent::Begin,
        ReleaseEvent::Connection(Some(connection())),
        ReleaseEvent::PkidFound(Ok(true)),
        ReleaseEvent::PkidDeleted(Err("y".to_string())),
    ]);
    assert_eq!(actions.len(), 3);
    assert_eq!(reply, release_failed(Some("y")));
    assert_eq!(
        release(vec![ReleaseEvent::Begin, ReleaseEvent::Connection(None)]).1,
        disconnected()
    );
}

#[test]
fn ping_reports_a_sign_of_life() {
    let run = |events| -> (Vec<PingAction>, Option<MqttReply<Packet>>) {
        drive(|s, e| service().ping(4, s, e), PingState::Start, events)
    };
    let (actions, reply) = run(vec![
        PingEvent::Begin,
        PingEvent::Connection(Some(connection())),
        PingEvent::Now(99),
        PingEvent::Done,
    ]);
    assert_eq!(
        actions,
        vec![
            PingAction::LookUpConnection { connect_id: 4 },
            PingAction::ReadClock,
            PingAction::ReportHeartbeat {
                client_id: client_id(),
                live_time: ConnectionLiveTime {
                    protocol: MqttProtocol::Mqtt5,
                    keep_live: 1,
                    heartbeat: 99,
                },
            },
        ]
    );
    assert_eq!(reply, Some(MqttReply::PingResp));
    assert_eq!(run(vec![PingEvent::Begin, PingEvent::Connection(None)]).1, disconnected());
}

fn subscribe(
    filters: Vec<QoS>,
    events: Vec<SubscribeEvent<Packet, u8>>,
) -> (Vec<SubscribeAction<u8>>, Option<MqttReply<Packet>>) {
    let request = SubscribeRequest { connect_id: 4, packet_identifier: 8, filters };
    drive(|s, e| service().subscribe(&request, s, e), SubscribeState::Start, events)
}

fn subscribed(max_qos: u8) -> Vec<SubscribeEvent<Packet, u8>> {
    vec![
        SubscribeEvent::Begin,
        SubscribeEvent::Connection(Some(connection())),
        SubscribeEvent::Validated(None),
        SubscribeEvent::NewSubs(42),
        SubscribeEvent::Saved(Ok(())),
        SubscribeEvent::Done,
        SubscribeEvent::Done,
        SubscribeEvent::MaxQos(max_qos),
    ]
}

fn sub_ack(codes: Vec<SubscribeReasonCode>, reason: Option<&str>) -> Option<MqttReply<Packet>> {
    Some(MqttReply::SubAck {
        protocol: MqttProtocol::Mqtt5,
        connection: connection(),
        pkid: 8,
        codes,
        reason: reason.map(|r| r.to_string()),
    })
}

#[test]
fn subscribe_grants_the_lower_of_two_levels() {
    let filters = || vec![QoS::ExactlyOnce, QoS::AtMostOnce, QoS::AtLeastOnce];
    let (actions, reply) = subscribe(filters(), subscribed(1));
    assert_eq!(
        actions,
        vec![
            SubscribeAction::LookUpConnection { connect_id: 4 },
            SubscribeAction::Validate { protocol: MqttProtocol::Mqtt5, connection: connection() },
            SubscribeAction::DetectNew { client_id: client_id() },
            SubscribeAction::SaveSubscriptions {
                client_id: client_id(),
                protocol: MqttProtocol::Mqtt5,
            },
            SubscribeAction::ReportSubscribed { connection: connection(), connect_id: 4 },
            SubscribeAction::SendRetained {
                protocol: MqttProtocol::Mqtt5,
                client_id: client_id(),
                new_subs: 42,
            },
            SubscribeAction::ReadMaxQos,
        ]
    );
    let codes = vec![
        SubscribeReasonCode::QoS1,
        SubscribeReasonCode::QoS0,
        SubscribeReasonCode::QoS1,
    ];
    assert_eq!(reply, sub_ack(codes, None));

    let codes = vec![
        SubscribeReasonCode::QoS2,
        SubscribeReasonCode::QoS0,
        SubscribeReasonCode::QoS1,
    ];
    assert_eq!(subscribe(filters(), subscribed(2)).1, sub_ack(codes, None));
    assert_eq!(
        subscribe(filters(), subscribed(0)).1,
        sub_ack(vec![SubscribeReasonCode::QoS0; 3], None)
    );
    assert_eq!(subscribe(vec![], subscribed(7)).1, sub_ack(vec![], None));
    assert_eq!(grant(2, &vec![QoS::ExactlyOnce]), vec![SubscribeReasonCode::QoS2]);
}

#[test]
fn grant_of_joined_filters_joins_the_codes() {
    let first = vec![QoS::ExactlyOnce, QoS::AtMostOnce];
    let second = vec![QoS::AtLeastOnce];
    let mut joined = first.clone();
    joined.extend(second.clone());
    let mut codes = grant(1, &first);
    codes.extend(grant(1, &second));
    assert_eq!(grant(1, &joined), codes);
}

#[test]
fn subscribe_tells_what_stopped_it() {
    let mut events = subscribed(2);
    events.truncate(4);
    events.push(SubscribeEvent::Saved(Err("disk".to_string())));
    assert_eq!(
        subscribe(vec![QoS::AtMostOnce, QoS::AtMostOnce], events).1,
        sub_ack(vec![SubscribeReasonCode::Unspecified], Some("disk"))
    );
    let mut events = subscribed(2);
    events.truncate(2);
    events.push(SubscribeEvent::Validated(Some("no")));
    assert_eq!(subscribe(vec![QoS::AtMostOnce], events).1, Some(MqttReply::Ready("no")));
    assert_eq!(
        subscribe(vec![], vec![SubscribeEvent::Begin, SubscribeEvent::Connection(None)]).1,
        disconnected()
    );
}

fn unsubscribe(
    events: Vec<UnsubscribeEvent<Packet>>,
) -> (Vec<UnsubscribeAction>, Option<MqttReply<Packet>>) {
    let request = UnsubscribeRequest { connect_id: 4, pkid: 9 };
    drive(|s, e| service().un_subscribe(&request, s, e), UnsubscribeState::Start, events)
}

fn unsub_ack(code: UnsubAckReason, reason: Option<&str>) -> Option<MqttReply<Packet>> {
    Some(MqttReply::UnsubAck {
        connection: connection(),
        pkid: 9,
        codes: vec![code],
        reason: reason.map(|r| r.to_string()),
    })
}

#[test]
fn unsubscribe_removes_and_reports() {
    let (actions, reply) = unsubscribe(vec![
        UnsubscribeEvent::Begin,
        UnsubscribeEvent::Connection(Some(connection())),
        UnsubscribeEvent::Validated(None),
        UnsubscribeEvent::Removed(Ok(())),
        UnsubscribeEvent::Done,
    ]);
    assert_eq!(
        actions,
        vec![
            UnsubscribeAction::LookUpConnection { connect_id: 4 },
            UnsubscribeAction::Validate { client_id: client_id(), connection: connection() },
            UnsubscribeAction::RemoveSubscriptions { client_id: client_id() },
            UnsubscribeAction::ReportUnsubscribed { connection: connection(), connect_id: 4 },
        ]
    );
    assert_eq!(reply, unsub_ack(UnsubAckReason::Success, None));
}

#[test]
fn unsubscribe_tells_what_stopped_it() {
    let reply = unsubscribe(vec![
        UnsubscribeEvent::Begin,
        UnsubscribeEvent::Connection(Some(connection())),
        UnsubscribeEvent::Validated(None),
        UnsubscribeEvent::Removed(Err("gone".to_string())),
    ])
    .1;
    assert_eq!(reply, unsub_ack(UnsubAckReason::UnspecifiedError, Some("gone")));
    let reply = unsubscribe(vec![
        UnsubscribeEvent::Begin,
        UnsubscribeEvent::Connection(Some(connection())),
        UnsubscribeEvent::Validated(Some("no")),
    ])
    .1;
    assert_eq!(reply, Some(MqttReply::Ready("no")));
    let reply = unsubscribe(vec![UnsubscribeEvent::Begin, UnsubscribeEvent::Connection(None)]).1;
    assert_eq!(reply, disconnected());
}

fn disconnect(
    has_properties: bool,
    events: Vec<DisconnectEvent>,
) -> (Vec<DisconnectAction>, Option<Option<MqttReply<Packet>>>) {
    let request = DisconnectRequest {
        connect_id: 4,
        reason_code: Some(DisconnectReasonCode::ServerBusy),
        has_properties,
    };
    drive(|s, e| service().disconnect(&request, s, e), DisconnectState::Start, events)
}

#[test]
fn disconnect_reports_and_drops() {
    let session = MqttSession { session_expiry: 30 };
    let (actions, reply) = disconnect(
        true,
        vec![
            DisconnectEvent::Begin,
            DisconnectEvent::Connection(Some(connection())),
            DisconnectEvent::Session(Some(session)),
            DisconnectEvent::Done,
            DisconnectEvent::DeleteSession(true),
            DisconnectEvent::Dropped(Ok(())),
        ],
    );
    assert_eq!(
        actions,
        vec![
            DisconnectAction::LookUpConnection { connect_id: 4 },
            DisconnectAction::LookUpSession { client_id: client_id() },
            DisconnectAction::ReportDisconnected {
                session,
                connection: connection(),
                connect_id: 4,
                reason_code: Some(DisconnectReasonCode::ServerBusy),
            },
            DisconnectAction::ReadDeleteSession,
            DisconnectAction::DropConnection {
                client_id: client_id(),
                connect_id: 4,
                delete_session: true,
            },
        ]
    );
    assert_eq!(reply, Some(None));
}

#[test]
fn disconnect_keeps_the_session_without_properties() {
    let (actions, reply) = disconnect(
        false,
        vec![
            DisconnectEvent::Begin,
            DisconnectEvent::Connection(Some(connection())),
            DisconnectEvent::Session(None),
            DisconnectEvent::Dropped(Err("late".to_string())),
        ],
    );
    assert_eq!(actions.len(), 3);
    assert_eq!(
        actions[2],
        DisconnectAction::DropConnection {
            client_id: client_id(),
            connect_id: 4,
            delete_session: false,
        }
    );
    assert_eq!(reply, Some(None));
}

#[test]
fn disconnect_of_an_unknown_connection_does_nothing() {
    let (actions, reply) =
        disconnect(true, vec![DisconnectEvent::Begin, DisconnectEvent::Connection(None)]);
    assert_eq!(actions, vec![DisconnectAction::LookUpConnection { connect_id: 4 }]);
    assert_eq!(reply, Some(None));
}

#[test]
fn handlers_take_only_answers() {
    let step: Step<_, _, MqttReply<Packet>> = service().ping(4, PingState::Start, PingEvent::Done);
    assert_eq!(step, Step::Mismatch);
    let step: Step<_, _, Option<MqttReply<Packet>>> = service().disconnect(
        &DisconnectRequest { connect_id: 4, reason_code: None, has_properties: false },
        DisconnectState::Dropping,
        DisconnectEvent::Done,
    );
    assert_eq!(step, Step::Mismatch);
    let step: Step<_, _, Option<MqttReply<Packet>>> = service().publish_rec(
        &AckRequest { connect_id: 4, pkid: 1 },
        AckState::Sending,
        AckEvent::Waiting(true),
    );
    assert_eq!(step, Step::Mismatch);
    let step: Step<_, _, MqttReply<Packet>> = service().publish_rel(
        &ReleaseRequest { connect_id: 4, pkid: 1 },
        ReleaseState::LookingUp,
        ReleaseEvent::Begin,
    );
    assert_eq!(step, Step::Mismatch);
}
