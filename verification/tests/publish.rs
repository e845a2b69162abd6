//! The handling of PUBLISH packets, step by step.

use robustmq_handlers::broker::publish::{
    DelayInfo, MqttTopic, PublishAction, PublishEvent, PublishRequest, PublishState,
};
use robustmq_handlers::broker::service::MqttService;
use robustmq_handlers::broker::types::{
    DisconnectReasonCode, MqttConnection, MqttProtocol, MqttReply, PubAckReason, PubRecReason, QoS,
};
use robustmq_handlers::machine::Step;

fn request(qos: QoS) -> PublishRequest {
    PublishRequest { connect_id: 3, pkid: 21, qos, retain: true }
}

fn connection() -> MqttConnection {
    MqttConnection { client_id: "c1".to_string(), keep_alive: 60 }
}

fn topic() -> MqttTopic {
    MqttTopic { topic_id: "shard-9".to_string() }
}

fn run(
    qos: QoS,
    events: Vec<PublishEvent<&'static str>>,
) -> (Vec<PublishAction>, Option<Option<MqttReply<&'static str>>>) {
    let service = MqttService::new(MqttProtocol::Mqtt4);
    let request = request(qos);
    let mut state = PublishState::Start;
    let mut actions = Vec::new();
    let count = events.len();
    for (i, event) in events.into_iter().enumerate() {
        match service.publish(&request, state, event) {
            Step::Ask(next, action) => {
                state = next;
                actions.push(action);
            }
            Step::Answer(reply) => {
                assert_eq!(i + 1, count);
                return (actions, Some(reply));
            }
            Step::Mismatch => panic!("event {} does not fit", i),
        }
    }
    (actions, None)
}

fn events_up_to_authorization() -> Vec<PublishEvent<&'static str>> {
    vec![
        PublishEvent::Begin,
        PublishEvent::Connection(Some(connection())),
        PublishEvent::Validated(None),
        PublishEvent::TopicName(Ok("t".to_string())),
        PublishEvent::DelayRecognized(false),
    ]
}

fn events_up_to_saving() -> Vec<PublishEvent<&'static str>> {
    let mut events = events_up_to_authorization();
    events.push(PublishEvent::Authorized(true));
    events.push(PublishEvent::TopicReady(Ok(topic())));
    events.push(PublishEvent::SchemaRecognized(false));
    events
}

fn events_up_to_alias() -> Vec<PublishEvent<&'static str>> {
    let mut events = events_up_to_saving();
    events.push(PublishEvent::MessageSaved(Ok("[5]".to_string())));
    events.push(PublishEvent::Done);
    events
}

fn pub_ack_fail(reason: &str, is_pub_ack: bool) -> Option<Option<MqttReply<&'static str>>> {
    Some(Some(MqttReply::PubAckFail {
        protocol: MqttProtocol::Mqtt4,
        connection: connection(),
        pkid: 21,
        reason: Some(reason.to_string()),
        is_pub_ack,
    }))
}

#[test]
fn publish_at_least_once_is_acknowledged_with_the_offset() {
    let (actions, reply) = run(QoS::AtLeastOnce, events_up_to_alias());
    assert_eq!(
        actions,
        vec![
            PublishAction::LookUpConnection { connect_id: 3 },
            PublishAction::Validate { protocol: MqttProtocol::Mqtt4, connection: connection() },
            PublishAction::ResolveTopicName { connect_id: 3 },
            PublishAction::RecognizeDelay { topic_name: "t".to_string() },
            PublishAction::Authorize {
                connection: connection(),
                topic_name: "t".to_string(),
                retain: true,
                qos: QoS::AtLeastOnce,
            },
            PublishAction::InitTopic { topic_name: "t".to_string() },
            PublishAction::RecognizeSchema { topic_name: "t".to_string() },
            PublishAction::SaveMessage {
                client_id: "c1".to_string(),
                topic: topic(),
                delay_info: None,
            },
            PublishAction::AddTopicAlias { connect_id: 3, topic_name: "t".to_string() },
        ]
    );
    assert_eq!(
        reply,
        Some(Some(MqttReply::PubAck {
            protocol: MqttProtocol::Mqtt4,
            connection: connection(),
            pkid: 21,
            code: PubAckReason::Success,
            reason: None,
            user_properties: vec![("offset".to_string(), "[5]".to_string())],
        }))
    );
}

#[test]
fn publish_at_most_once_is_not_acknowledged() {
    let (_, reply) = run(QoS::AtMostOnce, events_up_to_alias());
    assert_eq!(reply, Some(None));
}

#[test]
fn publish_exactly_once_saves_the_packet_identifier_first() {
    let (actions, reply) = run(QoS::ExactlyOnce, events_up_to_alias());
    assert_eq!(reply, None);
    assert_eq!(
        actions.last(),
        Some(&PublishAction::SavePkid { client_id: "c1".to_string(), pkid: 21 })
    );

    let mut events = events_up_to_alias();
    events.push(PublishEvent::PkidSaved(Ok(())));
    let (_, reply) = run(QoS::ExactlyOnce, events);
    assert_eq!(
        reply,
        Some(Some(MqttReply::PubRec {
            protocol: MqttProtocol::Mqtt4,
            connection: connection(),
            pkid: 21,
            code: PubRecReason::Success,
            reason: None,
            user_properties: vec![("offset".to_string(), "[5]".to_string())],
        }))
    );

    let mut events = events_up_to_alias();
    events.push(PublishEvent::PkidSaved(Err("full".to_string())));
    assert_eq!(run(QoS::ExactlyOnce, events).1, pub_ack_fail("full", false));
}

#[test]
fn publish_delayed_goes_to_the_decoded_topic_and_its_shard() {
    let decoded = DelayInfo { target_topic_name: "later".to_string(), target_shard_name: None };
    let mut events = events_up_to_authorization();
    events.pop();
    events.push(PublishEvent::DelayRecognized(true));
    events.push(PublishEvent::DelayDecoded(Ok(decoded)));
    events.push(PublishEvent::Authorized(true));
    events.push(PublishEvent::TopicReady(Ok(topic())));
    events.push(PublishEvent::SchemaRecognized(true));
    events.push(PublishEvent::SchemaChecked(Ok(())));
    let (actions, reply) = run(QoS::AtLeastOnce, events);
    assert_eq!(reply, None);
    assert_eq!(actions[4], PublishAction::DecodeDelay { topic_name: "t".to_string() });
    assert_eq!(
        actions[5],
        PublishAction::Authorize {
            connection: connection(),
            topic_name: "later".to_string(),
            retain: true,
            qos: QoS::AtLeastOnce,
        }
    );
    assert_eq!(actions[8], PublishAction::CheckSchema { topic_name: "later".to_string() });
    assert_eq!(
        actions[9],
        PublishAction::SaveMessage {
            client_id: "c1".to_string(),
            topic: topic(),
            delay_info: Some(DelayInfo {
                target_topic_name: "later".to_string(),
                target_shard_name: Some("shard-9".to_string()),
            }),
        }
    );
}

#[test]
fn publish_on_an_unknown_connection_disconnects() {
    for qos in [QoS::AtMostOnce, QoS::AtLeastOnce, QoS::ExactlyOnce] {
        let (_, reply) = run(qos, vec![PublishEvent::Begin, PublishEvent::Connection(None)]);
        assert_eq!(
            reply,
            Some(Some(MqttReply::Disconnect {
                protocol: MqttProtocol::Mqtt4,
                reason: Some(DisconnectReasonCode::MaximumConnectTime),
            }))
        );
    }
}

#[test]
fn publish_rejection_is_told_unless_at_most_once() {
    let events = || {
        vec![
            PublishEvent::Begin,
            PublishEvent::Connection(Some(connection())),
            PublishEvent::Validated(Some("no")),
        ]
    };
    assert_eq!(run(QoS::AtMostOnce, events()).1, Some(None));
    assert_eq!(run(QoS::AtLeastOnce, events()).1, Some(Some(MqttReply::Ready("no"))));
    assert_eq!(run(QoS::ExactlyOnce, events()).1, Some(Some(MqttReply::Ready("no"))));
}

#[test]
fn publish_without_permission_is_refused_in_the_form_of_the_qos() {
    let events = || {
        let mut events = events_up_to_authorization();
        events.push(PublishEvent::Authorized(false));
        events
    };
    let ack = Some(Some(MqttReply::PubAck {
        protocol: MqttProtocol::Mqtt4,
        connection: connection(),
        pkid: 21,
        code: PubAckReason::NotAuthorized,
        reason: None,
        user_properties: vec![],
    }));
    assert_eq!(run(QoS::AtLeastOnce, events()).1, ack);
    assert_eq!(run(QoS::AtMostOnce, events()).1, ack);
    assert_eq!(
        run(QoS::ExactlyOnce, events()).1,
        Some(Some(MqttReply::PubRec {
            protocol: MqttProtocol::Mqtt4,
            connection: connection(),
            pkid: 21,
            code: PubRecReason::NotAuthorized,
            reason: None,
            user_properties: vec![],
        }))
    );
}

#[test]
fn publish_tells_what_failed() {
    let mut events = events_up_to_authorization();
    events.truncate(3);
    events.push(PublishEvent::TopicName(Err("a".to_string())));
    assert_eq!(run(QoS::AtMostOnce, events).1, pub_ack_fail("a", true));

    let mut events = events_up_to_authorization();
    events.pop();
    events.push(PublishEvent::DelayRecognized(true));
    events.push(PublishEvent::DelayDecoded(Err("b".to_string())));
    assert_eq!(run(QoS::AtLeastOnce, events).1, pub_ack_fail("b", true));

    let mut events = events_up_to_authorization();
    events.push(PublishEvent::Authorized(true));
    events.push(PublishEvent::TopicReady(Err("c".to_string())));
    assert_eq!(run(QoS::ExactlyOnce, events).1, pub_ack_fail("c", false));

    let mut events = events_up_to_saving();
    events.pop();
    events.push(PublishEvent::SchemaRecognized(true));
    events.push(PublishEvent::SchemaChecked(Err("d".to_string())));
    let (actions, reply) = run(QoS::AtLeastOnce, events);
    assert_eq!(reply, pub_ack_fail("d", true));
    assert!(!actions.iter().any(|a| matches!(a, PublishAction::SaveMessage { .. })));

    let mut events = events_up_to_saving();
    events.push(PublishEvent::MessageSaved(Err("e".to_string())));
    assert_eq!(run(QoS::AtLeastOnce, events).1, pub_ack_fail("e", true));
}

#[test]
fn publish_takes_only_answers() {
    let service = MqttService::new(MqttProtocol::Mqtt4);
    let wrong: PublishEvent<()> = PublishEvent::Authorized(true);
    assert_eq!(
        service.publish(&request(QoS::AtLeastOnce), PublishState::LookingUp, wrong),
        Step::Mismatch
    );
    let wrong: PublishEvent<()> = PublishEvent::Begin;
    assert_eq!(
        service.publish(&request(QoS::AtLeastOnce), PublishState::LookingUp, wrong),
        Step::Mismatch
    );
}
