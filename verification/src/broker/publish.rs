//! The PUBLISH packet: the checks that a message has to pass, its storage, and
//! the acknowledgement that its quality of service asks for.

use vstd::prelude::*;

use crate::broker::service::MqttService;
use crate::broker::types;
use crate::broker::types::{
    DisconnectReasonCode, MqttConnection, MqttProtocol, MqttReply, PubAckReason, PubRecReason, QoS,
    ReplyModel,
};
use crate::machine;
use crate::machine::{History, Modeled, Progress, Step};

verus! {

/// What the handler reads of a PUBLISH packet and of the connection it came on.
#[derive(Debug, Clone, Copy, PartialEq, Eq, Structural)]
pub struct PublishRequest {
    pub connect_id: u64,
    pub pkid: u16,
    pub qos: QoS,
    pub retain: bool,
}

/// What the handler reads of a topic.
#[derive(Debug, PartialEq, Eq)]
pub struct MqttTopic {
    pub topic_id: String,
}

impl Clone for MqttTopic {
    fn clone(&self) -> (r: Self)
        ensures
            r == *self,
    {
        MqttTopic { topic_id: self.topic_id.clone() }
    }
}

/// What the handler reads and sets of a message that is to be delivered later.
#[derive(Debug, PartialEq, Eq)]
pub struct DelayInfo {
    pub target_topic_name: String,
    pub target_shard_name: Option<String>,
}

impl Clone for DelayInfo {
    fn clone(&self) -> (r: Self)
        ensures
            r == *self,
    {
        let target_shard_name = match &self.target_shard_name {
            Some(name) => Some(name.clone()),
            None => None,
        };
        DelayInfo { target_topic_name: self.target_topic_name.clone(), target_shard_name }
    }
}

/// Where a message comes from and goes to.
#[derive(Debug, PartialEq, Eq)]
pub struct Route {
    pub connection: MqttConnection,
    pub topic_name: String,
    pub delay_info: Option<DelayInfo>,
}

/// What the handler asks for. The packet and its properties go along with each
/// of these unchanged.
#[derive(Debug, PartialEq, Eq)]
pub enum PublishAction {
    LookUpConnection { connect_id: u64 },
    Validate { protocol: MqttProtocol, connection: MqttConnection },
    ResolveTopicName { connect_id: u64 },
    RecognizeDelay { topic_name: String },
    DecodeDelay { topic_name: String },
    Authorize { connection: MqttConnection, topic_name: String, retain: bool, qos: QoS },
    InitTopic { topic_name: String },
    RecognizeSchema { topic_name: String },
    CheckSchema { topic_name: String },
    SaveMessage { client_id: String, topic: MqttTopic, delay_info: Option<DelayInfo> },
    AddTopicAlias { connect_id: u64, topic_name: String },
    SavePkid { client_id: String, pkid: u16 },
}

impl Modeled for PublishAction {
    type Model = PublishAction;

    open spec fn model(&self) -> PublishAction {
        *self
    }
}

/// What an action brings.
#[derive(Debug, PartialEq, Eq)]
pub enum PublishEvent<P> {
    Begin,
    Connection(Option<MqttConnection>),
    /// The packet with which the validator rejects the request, if it does.
    Validated(Option<P>),
    TopicName(Result<String, String>),
    DelayRecognized(bool),
    DelayDecoded(Result<DelayInfo, String>),
    Authorized(bool),
    TopicReady(Result<MqttTopic, String>),
    SchemaRecognized(bool),
    SchemaChecked(Result<(), String>),
    /// The offset at which the message was stored, as text.
    MessageSaved(Result<String, String>),
    PkidSaved(Result<(), String>),
    Done,
}

/// What the handler waits for.
#[derive(Debug, PartialEq, Eq)]
pub enum PublishState {
    Start,
    LookingUp,
    Validating { connection: MqttConnection },
    ResolvingTopicName { connection: MqttConnection },
    RecognizingDelay { connection: MqttConnection, topic_name: String },
    DecodingDelay { connection: MqttConnection, topic_name: String },
    Authorizing { route: Route },
    InitializingTopic { route: Route },
    RecognizingSchema { route: Route, topic: MqttTopic },
    CheckingSchema { route: Route, topic: MqttTopic },
    SavingMessage { route: Route, topic: MqttTopic },
    AddingTopicAlias { route: Route, offset: String },
    SavingPkid { connection: MqttConnection, offset: String },
}

/// Whether the sender of a request is answered by a PUBACK rather than by a PUBREC.
pub open spec fn publish_by_pub_ack(request: PublishRequest) -> bool {
    request.qos != QoS::ExactlyOnce
}

/// The action whose outcome a state waits for; none at the start.
pub open spec fn publish_question(
    service: MqttService,
    request: PublishRequest,
    state: PublishState,
) -> Option<PublishAction> {
    match state {
        PublishState::Start => None,
        PublishState::LookingUp => Some(
            PublishAction::LookUpConnection { connect_id: request.connect_id },
        ),
        PublishState::Validating { connection } => Some(
            PublishAction::Validate { protocol: service.protocol, connection },
        ),
        PublishState::ResolvingTopicName { .. } => Some(
            PublishAction::ResolveTopicName { connect_id: request.connect_id },
        ),
        PublishState::RecognizingDelay { topic_name, .. } => Some(
            PublishAction::RecognizeDelay { topic_name },
        ),
        PublishState::DecodingDelay { topic_name, .. } => Some(
            PublishAction::DecodeDelay { topic_name },
        ),
        PublishState::Authorizing { route } => Some(
            PublishAction::Authorize {
                connection: route.connection,
                topic_name: route.topic_name,
                retain: request.retain,
                qos: request.qos,
            },
        ),
        PublishState::InitializingTopic { route } => Some(
            PublishAction::InitTopic { topic_name: route.topic_name },
        ),
        PublishState::RecognizingSchema { route, .. } => Some(
            PublishAction::RecognizeSchema { topic_name: route.topic_name },
        ),
        PublishState::CheckingSchema { route, .. } => Some(
            PublishAction::CheckSchema { topic_name: route.topic_name },
        ),
        PublishState::SavingMessage { route, topic } => Some(
            PublishAction::SaveMessage {
                client_id: route.connection.client_id,
                topic,
                delay_info: route.delay_info,
            },
        ),
        PublishState::AddingTopicAlias { route, .. } => Some(
            PublishAction::AddTopicAlias {
                connect_id: request.connect_id,
                topic_name: route.topic_name,
            },
        ),
        PublishState::SavingPkid { connection, .. } => Some(
            PublishAction::SavePkid { client_id: connection.client_id, pkid: request.pkid },
        ),
    }
}

/// Whether an event is of the kind that an action brings.
pub open spec fn publish_answers<P>(action: PublishAction, event: PublishEvent<P>) -> bool {
    match action {
        PublishAction::LookUpConnection { .. } => event is Connection,
        PublishAction::Validate { .. } => event is Validated,
        PublishAction::ResolveTopicName { .. } => event is TopicName,
        PublishAction::RecognizeDelay { .. } => event is DelayRecognized,
        PublishAction::DecodeDelay { .. } => event is DelayDecoded,
        PublishAction::Authorize { .. } => event is Authorized,
        PublishAction::InitTopic { .. } => event is TopicReady,
        PublishAction::RecognizeSchema { .. } => event is SchemaRecognized,
        PublishAction::CheckSchema { .. } => event is SchemaChecked,
        PublishAction::SaveMessage { .. } => event is MessageSaved,
        PublishAction::AddTopicAlias { .. } => event is Done,
        PublishAction::SavePkid { .. } => event is PkidSaved,
    }
}

/// The connection that a state knows of.
pub open spec fn publish_connection(state: PublishState) -> Option<MqttConnection> {
    match state {
        PublishState::Start => None,
        PublishState::LookingUp => None,
        PublishState::Validating { connection } => Some(connection),
        PublishState::ResolvingTopicName { connection } => Some(connection),
        PublishState::RecognizingDelay { connection, .. } => Some(connection),
        PublishState::DecodingDelay { connection, .. } => Some(connection),
        PublishState::Authorizing { route } => Some(route.connection),
        PublishState::InitializingTopic { route } => Some(route.connection),
        PublishState::RecognizingSchema { route, .. } => Some(route.connection),
        PublishState::CheckingSchema { route, .. } => Some(route.connection),
        PublishState::SavingMessage { route, .. } => Some(route.connection),
        PublishState::AddingTopicAlias { route, .. } => Some(route.connection),
        PublishState::SavingPkid { connection, .. } => Some(connection),
    }
}

/// The error that an event reports, if it reports one.
pub open spec fn publish_error<P>(event: PublishEvent<P>) -> Option<String> {
    match event {
        PublishEvent::TopicName(Err(e)) => Some(e),
        PublishEvent::DelayDecoded(Err(e)) => Some(e),
        PublishEvent::TopicReady(Err(e)) => Some(e),
        PublishEvent::SchemaChecked(Err(e)) => Some(e),
        PublishEvent::MessageSaved(Err(e)) => Some(e),
        PublishEvent::PkidSaved(Err(e)) => Some(e),
        _ => None,
    }
}

/// Whether an event keeps the message from being published.
pub open spec fn publish_stops<P>(event: PublishEvent<P>) -> bool {
    ||| event matches PublishEvent::Connection(None)
    ||| event matches PublishEvent::Validated(Some(_))
    ||| event matches PublishEvent::Authorized(false)
    ||| publish_error(event) is Some
}

/// The reply to a request that an event stopped. `connection` is that of the
/// sender, where it is known.
pub open spec fn publish_refusal<P>(
    service: MqttService,
    request: PublishRequest,
    connection: MqttConnection,
    event: PublishEvent<P>,
) -> Option<ReplyModel<P>> {
    let protocol = service.protocol;
    let pkid = request.pkid;
    match event {
        PublishEvent::Connection(_) => Some(
            ReplyModel::Disconnect {
                protocol,
                reason: Some(DisconnectReasonCode::MaximumConnectTime),
            },
        ),
        PublishEvent::Validated(rejection) => if request.qos == QoS::AtMostOnce {
            None
        } else {
            Some(ReplyModel::Ready(rejection->0))
        },
        PublishEvent::Authorized(_) => if publish_by_pub_ack(request) {
            Some(
                ReplyModel::PubAck {
                    protocol,
                    connection,
                    pkid,
                    code: PubAckReason::NotAuthorized,
                    reason: None,
                    user_properties: Seq::empty(),
                },
            )
        } else {
            Some(
                ReplyModel::PubRec {
                    protocol,
                    connection,
                    pkid,
                    code: PubRecReason::NotAuthorized,
                    reason: None,
                    user_properties: Seq::empty(),
                },
            )
        },
        _ => Some(
            ReplyModel::PubAckFail {
                protocol,
                connection,
                pkid,
                reason: publish_error(event),
                is_pub_ack: publish_by_pub_ack(request),
            },
        ),
    }
}

/// The user properties that tell where a message was stored.
pub open spec fn publish_properties(offset: String) -> Seq<(Seq<char>, Seq<char>)> {
    seq![("offset"@, offset@)]
}

/// The reply to a request whose message was stored at `offset`.
pub open spec fn publish_acknowledgement<P>(
    service: MqttService,
    request: PublishRequest,
    connection: MqttConnection,
    offset: String,
) -> Option<ReplyModel<P>> {
    match request.qos {
        QoS::AtMostOnce => None,
        QoS::AtLeastOnce => Some(
            ReplyModel::PubAck {
                protocol: service.protocol,
                connection,
                pkid: request.pkid,
                code: PubAckReason::Success,
                reason: None,
                user_properties: publish_properties(offset),
            },
        ),
        QoS::ExactlyOnce => Some(
            ReplyModel::PubRec {
                protocol: service.protocol,
                connection,
                pkid: request.pkid,
                code: PubRecReason::Success,
                reason: None,
                user_properties: publish_properties(offset),
            },
        ),
    }
}

/// A route once its topic is known: a message to be delivered later is stored
/// for the shard of its topic.
pub open spec fn publish_routed(route: Route, topic: MqttTopic) -> Route {
    match route.delay_info {
        Some(delay) => Route {
            delay_info: Some(
                DelayInfo {
                    target_topic_name: delay.target_topic_name,
                    target_shard_name: Some(topic.topic_id),
                },
            ),
            ..route
        },
        None => route,
    }
}

/// The state after an event that fits, stops nothing and is not the last.
pub open spec fn publish_next<P>(state: PublishState, event: PublishEvent<P>) -> PublishState {
    match state {
        PublishState::Start => PublishState::LookingUp,
        PublishState::LookingUp => PublishState::Validating { connection: event->Connection_0->0 },
        PublishState::Validating { connection } => PublishState::ResolvingTopicName { connection },
        PublishState::ResolvingTopicName { connection } => PublishState::RecognizingDelay {
            connection,
            topic_name: event->TopicName_0->Ok_0,
        },
        PublishState::RecognizingDelay { connection, topic_name } => if event->DelayRecognized_0 {
            PublishState::DecodingDelay { connection, topic_name }
        } else {
            PublishState::Authorizing { route: Route { connection, topic_name, delay_info: None } }
        },
        PublishState::DecodingDelay { connection, .. } => {
            let delay = event->DelayDecoded_0->Ok_0;
            PublishState::Authorizing {
                route: Route {
                    connection,
                    topic_name: delay.target_topic_name,
                    delay_info: Some(delay),
                },
            }
        },
        PublishState::Authorizing { route } => PublishState::InitializingTopic { route },
        PublishState::InitializingTopic { route } => {
            let topic = event->TopicReady_0->Ok_0;
            PublishState::RecognizingSchema { route: publish_routed(route, topic), topic }
        },
        PublishState::RecognizingSchema { route, topic } => if event->SchemaRecognized_0 {
            PublishState::CheckingSchema { route, topic }
        } else {
            PublishState::SavingMessage { route, topic }
        },
        PublishState::CheckingSchema { route, topic } => PublishState::SavingMessage {
            route,
            topic,
        },
        PublishState::SavingMessage { route, .. } => PublishState::AddingTopicAlias {
            route,
            offset: event->MessageSaved_0->Ok_0,
        },
        PublishState::AddingTopicAlias { route, offset } => PublishState::SavingPkid {
            connection: route.connection,
            offset,
        },
        PublishState::SavingPkid { .. } => state,
    }
}

/// Whether a state takes an event.
pub open spec fn publish_fits<P>(
    service: MqttService,
    request: PublishRequest,
    state: PublishState,
    event: PublishEvent<P>,
) -> bool {
    match publish_question(service, request, state) {
        Some(action) => publish_answers(action, event),
        None => event is Begin,
    }
}

/// The offset told in the acknowledgement, in a state after which nothing more
/// is to be done for a message of the quality of service `qos`.
pub open spec fn publish_last(qos: QoS, state: PublishState) -> Option<String> {
    match state {
        PublishState::AddingTopicAlias { offset, .. } => if qos == QoS::ExactlyOnce {
            None
        } else {
            Some(offset)
        },
        PublishState::SavingPkid { offset, .. } => Some(offset),
        _ => None,
    }
}

/// One step of the handler: an event that fits either stops the message, or
/// completes its publication, or leads on to the next question.
pub open spec fn publish_step<P>(
    service: MqttService,
    request: PublishRequest,
    state: PublishState,
    event: PublishEvent<P>,
) -> Step<PublishState, PublishAction, Option<ReplyModel<P>>> {
    let connection = publish_connection(state)->0;
    if !publish_fits(service, request, state, event) {
        Step::Mismatch
    } else if publish_stops(event) {
        Step::Answer(publish_refusal(service, request, connection, event))
    } else if publish_last(request.qos, state) is Some {
        Step::Answer(
            publish_acknowledgement(
                service,
                request,
                connection,
                publish_last(request.qos, state)->0,
            ),
        )
    } else {
        let next = publish_next(state, event);
        Step::Ask(next, publish_question(service, request, next)->0)
    }
}

/// The user properties that tell where a message was stored.
fn offset_properties(offset: String) -> (r: Vec<(String, String)>)
    ensures
        types::texts_of(r@) == publish_properties(offset),
{
    let name = "offset".to_string();
    let pair = (name, offset);
    let mut pairs: Vec<(String, String)> = Vec::new();
    pairs.push(pair);
    assert(types::texts_of(pairs@) =~= publish_properties(offset));
    pairs
}

fn no_properties() -> (r: Vec<(String, String)>)
    ensures
        types::texts_of(r@) == Seq::<(Seq<char>, Seq<char>)>::empty(),
{
    let pairs: Vec<(String, String)> = Vec::new();
    assert(types::texts_of(pairs@) =~= Seq::<(Seq<char>, Seq<char>)>::empty());
    pairs
}

impl MqttService {
    fn publish_ask<P>(&self, request: &PublishRequest, next: PublishState) -> (r: Step<
        PublishState,
        PublishAction,
        Option<MqttReply<P>>,
    >)
        requires
            !(next is Start),
        ensures
            r == Step::<PublishState, PublishAction, Option<MqttReply<P>>>::Ask(
                next,
                publish_question(*self, *request, next)->0,
            ),
    {
        let action = match &next {
            PublishState::Start => PublishAction::LookUpConnection {
                connect_id: request.connect_id,
            },
            PublishState::LookingUp => PublishAction::LookUpConnection {
                connect_id: request.connect_id,
            },
            PublishState::Validating { connection } => PublishAction::Validate {
                protocol: self.protocol,
                connection: connection.clone(),
            },
            PublishState::ResolvingTopicName { .. } => PublishAction::ResolveTopicName {
                connect_id: request.connect_id,
            },
            PublishState::RecognizingDelay { topic_name, .. } => PublishAction::RecognizeDelay {
                topic_name: topic_name.clone(),
            },
            PublishState::DecodingDelay { topic_name, .. } => PublishAction::DecodeDelay {
                topic_name: topic_name.clone(),
            },
            PublishState::Authorizing { route } => PublishAction::Authorize {
                connection: route.connection.clone(),
                topic_name: route.topic_name.clone(),
                retain: request.retain,
                qos: request.qos,
            },
            PublishState::InitializingTopic { route } => PublishAction::InitTopic {
                topic_name: route.topic_name.clone(),
            },
            PublishState::RecognizingSchema { route, .. } => PublishAction::RecognizeSchema {
                topic_name: route.topic_name.clone(),
            },
            PublishState::CheckingSchema { route, .. } => PublishAction::CheckSchema {
                topic_name: route.topic_name.clone(),
            },
            PublishState::SavingMessage { route, topic } => PublishAction::SaveMessage {
                client_id: route.connection.client_id.clone(),
                topic: topic.clone(),
                delay_info: match &route.delay_info {
                    Some(delay) => Some(delay.clone()),
                    None => None,
                },
            },
            PublishState::AddingTopicAlias { route, .. } => PublishAction::AddTopicAlias {
                connect_id: request.connect_id,
                topic_name: route.topic_name.clone(),
            },
            PublishState::SavingPkid { connection, .. } => PublishAction::SavePkid {
                client_id: connection.client_id.clone(),
                pkid: request.pkid,
            },
        };
        Step::Ask(next, action)
    }

    fn publish_fail<P>(
        &self,
        request: &PublishRequest,
        connection: MqttConnection,
        error: String,
    ) -> (r: Step<PublishState, PublishAction, Option<MqttReply<P>>>)
        ensures
            r.model() == Step::<PublishState, PublishAction, Option<ReplyModel<P>>>::Answer(
                Some(
                    ReplyModel::PubAckFail {
                        protocol: self.protocol,
                        connection,
                        pkid: request.pkid,
                        reason: Some(error),
                        is_pub_ack: publish_by_pub_ack(*request),
                    },
                ),
            ),
    {
        Step::Answer(
            Some(
                MqttReply::PubAckFail {
                    protocol: self.protocol,
                    connection,
                    pkid: request.pkid,
                    reason: Some(error),
                    is_pub_ack: request.qos != QoS::ExactlyOnce,
                },
            ),
        )
    }

    fn publish_unauthorized<P>(
        &self,
        request: &PublishRequest,
        connection: MqttConnection,
    ) -> (r: Step<PublishState, PublishAction, Option<MqttReply<P>>>)
        ensures
            r.model() == Step::<PublishState, PublishAction, Option<ReplyModel<P>>>::Answer(
                publish_refusal(
                    *self,
                    *request,
                    connection,
                    PublishEvent::<P>::Authorized(false),
                ),
            ),
    {
        if request.qos != QoS::ExactlyOnce {
            Step::Answer(
                Some(
                    MqttReply::PubAck {
                        protocol: self.protocol,
                        connection,
                        pkid: request.pkid,
                        code: PubAckReason::NotAuthorized,
                        reason: None,
                        user_properties: no_properties(),
                    },
                ),
            )
        } else {
            Step::Answer(
                Some(
                    MqttReply::PubRec {
                        protocol: self.protocol,
                        connection,
                        pkid: request.pkid,
                        code: PubRecReason::NotAuthorized,
                        reason: None,
                        user_properties: no_properties(),
                    },
                ),
            )
        }
    }

    fn publish_acknowledge<P>(
        &self,
        request: &PublishRequest,
        connection: MqttConnection,
        offset: String,
    ) -> (r: Step<PublishState, PublishAction, Option<MqttReply<P>>>)
        ensures
            r.model() == Step::<PublishState, PublishAction, Option<ReplyModel<P>>>::Answer(
                publish_acknowledgement(*self, *request, connection, offset),
            ),
    {
        match request.qos {
            QoS::AtMostOnce => Step::Answer(None),
            QoS::AtLeastOnce => Step::Answer(
                Some(
                    MqttReply::PubAck {
                        protocol: self.protocol,
                        connection,
                        pkid: request.pkid,
                        code: PubAckReason::Success,
                        reason: None,
                        user_properties: offset_properties(offset),
                    },
                ),
            ),
            QoS::ExactlyOnce => Step::Answer(
                Some(
                    MqttReply::PubRec {
                        protocol: self.protocol,
                        connection,
                        pkid: request.pkid,
                        code: PubRecReason::Success,
                        reason: None,
                        user_properties: offset_properties(offset),
                    },
                ),
            ),
        }
    }

    /// One step in the handling of a PUBLISH packet.
    pub fn publish<P>(
        &self,
        request: &PublishRequest,
        state: PublishState,
        event: PublishEvent<P>,
    ) -> (r: Step<PublishState, PublishAction, Option<MqttReply<P>>>)
        ensures
            r.model() == publish_step(*self, *request, state, event),
    {
        match (state, event) {
            (PublishState::Start, PublishEvent::Begin) => self.publish_ask(
                request,
                PublishState::LookingUp,
            ),
            (PublishState::LookingUp, PublishEvent::Connection(found)) => match found {
                Some(connection) => self.publish_ask(
                    request,
                    PublishState::Validating { connection },
                ),
                None => Step::Answer(
                    Some(
                        MqttReply::Disconnect {
                            protocol: self.protocol,
                            reason: Some(DisconnectReasonCode::MaximumConnectTime),
                        },
                    ),
                ),
            },
            (PublishState::Validating { connection }, PublishEvent::Validated(rejection)) =>
            match rejection {
                Some(packet) => if request.qos == QoS::AtMostOnce {
                    Step::Answer(None)
                } else {
                    Step::Answer(Some(MqttReply::Ready(packet)))
                },
                None => self.publish_ask(request, PublishState::ResolvingTopicName { connection }),
            },
            (PublishState::ResolvingTopicName { connection }, PublishEvent::TopicName(resolved)) =>
            match resolved {
                Ok(topic_name) => self.publish_ask(
                    request,
                    PublishState::RecognizingDelay { connection, topic_name },
                ),
                Err(e) => self.publish_fail(request, connection, e),
            },
            (
                PublishState::RecognizingDelay { connection, topic_name },
                PublishEvent::DelayRecognized(delayed),
            ) => if delayed {
                self.publish_ask(request, PublishState::DecodingDelay { connection, topic_name })
            } else {
                let route = Route { connection, topic_name, delay_info: None };
                self.publish_ask(request, PublishState::Authorizing { route })
            },
            (PublishState::DecodingDelay { connection, .. }, PublishEvent::DelayDecoded(decoded)) =>
            match decoded {
                Ok(delay) => {
                    let route = Route {
                        connection,
                        topic_name: delay.target_topic_name.clone(),
                        delay_info: Some(delay),
                    };
                    self.publish_ask(request, PublishState::Authorizing { route })
                },
                Err(e) => self.publish_fail(request, connection, e),
            },
            (PublishState::Authorizing { route }, PublishEvent::Authorized(allowed)) => if allowed {
                self.publish_ask(request, PublishState::InitializingTopic { route })
            } else {
                self.publish_unauthorized(request, route.connection)
            },
            (PublishState::InitializingTopic { route }, PublishEvent::TopicReady(ready)) =>
            match ready {
                Ok(topic) => {
                    let delay_info = match route.delay_info {
                        Some(delay) => Some(
                            DelayInfo {
                                target_topic_name: delay.target_topic_name,
                                target_shard_name: Some(topic.topic_id.clone()),
                            },
                        ),
                        None => None,
                    };
                    let routed = Route {
                        connection: route.connection,
                        topic_name: route.topic_name,
                        delay_info,
                    };
                    self.publish_ask(
                        request,
                        PublishState::RecognizingSchema { route: routed, topic },
                    )
                },
                Err(e) => self.publish_fail(request, route.connection, e),
            },
            (
                PublishState::RecognizingSchema { route, topic },
                PublishEvent::SchemaRecognized(checked),
            ) => if checked {
                self.publish_ask(request, PublishState::CheckingSchema { route, topic })
            } else {
                self.publish_ask(request, PublishState::SavingMessage { route, topic })
            },
            (PublishState::CheckingSchema { route, topic }, PublishEvent::SchemaChecked(checked)) =>
            match checked {
                Ok(_) => self.publish_ask(request, PublishState::SavingMessage { route, topic }),
                Err(e) => self.publish_fail(request, route.connection, e),
            },
            (PublishState::SavingMessage { route, .. }, PublishEvent::MessageSaved(saved)) =>
            match saved {
                Ok(offset) => self.publish_ask(
                    request,
                    PublishState::AddingTopicAlias { route, offset },
                ),
                Err(e) => self.publish_fail(request, route.connection, e),
            },
            (PublishState::AddingTopicAlias { route, offset }, PublishEvent::Done) =>
            if request.qos == QoS::ExactlyOnce {
                self.publish_ask(
                    request,
                    PublishState::SavingPkid { connection: route.connection, offset },
                )
            } else {
                self.publish_acknowledge(request, route.connection, offset)
            },
            (PublishState::SavingPkid { connection, offset }, PublishEvent::PkidSaved(saved)) =>
            match saved {
                Ok(_) => self.publish_acknowledge(request, connection, offset),
                Err(e) => self.publish_fail(request, connection, e),
            },
            _ => Step::Mismatch,
        }
    }
}

/// The run of the handler over a sequence of events.
pub open spec fn publish_run<P>(
    service: MqttService,
    request: PublishRequest,
    events: Seq<PublishEvent<P>>,
) -> Option<History<PublishState, PublishAction, Option<ReplyModel<P>>>> {
    machine::run(
        |state: PublishState, event: PublishEvent<P>|
            publish_step(service, request, state, event),
        PublishState::Start,
        events,
    )
}

/// The place of an action in the order in which the handler asks.
pub open spec fn publish_rank(action: PublishAction) -> int {
    match action {
        PublishAction::LookUpConnection { .. } => 0,
        PublishAction::Validate { .. } => 1,
        PublishAction::ResolveTopicName { .. } => 2,
        PublishAction::RecognizeDelay { .. } => 3,
        PublishAction::DecodeDelay { .. } => 4,
        PublishAction::Authorize { .. } => 5,
        PublishAction::InitTopic { .. } => 6,
        PublishAction::RecognizeSchema { .. } => 7,
        PublishAction::CheckSchema { .. } => 8,
        PublishAction::SaveMessage { .. } => 9,
        PublishAction::AddTopicAlias { .. } => 10,
        PublishAction::SavePkid { .. } => 11,
    }
}

/// Whether the message is to be delivered later, as these events say.
pub open spec fn publish_delayed<P>(events: Seq<PublishEvent<P>>) -> bool {
    events.len() > 4 && events[4] == PublishEvent::<P>::DelayRecognized(true)
}

/// How far the events that follow are shifted by the decoding of a delay topic.
pub open spec fn publish_shift<P>(events: Seq<PublishEvent<P>>) -> int {
    if publish_delayed(events) {
        1
    } else {
        0
    }
}

/// Whether the message has to follow a schema, as these events say.
pub open spec fn publish_has_schema<P>(events: Seq<PublishEvent<P>>) -> bool {
    let at = 7 + publish_shift(events);
    events.len() > at && events[at] == PublishEvent::<P>::SchemaRecognized(true)
}

/// The name of the topic that the message goes to: the one that the packet names
/// or, for a message to be delivered later, the one named inside that.
pub open spec fn publish_topic_name<P>(events: Seq<PublishEvent<P>>) -> String {
    if publish_delayed(events) {
        let delay = events[5]->DelayDecoded_0->Ok_0;
        delay.target_topic_name
    } else {
        events[3]->TopicName_0->Ok_0
    }
}

/// The topic that the message goes to.
pub open spec fn publish_topic<P>(events: Seq<PublishEvent<P>>) -> MqttTopic {
    events[6 + publish_shift(events)]->TopicReady_0->Ok_0
}

/// What is stored with a message that is to be delivered later: the topic that
/// it goes to, and the shard of that topic.
pub open spec fn publish_delay_info<P>(events: Seq<PublishEvent<P>>) -> Option<DelayInfo> {
    if publish_delayed(events) {
        Some(
            DelayInfo {
                target_topic_name: publish_topic_name(events),
                target_shard_name: Some(publish_topic(events).topic_id),
            },
        )
    } else {
        None
    }
}

/// The connection that the message came on.
pub open spec fn publish_sender<P>(events: Seq<PublishEvent<P>>) -> MqttConnection {
    events[1]->Connection_0->0
}

/// The index of the action by which the message is stored.
pub open spec fn publish_stored_at<P>(events: Seq<PublishEvent<P>>) -> int {
    7 + publish_shift(events) + if publish_has_schema(events) {
        1int
    } else {
        0int
    }
}

/// Whether the message has passed every check: it came on a known connection,
/// the validator had nothing against it, its sender was allowed to publish to
/// its topic and, if the topic has a schema, it follows that.
pub open spec fn publish_cleared<P>(
    service: MqttService,
    request: PublishRequest,
    events: Seq<PublishEvent<P>>,
    actions: Seq<PublishAction>,
) -> bool {
    let shift = publish_shift(events);
    &&& actions.len() > 6 + shift
    &&& events.len() > 7 + shift
    &&& events[1] == PublishEvent::<P>::Connection(Some(publish_sender(events)))
    &&& actions[1] == (PublishAction::Validate {
        protocol: service.protocol,
        connection: publish_sender(events),
    })
    &&& events[2] == PublishEvent::<P>::Validated(None)
    &&& actions[4 + shift] == (PublishAction::Authorize {
        connection: publish_sender(events),
        topic_name: publish_topic_name(events),
        retain: request.retain,
        qos: request.qos,
    })
    &&& events[5 + shift] == PublishEvent::<P>::Authorized(true)
    &&& publish_has_schema(events) ==> {
        &&& actions.len() > 7 + shift
        &&& events.len() > 8 + shift
        &&& actions[7 + shift] == (PublishAction::CheckSchema {
            topic_name: publish_topic_name(events),
        })
        &&& events[8 + shift] matches PublishEvent::SchemaChecked(Ok(_))
    }
}

/// The action by which the message is stored.
pub open spec fn publish_storing<P>(events: Seq<PublishEvent<P>>) -> PublishAction {
    PublishAction::SaveMessage {
        client_id: publish_sender(events).client_id,
        topic: publish_topic(events),
        delay_info: publish_delay_info(events),
    }
}

spec fn publish_route(state: PublishState) -> Option<Route> {
    match state {
        PublishState::Authorizing { route } => Some(route),
        PublishState::InitializingTopic { route } => Some(route),
        PublishState::RecognizingSchema { route, .. } => Some(route),
        PublishState::CheckingSchema { route, .. } => Some(route),
        PublishState::SavingMessage { route, .. } => Some(route),
        PublishState::AddingTopicAlias { route, .. } => Some(route),
        _ => None,
    }
}

spec fn publish_state_topic(state: PublishState) -> Option<MqttTopic> {
    match state {
        PublishState::RecognizingSchema { topic, .. } => Some(topic),
        PublishState::CheckingSchema { topic, .. } => Some(topic),
        PublishState::SavingMessage { topic, .. } => Some(topic),
        _ => None,
    }
}

/// How many events lead to a state, apart from those that some messages skip.
spec fn publish_depth(state: PublishState) -> int {
    match state {
        PublishState::Start => 0,
        PublishState::LookingUp => 1,
        PublishState::Validating { .. } => 2,
        PublishState::ResolvingTopicName { .. } => 3,
        PublishState::RecognizingDelay { .. } => 4,
        PublishState::DecodingDelay { .. } => 5,
        PublishState::Authorizing { .. } => 5,
        PublishState::InitializingTopic { .. } => 6,
        PublishState::RecognizingSchema { .. } => 7,
        PublishState::CheckingSchema { .. } => 8,
        PublishState::SavingMessage { .. } => 8,
        PublishState::AddingTopicAlias { .. } => 9,
        PublishState::SavingPkid { .. } => 10,
    }
}

spec fn publish_past_delay(state: PublishState) -> bool {
    publish_depth(state) >= 5 && !(state is DecodingDelay)
}

spec fn publish_past_schema(state: PublishState) -> bool {
    publish_depth(state) >= 8 && !(state is CheckingSchema)
}

/// What the history of a waiting handler looks like.
spec fn publish_reached<P>(
    service: MqttService,
    request: PublishRequest,
    events: Seq<PublishEvent<P>>,
    actions: Seq<PublishAction>,
    state: PublishState,
) -> bool {
    let question = publish_question(service, request, state);
    let n = events.len() as int;
    let shift = publish_shift(events);
    let depth = publish_depth(state);
    &&& actions.len() == n
    &&& n == depth + if publish_past_delay(state) {
        shift
    } else {
        0int
    } + if publish_past_schema(state) && publish_has_schema(events) {
        1int
    } else {
        0int
    }
    &&& question is Some ==> actions.last() == question->0
    &&& forall|i: int| 0 <= i < n ==> !publish_stops(#[trigger] events[i])
    &&& publish_connection(state) matches Some(connection) ==> n > 1 && events[1]
        == PublishEvent::<P>::Connection(Some(connection))
    &&& depth >= 2 ==> actions[1] == (PublishAction::Validate {
        protocol: service.protocol,
        connection: publish_sender(events),
    })
    &&& depth >= 3 ==> events[2] == PublishEvent::<P>::Validated(None)
    &&& (state matches PublishState::RecognizingDelay { topic_name, .. } ==> events[3]
        == PublishEvent::<P>::TopicName(Ok(topic_name)))
    &&& (state matches PublishState::DecodingDelay { topic_name, .. } ==> events[3]
        == PublishEvent::<P>::TopicName(Ok(topic_name)))
    &&& state is DecodingDelay ==> publish_delayed(events)
    &&& depth >= 5 && !publish_delayed(events) ==> events[3] is TopicName && events[3]->TopicName_0
         is Ok
    &&& publish_past_delay(state) && publish_delayed(events) ==> events[5] is DelayDecoded
        && events[5]->DelayDecoded_0 is Ok
    &&& publish_past_delay(state) ==> actions[4 + shift] == (PublishAction::Authorize {
        connection: publish_sender(events),
        topic_name: publish_topic_name(events),
        retain: request.retain,
        qos: request.qos,
    })
    &&& depth >= 6 ==> events[5 + shift] == PublishEvent::<P>::Authorized(true)
    &&& publish_route(state) matches Some(route) ==> {
        &&& route.topic_name == publish_topic_name(events)
        &&& if depth <= 6 {
            route.delay_info == if publish_delayed(events) {
                Some(events[5]->DelayDecoded_0->Ok_0)
            } else {
                None
            }
        } else {
            route.delay_info == publish_delay_info(events)
        }
    }
    &&& publish_state_topic(state) matches Some(topic) ==> topic == publish_topic(events)
    &&& state is CheckingSchema ==> publish_has_schema(events)
    &&& publish_past_schema(state) ==> {
        &&& publish_cleared(service, request, events, actions)
        &&& actions[publish_stored_at(events)] == publish_storing(events)
    }
    &&& forall|i: int|
        0 <= i < n && #[trigger] actions[i] is SaveMessage ==> publish_past_schema(state) && i
            == publish_stored_at(events)
    &&& (state matches PublishState::AddingTopicAlias { offset, .. } ==> events[publish_stored_at(
        events,
    ) + 1] == PublishEvent::<P>::MessageSaved(Ok(offset)))
    &&& (state matches PublishState::SavingPkid { offset, .. } ==> request.qos == QoS::ExactlyOnce
        && events[publish_stored_at(events) + 1] == PublishEvent::<P>::MessageSaved(Ok(offset)))
}

/// What the history of a handler that has replied looks like.
pub open spec fn publish_finished<P>(
    service: MqttService,
    request: PublishRequest,
    events: Seq<PublishEvent<P>>,
    actions: Seq<PublishAction>,
    reply: Option<ReplyModel<P>>,
) -> bool {
    let n = events.len() as int;
    let sender = publish_sender(events);
    let stored_at = publish_stored_at(events);
    &&& n > 0
    &&& actions.len() == n - 1
    &&& forall|i: int| 0 <= i < n - 1 ==> !publish_stops(#[trigger] events[i])
    &&& if publish_stops(events.last()) {
        reply == publish_refusal(service, request, sender, events.last())
    } else {
        &&& publish_cleared(service, request, events, actions)
        &&& stored_at + 1 < n
        &&& actions[stored_at] == publish_storing(events)
        &&& events[stored_at + 1] is MessageSaved
        &&& reply == publish_acknowledgement::<P>(
            service,
            request,
            sender,
            events[stored_at + 1]->MessageSaved_0->Ok_0,
        )
        &&& request.qos == QoS::ExactlyOnce ==> actions.last() == (PublishAction::SavePkid {
            client_id: sender.client_id,
            pkid: request.pkid,
        }) && events.last() is PkidSaved
    }
}

/// Whether nothing was stored, or what was stored had passed every check.
pub open spec fn publish_guarded<P>(
    service: MqttService,
    request: PublishRequest,
    events: Seq<PublishEvent<P>>,
    actions: Seq<PublishAction>,
) -> bool {
    forall|i: int|
        0 <= i < actions.len() && #[trigger] actions[i] is SaveMessage ==> {
            &&& i == publish_stored_at(events)
            &&& actions[i] == publish_storing(events)
            &&& publish_cleared(service, request, events, actions)
        }
}

/// Whether the alias of the topic was added exactly if the message was stored,
/// right after that.
pub open spec fn publish_aliased<P>(
    request: PublishRequest,
    events: Seq<PublishEvent<P>>,
    actions: Seq<PublishAction>,
) -> bool {
    &&& forall|i: int|
        0 <= i < actions.len() && #[trigger] actions[i] is AddTopicAlias ==> {
            &&& i < events.len()
            &&& events[i] matches PublishEvent::MessageSaved(Ok(_))
            &&& actions[i] == (PublishAction::AddTopicAlias {
                connect_id: request.connect_id,
                topic_name: publish_topic_name(events),
            })
        }
    &&& forall|i: int|
        0 <= i < events.len() && (#[trigger] events[i] matches PublishEvent::MessageSaved(Ok(_)))
            ==> i < actions.len() && actions[i] is AddTopicAlias
}

spec fn publish_inv<P>(
    service: MqttService,
    request: PublishRequest,
    events: Seq<PublishEvent<P>>,
    actions: Seq<PublishAction>,
    progress: Progress<PublishState, Option<ReplyModel<P>>>,
) -> bool {
    &&& events.len() <= 13
    &&& forall|i: int, j: int|
        0 <= i < j < actions.len() ==> publish_rank(actions[i]) < publish_rank(actions[j])
    &&& publish_guarded(service, request, events, actions)
    &&& publish_aliased(request, events, actions)
    &&& match progress {
        Progress::Waiting(state) => publish_reached(service, request, events, actions, state),
        Progress::Answered(reply) => publish_finished(service, request, events, actions, reply),
    }
}

proof fn lemma_publish_kept<P>(
    service: MqttService,
    request: PublishRequest,
    events: Seq<PublishEvent<P>>,
    actions: Seq<PublishAction>,
    state: PublishState,
    event: PublishEvent<P>,
)
    requires
        publish_inv(service, request, events, actions, Progress::Waiting(state)),
    ensures
        match publish_step(service, request, state, event) {
            Step::Ask(next, action) => publish_inv(
                service,
                request,
                events.push(event),
                actions.push(action),
                Progress::Waiting(next),
            ),
            Step::Answer(reply) => publish_inv(
                service,
                request,
                events.push(event),
                actions,
                Progress::Answered(reply),
            ),
            Step::Mismatch => true,
        },
{
    let n = events.len() as int;
    let later = events.push(event);
    assert(forall|i: int| 0 <= i < n ==> later[i] == events[i]);
    if n > 4 {
        assert(publish_delayed(later) == publish_delayed(events));
    }
    if n > 7 + publish_shift(events) {
        assert(publish_has_schema(later) == publish_has_schema(events));
    }
    match publish_step(service, request, state, event) {
        Step::Ask(next, action) => {
            let asked = actions.push(action);
            assert(forall|i: int| 0 <= i < n ==> asked[i] == actions[i]);
            assert(publish_reached(service, request, later, asked, next));
        },
        Step::Answer(reply) => {
            assert(publish_finished(service, request, later, actions, reply));
        },
        Step::Mismatch => {},
    }
}

proof fn lemma_publish_run<P>(
    service: MqttService,
    request: PublishRequest,
    events: Seq<PublishEvent<P>>,
)
    ensures
        publish_run(service, request, events) matches Some(history) ==> publish_inv(
            service,
            request,
            events,
            history.actions,
            history.progress,
        ),
{
    let step = |state: PublishState, event: PublishEvent<P>|
        publish_step(service, request, state, event);
    let inv = |es: Seq<PublishEvent<P>>, acts: Seq<PublishAction>, progress: Progress<
        PublishState,
        Option<ReplyModel<P>>,
    >| publish_inv(service, request, es, acts, progress);
    assert forall|es: Seq<PublishEvent<P>>, acts: Seq<PublishAction>, s: PublishState, e:
        PublishEvent<P>|
        #[trigger] machine::kept_by_step(step, inv, es, acts, s, e) by {
        if publish_inv(service, request, es, acts, Progress::Waiting(s)) {
            lemma_publish_kept(service, request, es, acts, s, e);
        }
    }
    machine::lemma_run_keeps(step, PublishState::Start, events, inv);
}

/// The handler asks each thing at most once, in a fixed order, so that every
/// request ends after at most thirteen events.
pub proof fn law_publish_asks_in_order<P>(
    service: MqttService,
    request: PublishRequest,
    events: Seq<PublishEvent<P>>,
)
    requires
        publish_run(service, request, events) is Some,
    ensures
        ({
            let history = publish_run(service, request, events)->0;
            let actions = history.actions;
            &&& forall|i: int, j: int|
                0 <= i < j < actions.len() ==> publish_rank(actions[i]) < publish_rank(actions[j])
            &&& events.len() <= 13
        }),
{
    lemma_publish_run(service, request, events);
}

/// A handler that waits takes exactly the events that answer the last thing it
/// asked for.
pub proof fn law_publish_takes_answers<P>(
    service: MqttService,
    request: PublishRequest,
    events: Seq<PublishEvent<P>>,
    event: PublishEvent<P>,
)
    requires
        publish_run(service, request, events) matches Some(history) && history.progress is Waiting,
    ensures
        ({
            let history = publish_run(service, request, events)->0;
            publish_run(service, request, events.push(event)) is Some <==> if events.len() == 0 {
                event is Begin
            } else {
                match history.actions.last() {
                    PublishAction::LookUpConnection { .. } => event is Connection,
                    PublishAction::Validate { .. } => event is Validated,
                    PublishAction::ResolveTopicName { .. } => event is TopicName,
                    PublishAction::RecognizeDelay { .. } => event is DelayRecognized,
                    PublishAction::DecodeDelay { .. } => event is DelayDecoded,
                    PublishAction::Authorize { .. } => event is Authorized,
                    PublishAction::InitTopic { .. } => event is TopicReady,
                    PublishAction::RecognizeSchema { .. } => event is SchemaRecognized,
                    PublishAction::CheckSchema { .. } => event is SchemaChecked,
                    PublishAction::SaveMessage { .. } => event is MessageSaved,
                    PublishAction::AddTopicAlias { .. } => event is Done,
                    PublishAction::SavePkid { .. } => event is PkidSaved,
                }
            }
        }),
{
    lemma_publish_run(service, request, events);
    assert(events.push(event).drop_last() =~= events);
}

/// What stopped a message is what its sender is told. A message that nothing
/// stopped had passed every check, was stored, and is acknowledged as its
/// quality of service asks; one that is to arrive exactly once only after its
/// packet identifier was saved.
pub proof fn law_publish_replies<P>(
    service: MqttService,
    request: PublishRequest,
    events: Seq<PublishEvent<P>>,
)
    requires
        publish_run(service, request, events) matches Some(history) && history.progress is Answered,
    ensures
        ({
            let history = publish_run(service, request, events)->0;
            publish_finished(
                service,
                request,
                events,
                history.actions,
                history.progress->Answered_0,
            )
        }),
{
    lemma_publish_run(service, request, events);
}

/// Nothing is stored that did not come on a known connection and pass the
/// validator, and nothing but under the topic that its sender was allowed to
/// publish to, after it was found to follow the schema of that topic, if there
/// is one.
pub proof fn law_publish_stores_what_is_cleared<P>(
    service: MqttService,
    request: PublishRequest,
    events: Seq<PublishEvent<P>>,
)
    requires
        publish_run(service, request, events) is Some,
    ensures
        ({
            let history = publish_run(service, request, events)->0;
            publish_guarded(service, request, events, history.actions)
        }),
{
    lemma_publish_run(service, request, events);
}

/// The alias of the topic is added exactly if the message was stored, right
/// after that, and for the topic that the message went to.
pub proof fn law_publish_adds_alias<P>(
    service: MqttService,
    request: PublishRequest,
    events: Seq<PublishEvent<P>>,
)
    requires
        publish_run(service, request, events) is Some,
    ensures
        ({
            let history = publish_run(service, request, events)->0;
            publish_aliased(request, events, history.actions)
        }),
{
    lemma_publish_run(service, request, events);
}

/// Every acknowledgement bears the packet identifier of the request, and is a
/// PUBREC exactly for a message that is to arrive exactly once.
pub proof fn law_publish_acknowledges_the_request<P>(
    service: MqttService,
    request: PublishRequest,
    events: Seq<PublishEvent<P>>,
)
    requires
        publish_run(service, request, events) matches Some(history) && history.progress is Answered,
    ensures
        ({
            let history = publish_run(service, request, events)->0;
            match history.progress->Answered_0 {
                Some(ReplyModel::PubAckFail { pkid, is_pub_ack, .. }) => pkid == request.pkid && (
                is_pub_ack <==> request.qos != QoS::ExactlyOnce),
                Some(ReplyModel::PubAck { pkid, .. }) => pkid == request.pkid && request.qos
                    != QoS::ExactlyOnce,
                Some(ReplyModel::PubRec { pkid, .. }) => pkid == request.pkid && request.qos
                    == QoS::ExactlyOnce,
                Some(ReplyModel::Disconnect { .. }) => true,
                Some(ReplyModel::Ready(_)) => request.qos != QoS::AtMostOnce,
                Some(_) => false,
                None => request.qos == QoS::AtMostOnce,
            }
        }),
{
    lemma_publish_run(service, request, events);
}

/// The state in which a run asked its action `k`.
proof fn lemma_publish_at<P>(
    service: MqttService,
    request: PublishRequest,
    events: Seq<PublishEvent<P>>,
    k: int,
) -> (state: PublishState)
    requires
        publish_run(service, request, events) is Some,
        0 <= k < (publish_run(service, request, events)->0).actions.len(),
    ensures
        ({
            let actions = (publish_run(service, request, events)->0).actions;
            &&& k < events.len()
            &&& publish_reached(service, request, events.take(k + 1), actions.take(k + 1), state)
            &&& !(state is Start)
            &&& publish_question(service, request, state) == Some(actions[k])
        }),
{
    let step = |state: PublishState, event: PublishEvent<P>|
        publish_step(service, request, state, event);
    machine::lemma_run_prefix(step, PublishState::Start, events, 0);
    machine::lemma_run_prefix(step, PublishState::Start, events, k);
    lemma_publish_run(service, request, events.take(k + 1));
    let later = publish_run(service, request, events.take(k + 1))->0;
    let actions = (publish_run(service, request, events)->0).actions;
    assert(actions.take(k + 1).last() == actions[k]);
    later.progress->Waiting_0
}

/// The state that the last event of an answered run found.
proof fn lemma_publish_end<P>(
    service: MqttService,
    request: PublishRequest,
    events: Seq<PublishEvent<P>>,
) -> (state: PublishState)
    requires
        publish_run(service, request, events) matches Some(history) && history.progress is Answered,
    ensures
        ({
            let history = publish_run(service, request, events)->0;
            let n = events.len() as int;
            &&& n > 0
            &&& publish_reached(service, request, events.take(n - 1), history.actions, state)
            &&& publish_step(service, request, state, events.last()) == Step::<
                PublishState,
                PublishAction,
                Option<ReplyModel<P>>,
            >::Answer(history.progress->Answered_0)
        }),
{
    let step = |state: PublishState, event: PublishEvent<P>|
        publish_step(service, request, state, event);
    let n = events.len() as int;
    machine::lemma_run_prefix(step, PublishState::Start, events, n - 1);
    lemma_publish_run(service, request, events.take(n - 1));
    let history = publish_run(service, request, events)->0;
    assert(history.actions.take(n - 1) =~= history.actions);
    let early = publish_run(service, request, events.take(n - 1))->0;
    early.progress->Waiting_0
}

/// What is asked, one thing for each event: the topic is the one that the packet
/// resolves to or, for a message to be delivered later, the one decoded from
/// that; the message is stored for its sender, under the topic that was set up,
/// and a delayed one for the shard of that topic; the packet identifier is saved
/// only of a message that is to arrive exactly once. Nothing is asked after an
/// event that stops the message.
pub proof fn law_publish_asks<P>(
    service: MqttService,
    request: PublishRequest,
    events: Seq<PublishEvent<P>>,
    i: int,
)
    requires
        publish_run(service, request, events) matches Some(history) && 0 <= i
            < history.actions.len(),
    ensures
        ({
            let actions = (publish_run(service, request, events)->0).actions;
            let d = if events.len() > 4 && events[4] == PublishEvent::<P>::DelayRecognized(true) {
                1int
            } else {
                0int
            };
            let s = if events.len() > 7 + d && events[7 + d] == PublishEvent::<
                P,
            >::SchemaRecognized(true) {
                1int
            } else {
                0int
            };
            let connection = events[1]->Connection_0->0;
            let resolved = events[3]->TopicName_0->Ok_0;
            let decoded = events[5]->DelayDecoded_0->Ok_0;
            let topic_name = if d == 1 {
                decoded.target_topic_name
            } else {
                resolved
            };
            let topic = events[6 + d]->TopicReady_0->Ok_0;
            &&& if i == 0 {
                actions[i] == (PublishAction::LookUpConnection { connect_id: request.connect_id })
            } else if i == 1 {
                actions[i] == (PublishAction::Validate { protocol: service.protocol, connection })
            } else if i == 2 {
                actions[i] == (PublishAction::ResolveTopicName { connect_id: request.connect_id })
            } else if i == 3 {
                actions[i] == (PublishAction::RecognizeDelay { topic_name: resolved })
            } else if i == 3 + d {
                actions[i] == (PublishAction::DecodeDelay { topic_name: resolved })
            } else if i == 4 + d {
                actions[i] == (PublishAction::Authorize {
                    connection,
                    topic_name,
                    retain: request.retain,
                    qos: request.qos,
                })
            } else if i == 5 + d {
                actions[i] == (PublishAction::InitTopic { topic_name })
            } else if i == 6 + d {
                actions[i] == (PublishAction::RecognizeSchema { topic_name })
            } else if i == 6 + d + s {
                actions[i] == (PublishAction::CheckSchema { topic_name })
            } else if i == 7 + d + s {
                actions[i] == (PublishAction::SaveMessage {
                    client_id: connection.client_id,
                    topic,
                    delay_info: if d == 1 {
                        Some(
                            DelayInfo {
                                target_topic_name: decoded.target_topic_name,
                                target_shard_name: Some(topic.topic_id),
                            },
                        )
                    } else {
                        None
                    },
                })
            } else if i == 8 + d + s {
                actions[i] == (PublishAction::AddTopicAlias {
                    connect_id: request.connect_id,
                    topic_name,
                })
            } else {
                &&& i == 9 + d + s
                &&& request.qos == QoS::ExactlyOnce
                &&& actions[i] == (PublishAction::SavePkid {
                    client_id: connection.client_id,
                    pkid: request.pkid,
                })
            }
            &&& match events[i] {
                PublishEvent::Connection(found) => found is Some,
                PublishEvent::Validated(rejection) => rejection is None,
                PublishEvent::TopicName(resolved) => resolved is Ok,
                PublishEvent::DelayDecoded(decoded) => decoded is Ok,
                PublishEvent::Authorized(allowed) => allowed,
                PublishEvent::TopicReady(ready) => ready is Ok,
                PublishEvent::SchemaChecked(checked) => checked is Ok,
                PublishEvent::MessageSaved(saved) => saved is Ok,
                PublishEvent::PkidSaved(saved) => saved is Ok,
                _ => true,
            }
        }),
{
    let state = lemma_publish_at(service, request, events, i);
    let early = events.take(i + 1);
    assert(forall|j: int| 0 <= j <= i ==> early[j] == events[j]);
    assert(!publish_stops(early[i]));
}

/// What the sender is told, by the event that ends the request. A message that was
/// stored is acknowledged as a success, with the offset at which it was stored as
/// the only property: not at all, by a PUBACK or by a PUBREC, as its quality of
/// service asks. That it is not authorized is told exactly after the permission
/// was refused, and an error as the one that came.
pub proof fn law_publish_tells<P>(
    service: MqttService,
    request: PublishRequest,
    events: Seq<PublishEvent<P>>,
)
    requires
        publish_run(service, request, events) matches Some(history) && history.progress is Answered,
    ensures
        ({
            let history = publish_run(service, request, events)->0;
            let reply = history.progress->Answered_0;
            let protocol = service.protocol;
            let pkid = request.pkid;
            let connection = events[1]->Connection_0->0;
            let failed = |e: String|
                reply == Some(
                    ReplyModel::<P>::PubAckFail {
                        protocol,
                        connection,
                        pkid,
                        reason: Some(e),
                        is_pub_ack: request.qos != QoS::ExactlyOnce,
                    },
                );
            match events.last() {
                PublishEvent::Connection(found) => found is None && reply == Some(
                    ReplyModel::<P>::Disconnect {
                        protocol,
                        reason: Some(DisconnectReasonCode::MaximumConnectTime),
                    },
                ),
                PublishEvent::Validated(rejection) => rejection matches Some(packet) && reply
                    == if request.qos == QoS::AtMostOnce {
                    None
                } else {
                    Some(ReplyModel::Ready(packet))
                },
                PublishEvent::TopicName(resolved) => resolved matches Err(e) && failed(e),
                PublishEvent::DelayDecoded(decoded) => decoded matches Err(e) && failed(e),
                PublishEvent::TopicReady(ready) => ready matches Err(e) && failed(e),
                PublishEvent::SchemaChecked(checked) => checked matches Err(e) && failed(e),
                PublishEvent::MessageSaved(saved) => saved matches Err(e) && failed(e),
                PublishEvent::PkidSaved(Err(e)) => request.qos == QoS::ExactlyOnce && failed(e),
                PublishEvent::Authorized(allowed) => !allowed && if request.qos
                    == QoS::ExactlyOnce {
                    reply == Some(
                        ReplyModel::<P>::PubRec {
                            protocol,
                            connection,
                            pkid,
                            code: PubRecReason::NotAuthorized,
                            reason: None,
                            user_properties: Seq::empty(),
                        },
                    )
                } else {
                    reply == Some(
                        ReplyModel::<P>::PubAck {
                            protocol,
                            connection,
                            pkid,
                            code: PubAckReason::NotAuthorized,
                            reason: None,
                            user_properties: Seq::empty(),
                        },
                    )
                },
                PublishEvent::Done => events[events.len() - 2] matches PublishEvent::MessageSaved(
                    Ok(offset),
                ) && match request.qos {
                    QoS::AtMostOnce => reply is None,
                    QoS::AtLeastOnce => reply == Some(
                        ReplyModel::<P>::PubAck {
                            protocol,
                            connection,
                            pkid,
                            code: PubAckReason::Success,
                            reason: None,
                            user_properties: seq![("offset"@, offset@)],
                        },
                    ),
                    QoS::ExactlyOnce => false,
                },
                PublishEvent::PkidSaved(Ok(_)) => {
                    &&& request.qos == QoS::ExactlyOnce
                    &&& events[events.len() - 3] matches PublishEvent::MessageSaved(Ok(offset))
                    &&& reply == Some(
                        ReplyModel::<P>::PubRec {
                            protocol,
                            connection,
                            pkid,
                            code: PubRecReason::Success,
                            reason: None,
                            user_properties: seq![("offset"@, offset@)],
                        },
                    )
                },
                _ => false,
            }
        }),
{
    let state = lemma_publish_end(service, request, events);
    let early = events.take(events.len() - 1);
    assert(forall|i: int| 0 <= i < early.len() ==> early[i] == events[i]);
}

/// The model of an action is the action.
pub proof fn law_publish_action_model(action: PublishAction)
    ensures
        action.model() == action,
{
}

} // verus!
