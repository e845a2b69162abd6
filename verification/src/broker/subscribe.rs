//! The SUBSCRIBE packet.

use vstd::prelude::*;

use crate::broker::service::MqttService;
use crate::broker::types;
use crate::broker::types::{
    DisconnectReasonCode, MqttConnection, MqttProtocol, MqttReply, QoS, ReplyModel,
    SubscribeReasonCode,
};
use crate::machine;
use crate::machine::{History, Modeled, Progress, Step};

verus! {

/// What the handler reads of a SUBSCRIBE packet and of the connection it came on.
#[derive(Debug, PartialEq, Eq)]
pub struct SubscribeRequest {
    pub connect_id: u64,
    pub packet_identifier: u16,
    /// The quality of service that each filter asks for.
    pub filters: Vec<QoS>,
}

/// What the handler asks for. The packet and its properties go along with each
/// of these unchanged. `N` is the type of what is known of new subscriptions.
#[derive(Debug, PartialEq, Eq)]
pub enum SubscribeAction<N> {
    LookUpConnection { connect_id: u64 },
    Validate { protocol: MqttProtocol, connection: MqttConnection },
    /// Tell which of the subscriptions are new.
    DetectNew { client_id: String },
    SaveSubscriptions { client_id: String, protocol: MqttProtocol },
    ReportSubscribed { connection: MqttConnection, connect_id: u64 },
    SendRetained { protocol: MqttProtocol, client_id: String, new_subs: N },
    /// Read the highest quality of service that the cluster grants.
    ReadMaxQos,
}

impl<N> Modeled for SubscribeAction<N> {
    type Model = SubscribeAction<N>;

    open spec fn model(&self) -> SubscribeAction<N> {
        *self
    }
}

/// What an action brings.
#[derive(Debug, PartialEq, Eq)]
pub enum SubscribeEvent<P, N> {
    Begin,
    Connection(Option<MqttConnection>),
    /// The packet with which the validator rejects the request, if it does.
    Validated(Option<P>),
    NewSubs(N),
    Saved(Result<(), String>),
    MaxQos(u8),
    Done,
}

/// What the handler waits for.
#[derive(Debug, PartialEq, Eq)]
pub enum SubscribeState<N> {
    Start,
    LookingUp,
    Validating { connection: MqttConnection },
    DetectingNew { connection: MqttConnection },
    Saving { connection: MqttConnection, new_subs: N },
    Reporting { connection: MqttConnection, new_subs: N },
    SendingRetained { connection: MqttConnection },
    ReadingMaxQos { connection: MqttConnection },
}

/// The code that grants the lower of the level `max_level` and the one asked for.
pub open spec fn granted_code(max_level: u8, asked: QoS) -> SubscribeReasonCode {
    let level = if max_level < asked.level() {
        max_level
    } else {
        asked.level()
    };
    if level == 0 {
        SubscribeReasonCode::QoS0
    } else if level == 1 {
        SubscribeReasonCode::QoS1
    } else {
        SubscribeReasonCode::QoS2
    }
}

/// The codes that answer a list of filters: one for each, in order.
pub open spec fn granted_codes(max_level: u8, filters: Seq<QoS>) -> Seq<SubscribeReasonCode> {
    filters.map_values(|asked: QoS| granted_code(max_level, asked))
}

/// The codes that answer a list of filters: one for each, in order.
pub fn grant(max_level: u8, filters: &Vec<QoS>) -> (r: Vec<SubscribeReasonCode>)
    requires
        max_level <= 2 || filters@.len() == 0,
    ensures
        r@ == granted_codes(max_level, filters@),
{
    let mut codes: Vec<SubscribeReasonCode> = Vec::new();
    let mut i: usize = 0;
    while i < filters.len()
        invariant
            max_level <= 2 || filters@.len() == 0,
            i <= filters@.len(),
            codes@ =~= granted_codes(max_level, filters@.take(i as int)),
        decreases filters@.len() - i,
    {
        let asked = filters[i];
        assert(filters@.take(i as int + 1) =~= filters@.take(i as int).push(asked));
        if let Some(max_qos) = types::qos(max_level) {
            let code = match types::min_qos(max_qos, asked) {
                QoS::AtMostOnce => SubscribeReasonCode::QoS0,
                QoS::AtLeastOnce => SubscribeReasonCode::QoS1,
                QoS::ExactlyOnce => SubscribeReasonCode::QoS2,
            };
            assert(code == granted_code(max_level, asked));
            codes.push(code);
        }
        i = i + 1;
    }
    assert(filters@.take(filters@.len() as int) =~= filters@);
    codes
}

/// Everything that the handler asks for if nothing stops it, in order. What is
/// new is told before the subscriptions are saved, and used after that.
pub open spec fn subscribe_plan<N>(
    service: MqttService,
    request: SubscribeRequest,
    connection: MqttConnection,
    new_subs: N,
) -> Seq<SubscribeAction<N>> {
    seq![
        SubscribeAction::LookUpConnection { connect_id: request.connect_id },
        SubscribeAction::Validate { protocol: service.protocol, connection },
        SubscribeAction::DetectNew { client_id: connection.client_id },
        SubscribeAction::SaveSubscriptions {
            client_id: connection.client_id,
            protocol: service.protocol,
        },
        SubscribeAction::ReportSubscribed { connection, connect_id: request.connect_id },
        SubscribeAction::SendRetained {
            protocol: service.protocol,
            client_id: connection.client_id,
            new_subs,
        },
        SubscribeAction::ReadMaxQos,
    ]
}

/// Whether an event is of the kind that an action brings.
pub open spec fn subscribe_answers<P, N>(
    action: SubscribeAction<N>,
    event: SubscribeEvent<P, N>,
) -> bool {
    match action {
        SubscribeAction::LookUpConnection { .. } => event is Connection,
        SubscribeAction::Validate { .. } => event is Validated,
        SubscribeAction::DetectNew { .. } => event is NewSubs,
        SubscribeAction::SaveSubscriptions { .. } => event is Saved,
        SubscribeAction::ReportSubscribed { .. } => event is Done,
        SubscribeAction::SendRetained { .. } => event is Done,
        SubscribeAction::ReadMaxQos => event is MaxQos,
    }
}

/// How many questions a state has asked.
pub open spec fn subscribe_asked<N>(state: SubscribeState<N>) -> int {
    match state {
        SubscribeState::Start => 0,
        SubscribeState::LookingUp => 1,
        SubscribeState::Validating { .. } => 2,
        SubscribeState::DetectingNew { .. } => 3,
        SubscribeState::Saving { .. } => 4,
        SubscribeState::Reporting { .. } => 5,
        SubscribeState::SendingRetained { .. } => 6,
        SubscribeState::ReadingMaxQos { .. } => 7,
    }
}

/// The connection that a state knows of.
pub open spec fn subscribe_connection<N>(state: SubscribeState<N>) -> Option<MqttConnection> {
    match state {
        SubscribeState::Start => None,
        SubscribeState::LookingUp => None,
        SubscribeState::Validating { connection } => Some(connection),
        SubscribeState::DetectingNew { connection } => Some(connection),
        SubscribeState::Saving { connection, .. } => Some(connection),
        SubscribeState::Reporting { connection, .. } => Some(connection),
        SubscribeState::SendingRetained { connection } => Some(connection),
        SubscribeState::ReadingMaxQos { connection } => Some(connection),
    }
}

/// What a state still holds of new subscriptions.
pub open spec fn subscribe_new_subs<N>(state: SubscribeState<N>) -> Option<N> {
    match state {
        SubscribeState::Saving { new_subs, .. } => Some(new_subs),
        SubscribeState::Reporting { new_subs, .. } => Some(new_subs),
        _ => None,
    }
}

/// Whether a state takes an event: it has to answer the last question of the plan.
pub open spec fn subscribe_fits<P, N>(
    service: MqttService,
    request: SubscribeRequest,
    state: SubscribeState<N>,
    event: SubscribeEvent<P, N>,
) -> bool {
    let asked = subscribe_asked(state);
    let plan = subscribe_plan(
        service,
        request,
        subscribe_connection(state)->0,
        subscribe_new_subs(state)->0,
    );
    if asked == 0 {
        event is Begin
    } else {
        subscribe_answers(plan[asked - 1], event)
    }
}

/// The acknowledgement with the given codes.
pub open spec fn subscribe_ack<P>(
    service: MqttService,
    request: SubscribeRequest,
    connection: MqttConnection,
    codes: Seq<SubscribeReasonCode>,
    reason: Option<String>,
) -> ReplyModel<P> {
    ReplyModel::SubAck {
        protocol: service.protocol,
        connection,
        pkid: request.packet_identifier,
        codes,
        reason,
    }
}

/// The reply with which an event ends the request early, if it does. A failure
/// to save is told by a single code, however many filters there are.
pub open spec fn subscribe_refusal<P, N>(
    service: MqttService,
    request: SubscribeRequest,
    connection: MqttConnection,
    event: SubscribeEvent<P, N>,
) -> Option<ReplyModel<P>> {
    match event {
        SubscribeEvent::Connection(None) => Some(
            ReplyModel::Disconnect {
                protocol: service.protocol,
                reason: Some(DisconnectReasonCode::MaximumConnectTime),
            },
        ),
        SubscribeEvent::Validated(Some(packet)) => Some(ReplyModel::Ready(packet)),
        SubscribeEvent::Saved(Err(e)) => Some(
            subscribe_ack(
                service,
                request,
                connection,
                seq![SubscribeReasonCode::Unspecified],
                Some(e),
            ),
        ),
        _ => None,
    }
}

/// The state after an event that fits and ends nothing.
pub open spec fn subscribe_next<P, N>(
    state: SubscribeState<N>,
    event: SubscribeEvent<P, N>,
) -> SubscribeState<N> {
    match state {
        SubscribeState::Start => SubscribeState::LookingUp,
        SubscribeState::LookingUp => SubscribeState::Validating {
            connection: event->Connection_0->0,
        },
        SubscribeState::Validating { connection } => SubscribeState::DetectingNew { connection },
        SubscribeState::DetectingNew { connection } => SubscribeState::Saving {
            connection,
            new_subs: event->NewSubs_0,
        },
        SubscribeState::Saving { connection, new_subs } => SubscribeState::Reporting {
            connection,
            new_subs,
        },
        SubscribeState::Reporting { connection, .. } => SubscribeState::SendingRetained {
            connection,
        },
        SubscribeState::SendingRetained { connection } => SubscribeState::ReadingMaxQos {
            connection,
        },
        SubscribeState::ReadingMaxQos { .. } => state,
    }
}

/// One step of the handler.
pub open spec fn subscribe_step<P, N>(
    service: MqttService,
    request: SubscribeRequest,
    state: SubscribeState<N>,
    event: SubscribeEvent<P, N>,
) -> Step<SubscribeState<N>, SubscribeAction<N>, ReplyModel<P>> {
    let connection = subscribe_connection(state)->0;
    let refusal = subscribe_refusal(service, request, connection, event);
    if !subscribe_fits(service, request, state, event) {
        Step::Mismatch
    } else if refusal is Some {
        Step::Answer(refusal->0)
    } else if state is ReadingMaxQos {
        Step::Answer(
            subscribe_ack(
                service,
                request,
                connection,
                granted_codes(event->MaxQos_0, request.filters@),
                None,
            ),
        )
    } else {
        let next = subscribe_next(state, event);
        let plan = subscribe_plan(
            service,
            request,
            subscribe_connection(next)->0,
            subscribe_new_subs(state)->0,
        );
        Step::Ask(next, plan[subscribe_asked(next) - 1])
    }
}

impl MqttService {
    /// One step in the handling of a SUBSCRIBE packet. The highest quality of
    /// service has to be a valid level, unless there is no filter to answer.
    pub fn subscribe<P, N>(
        &self,
        request: &SubscribeRequest,
        state: SubscribeState<N>,
        event: SubscribeEvent<P, N>,
    ) -> (r: Step<SubscribeState<N>, SubscribeAction<N>, MqttReply<P>>)
        requires
            state is ReadingMaxQos && event is MaxQos ==> event->MaxQos_0 <= 2
                || request.filters@.len() == 0,
        ensures
            r.model() == subscribe_step(*self, *request, state, event),
    {
        match (state, event) {
            (SubscribeState::Start, SubscribeEvent::Begin) => Step::Ask(
                SubscribeState::LookingUp,
                SubscribeAction::LookUpConnection { connect_id: request.connect_id },
            ),
            (SubscribeState::LookingUp, SubscribeEvent::Connection(found)) => match found {
                Some(connection) => {
                    let action = SubscribeAction::Validate {
                        protocol: self.protocol,
                        connection: connection.clone(),
                    };
                    Step::Ask(SubscribeState::Validating { connection }, action)
                },
                None => Step::Answer(
                    MqttReply::Disconnect {
                        protocol: self.protocol,
                        reason: Some(DisconnectReasonCode::MaximumConnectTime),
                    },
                ),
            },
            (SubscribeState::Validating { connection }, SubscribeEvent::Validated(rejection)) =>
            match rejection {
                Some(packet) => Step::Answer(MqttReply::Ready(packet)),
                None => {
                    let action = SubscribeAction::DetectNew {
                        client_id: connection.client_id.clone(),
                    };
                    Step::Ask(SubscribeState::DetectingNew { connection }, action)
                },
            },
            (SubscribeState::DetectingNew { connection }, SubscribeEvent::NewSubs(new_subs)) => {
                let action = SubscribeAction::SaveSubscriptions {
                    client_id: connection.client_id.clone(),
                    protocol: self.protocol,
                };
                Step::Ask(SubscribeState::Saving { connection, new_subs }, action)
            },
            (SubscribeState::Saving { connection, new_subs }, SubscribeEvent::Saved(saved)) =>
            match saved {
                Ok(_) => {
                    let action = SubscribeAction::ReportSubscribed {
                        connection: connection.clone(),
                        connect_id: request.connect_id,
                    };
                    Step::Ask(SubscribeState::Reporting { connection, new_subs }, action)
                },
                Err(e) => {
                    let codes: Vec<SubscribeReasonCode> = vec![SubscribeReasonCode::Unspecified];
                    assert(codes@ =~= seq![SubscribeReasonCode::Unspecified]);
                    Step::Answer(
                        MqttReply::SubAck {
                            protocol: self.protocol,
                            connection,
                            pkid: request.packet_identifier,
                            codes,
                            reason: Some(e),
                        },
                    )
                },
            },
            (SubscribeState::Reporting { connection, new_subs }, SubscribeEvent::Done) => {
                let action = SubscribeAction::SendRetained {
                    protocol: self.protocol,
                    client_id: connection.client_id.clone(),
                    new_subs,
                };
                Step::Ask(SubscribeState::SendingRetained { connection }, action)
            },
            (SubscribeState::SendingRetained { connection }, SubscribeEvent::Done) => Step::Ask(
                SubscribeState::ReadingMaxQos { connection },
                SubscribeAction::ReadMaxQos,
            ),
            (SubscribeState::ReadingMaxQos { connection }, SubscribeEvent::MaxQos(max_level)) =>
            Step::Answer(
                MqttReply::SubAck {
                    protocol: self.protocol,
                    connection,
                    pkid: request.packet_identifier,
                    codes: grant(max_level, &request.filters),
                    reason: None,
                },
            ),
            _ => Step::Mismatch,
        }
    }
}

/// The run of the handler over a sequence of events.
pub open spec fn subscribe_run<P, N>(
    service: MqttService,
    request: SubscribeRequest,
    events: Seq<SubscribeEvent<P, N>>,
) -> Option<History<SubscribeState<N>, SubscribeAction<N>, ReplyModel<P>>> {
    machine::run(
        |state: SubscribeState<N>, event: SubscribeEvent<P, N>|
            subscribe_step(service, request, state, event),
        SubscribeState::Start,
        events,
    )
}

/// The connection that the packet came on.
pub open spec fn subscribe_sender<P, N>(events: Seq<SubscribeEvent<P, N>>) -> MqttConnection {
    events[1]->Connection_0->0
}

/// What these events tell of new subscriptions.
pub open spec fn subscribe_told<P, N>(events: Seq<SubscribeEvent<P, N>>) -> N {
    events[3]->NewSubs_0
}

/// What the history of a handler that has replied looks like: it followed its
/// plan up to the event that ended it.
pub open spec fn subscribe_finished<P, N>(
    service: MqttService,
    request: SubscribeRequest,
    events: Seq<SubscribeEvent<P, N>>,
    actions: Seq<SubscribeAction<N>>,
    reply: ReplyModel<P>,
) -> bool {
    let n = events.len() as int;
    let sender = subscribe_sender(events);
    &&& 2 <= n <= 8
    &&& actions =~= subscribe_plan(service, request, sender, subscribe_told(events)).take(n - 1)
    &&& forall|i: int|
        0 <= i < n - 1 ==> subscribe_refusal(service, request, sender, #[trigger] events[i]) is None
    &&& match subscribe_refusal(service, request, sender, events.last()) {
        Some(refusal) => n <= 5 && reply == refusal,
        None => {
            &&& n == 8
            &&& events.last() is MaxQos
            &&& reply == subscribe_ack::<P>(
                service,
                request,
                sender,
                granted_codes(events.last()->MaxQos_0, request.filters@),
                None,
            )
        },
    }
}

spec fn subscribe_inv<P, N>(
    service: MqttService,
    request: SubscribeRequest,
    events: Seq<SubscribeEvent<P, N>>,
    actions: Seq<SubscribeAction<N>>,
    progress: Progress<SubscribeState<N>, ReplyModel<P>>,
) -> bool {
    let n = events.len() as int;
    let sender = subscribe_sender(events);
    match progress {
        Progress::Waiting(state) => {
            &&& n == subscribe_asked(state)
            &&& n > 1 ==> subscribe_connection(state) == Some(sender)
            &&& subscribe_new_subs(state) matches Some(new_subs) ==> new_subs == subscribe_told(
                events,
            )
            &&& actions =~= subscribe_plan(service, request, sender, subscribe_told(events)).take(n)
            &&& forall|i: int|
                0 <= i < n ==> subscribe_refusal(
                    service,
                    request,
                    sender,
                    #[trigger] events[i],
                ) is None
        },
        Progress::Answered(reply) => subscribe_finished(service, request, events, actions, reply),
    }
}

proof fn lemma_subscribe_run<P, N>(
    service: MqttService,
    request: SubscribeRequest,
    events: Seq<SubscribeEvent<P, N>>,
)
    ensures
        subscribe_run(service, request, events) matches Some(history) ==> subscribe_inv(
            service,
            request,
            events,
            history.actions,
            history.progress,
        ),
{
    let step = |state: SubscribeState<N>, event: SubscribeEvent<P, N>|
        subscribe_step(service, request, state, event);
    let inv = |es: Seq<SubscribeEvent<P, N>>, acts: Seq<SubscribeAction<N>>, progress: Progress<
        SubscribeState<N>,
        ReplyModel<P>,
    >| subscribe_inv(service, request, es, acts, progress);
    assert forall|
        es: Seq<SubscribeEvent<P, N>>,
        acts: Seq<SubscribeAction<N>>,
        s: SubscribeState<N>,
        e: SubscribeEvent<P, N>,
    | #[trigger] machine::kept_by_step(step, inv, es, acts, s, e) by {
        if es.len() > 1 {
            assert(subscribe_sender(es.push(e)) == subscribe_sender(es));
        }
        if es.len() > 3 {
            assert(subscribe_told(es.push(e)) == subscribe_told(es));
        }
    }
    machine::lemma_run_keeps(step, SubscribeState::Start, events, inv);
}

/// A handler that waits takes exactly the events that answer the last thing it
/// asked for.
pub proof fn law_subscribe_takes_answers<P, N>(
    service: MqttService,
    request: SubscribeRequest,
    events: Seq<SubscribeEvent<P, N>>,
    event: SubscribeEvent<P, N>,
)
    requires
        subscribe_run(service, request, events) matches Some(history) && history.progress
             is Waiting,
    ensures
        ({
            let history = subscribe_run(service, request, events)->0;
            subscribe_run(service, request, events.push(event)) is Some <==> if events.len() == 0 {
                event is Begin
            } else {
                match history.actions.last() {
                    SubscribeAction::LookUpConnection { .. } => event is Connection,
                    SubscribeAction::Validate { .. } => event is Validated,
                    SubscribeAction::DetectNew { .. } => event is NewSubs,
                    SubscribeAction::SaveSubscriptions { .. } => event is Saved,
                    SubscribeAction::ReportSubscribed { .. } => event is Done,
                    SubscribeAction::SendRetained { .. } => event is Done,
                    SubscribeAction::ReadMaxQos => event is MaxQos,
                }
            }
        }),
{
    lemma_subscribe_run(service, request, events);
    assert(events.push(event).drop_last() =~= events);
}

/// The handler follows its plan up to the event that ends it. A request that
/// nothing stopped has saved and reported its subscriptions and sent the
/// retained messages, and is acknowledged with the codes that it is granted;
/// what stopped a request is what its sender is told.
pub proof fn law_subscribe_replies<P, N>(
    service: MqttService,
    request: SubscribeRequest,
    events: Seq<SubscribeEvent<P, N>>,
)
    requires
        subscribe_run(service, request, events) matches Some(history) && history.progress
             is Answered,
    ensures
        ({
            let history = subscribe_run(service, request, events)->0;
            subscribe_finished(
                service,
                request,
                events,
                history.actions,
                history.progress->Answered_0,
            )
        }),
{
    lemma_subscribe_run(service, request, events);
}

/// Each filter is answered by one code, in its place; the code grants neither
/// more than was asked for nor more than the cluster grants, and one of the two.
pub proof fn law_grant_is_lower(max_level: u8, filters: Seq<QoS>, i: int)
    requires
        max_level <= 2,
        0 <= i < filters.len(),
    ensures
        ({
            let codes = granted_codes(max_level, filters);
            let level = match codes[i] {
                SubscribeReasonCode::QoS0 => 0int,
                SubscribeReasonCode::QoS1 => 1int,
                SubscribeReasonCode::QoS2 => 2int,
                SubscribeReasonCode::Unspecified => -1int,
            };
            &&& codes.len() == filters.len()
            &&& level <= filters[i].level()
            &&& level <= max_level
            &&& level == filters[i].level() || level == max_level
        }),
{
}

/// The codes of two lists of filters, one after the other, are the codes of the
/// first and then those of the second.
pub proof fn law_grant_joins(max_level: u8, first: Seq<QoS>, second: Seq<QoS>)
    ensures
        granted_codes(max_level, first + second) == granted_codes(max_level, first)
            + granted_codes(max_level, second),
{
    assert(granted_codes(max_level, first + second) =~= granted_codes(max_level, first)
        + granted_codes(max_level, second));
}

/// What is asked, one thing for each event: what is new is told before the
/// subscriptions are saved, and is what the retained messages are sent for; the
/// highest quality of service is read last. Nothing is asked after an event that
/// stops the request.
pub proof fn law_subscribe_asks<P, N>(
    service: MqttService,
    request: SubscribeRequest,
    events: Seq<SubscribeEvent<P, N>>,
    i: int,
)
    requires
        subscribe_run(service, request, events) matches Some(history) && 0 <= i
            < history.actions.len(),
    ensures
        ({
            let actions = (subscribe_run(service, request, events)->0).actions;
            let connection = events[1]->Connection_0->0;
            &&& if i == 0 {
                actions[i] == (SubscribeAction::<N>::LookUpConnection {
                    connect_id: request.connect_id,
                })
            } else if i == 1 {
                actions[i] == (SubscribeAction::<N>::Validate {
                    protocol: service.protocol,
                    connection,
                })
            } else if i == 2 {
                actions[i] == (SubscribeAction::<N>::DetectNew { client_id: connection.client_id })
            } else if i == 3 {
                actions[i] == (SubscribeAction::<N>::SaveSubscriptions {
                    client_id: connection.client_id,
                    protocol: service.protocol,
                })
            } else if i == 4 {
                actions[i] == (SubscribeAction::<N>::ReportSubscribed {
                    connection,
                    connect_id: request.connect_id,
                })
            } else if i == 5 {
                actions[i] == (SubscribeAction::<N>::SendRetained {
                    protocol: service.protocol,
                    client_id: connection.client_id,
                    new_subs: events[3]->NewSubs_0,
                })
            } else {
                i == 6 && actions[i] is ReadMaxQos
            }
            &&& match events[i] {
                SubscribeEvent::Connection(found) => found is Some,
                SubscribeEvent::Validated(rejection) => rejection is None,
                SubscribeEvent::Saved(saved) => saved is Ok,
                _ => true,
            }
        }),
{
    let step = |state: SubscribeState<N>, event: SubscribeEvent<P, N>|
        subscribe_step(service, request, state, event);
    machine::lemma_run_prefix(step, SubscribeState::Start, events, 0);
    machine::lemma_run_prefix(step, SubscribeState::Start, events, i);
    lemma_subscribe_run(service, request, events);
    let sender = subscribe_sender(events);
    assert(subscribe_refusal(service, request, sender, events[i]) is None);
}

/// What the sender is told, by the event that ends the request: to disconnect if
/// it is not known, the validator's packet, a single code of failure with the
/// error, or, without a reason, one code for each filter in its place. Such a code
/// grants at most once if the filter or the cluster stops there, exactly once if
/// both go that far, and at least once otherwise, under every protocol.
pub proof fn law_subscribe_tells<P, N>(
    service: MqttService,
    request: SubscribeRequest,
    events: Seq<SubscribeEvent<P, N>>,
)
    requires
        subscribe_run(service, request, events) matches Some(history) && history.progress
             is Answered,
    ensures
        ({
            let history = subscribe_run(service, request, events)->0;
            let reply = history.progress->Answered_0;
            let filters = request.filters@;
            match events.last() {
                SubscribeEvent::Connection(found) => found is None && reply == (ReplyModel::<
                    P,
                >::Disconnect {
                    protocol: service.protocol,
                    reason: Some(DisconnectReasonCode::MaximumConnectTime),
                }),
                SubscribeEvent::Validated(rejection) => rejection matches Some(packet) && reply
                    == ReplyModel::Ready(packet),
                SubscribeEvent::Saved(saved) => saved matches Err(e) && reply == (ReplyModel::<
                    P,
                >::SubAck {
                    protocol: service.protocol,
                    connection: events[1]->Connection_0->0,
                    pkid: request.packet_identifier,
                    codes: seq![SubscribeReasonCode::Unspecified],
                    reason: Some(e),
                }),
                SubscribeEvent::MaxQos(max) => {
                    &&& history.actions.len() == 7
                    &&& reply matches ReplyModel::SubAck {
                        protocol,
                        connection,
                        pkid,
                        codes,
                        reason,
                    }
                    &&& protocol == service.protocol
                    &&& connection == events[1]->Connection_0->0
                    &&& pkid == request.packet_identifier
                    &&& reason is None
                    &&& codes.len() == filters.len()
                    &&& max <= 2 ==> forall|i: int|
                        0 <= i < filters.len() ==> #[trigger] codes[i] == if max == 0 || filters[i]
                            == QoS::AtMostOnce {
                            SubscribeReasonCode::QoS0
                        } else if max == 2 && filters[i] == QoS::ExactlyOnce {
                            SubscribeReasonCode::QoS2
                        } else {
                            SubscribeReasonCode::QoS1
                        }
                },
                _ => false,
            }
        }),
{
    let step = |state: SubscribeState<N>, event: SubscribeEvent<P, N>|
        subscribe_step(service, request, state, event);
    let n = events.len() as int;
    lemma_subscribe_run(service, request, events);
    machine::lemma_run_prefix(step, SubscribeState::Start, events, n - 1);
    lemma_subscribe_run(service, request, events.take(n - 1));
}

/// The codes of `grant` are told in full: each filter gets one in its place, of the
/// lower of the two levels, and none is a failure.
pub proof fn law_granted_codes(max_level: u8, filters: Seq<QoS>, i: int)
    requires
        max_level <= 2,
        0 <= i < filters.len(),
    ensures
        ({
            let codes = granted_codes(max_level, filters);
            &&& codes.len() == filters.len()
            &&& codes[i] is QoS0 <==> max_level == 0 || filters[i] == QoS::AtMostOnce
            &&& codes[i] is QoS2 <==> max_level == 2 && filters[i] == QoS::ExactlyOnce
            &&& !(codes[i] is Unspecified)
        }),
{
}

/// The model of an action is the action.
pub proof fn law_subscribe_action_model<N>(action: SubscribeAction<N>)
    ensures
        action.model() == action,
{
}

} // verus!
