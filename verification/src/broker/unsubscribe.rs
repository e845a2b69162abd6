//! The UNSUBSCRIBE packet.

use vstd::prelude::*;

use crate::broker::service::MqttService;
use crate::broker::types::{
    DisconnectReasonCode, MqttConnection, MqttReply, ReplyModel, UnsubAckReason,
};
use crate::machine;
use crate::machine::{History, Modeled, Progress, Step};

verus! {

/// What the handler reads of an UNSUBSCRIBE packet and of the connection it came on.
#[derive(Debug, Clone, Copy, PartialEq, Eq, Structural)]
pub struct UnsubscribeRequest {
    pub connect_id: u64,
    pub pkid: u16,
}

/// What the handler asks for. The packet goes along with each of these unchanged.
#[derive(Debug, PartialEq, Eq)]
pub enum UnsubscribeAction {
    LookUpConnection { connect_id: u64 },
    Validate { client_id: String, connection: MqttConnection },
    RemoveSubscriptions { client_id: String },
    ReportUnsubscribed { connection: MqttConnection, connect_id: u64 },
}

impl Modeled for UnsubscribeAction {
    type Model = UnsubscribeAction;

    open spec fn model(&self) -> UnsubscribeAction {
        *self
    }
}

/// What an action brings.
#[derive(Debug, PartialEq, Eq)]
pub enum UnsubscribeEvent<P> {
    Begin,
    Connection(Option<MqttConnection>),
    /// The packet with which the validator rejects the request, if it does.
    Validated(Option<P>),
    Removed(Result<(), String>),
    Done,
}

/// What the handler waits for.
#[derive(Debug, PartialEq, Eq)]
pub enum UnsubscribeState {
    Start,
    LookingUp,
    Validating { connection: MqttConnection },
    Removing { connection: MqttConnection },
    Reporting { connection: MqttConnection },
}

/// Everything that the handler asks for if nothing stops it, in order.
pub open spec fn unsubscribe_plan(
    request: UnsubscribeRequest,
    connection: MqttConnection,
) -> Seq<UnsubscribeAction> {
    seq![
        UnsubscribeAction::LookUpConnection { connect_id: request.connect_id },
        UnsubscribeAction::Validate { client_id: connection.client_id, connection },
        UnsubscribeAction::RemoveSubscriptions { client_id: connection.client_id },
        UnsubscribeAction::ReportUnsubscribed { connection, connect_id: request.connect_id },
    ]
}

/// Whether an event is of the kind that an action brings.
pub open spec fn unsubscribe_answers<P>(
    action: UnsubscribeAction,
    event: UnsubscribeEvent<P>,
) -> bool {
    match action {
        UnsubscribeAction::LookUpConnection { .. } => event is Connection,
        UnsubscribeAction::Validate { .. } => event is Validated,
        UnsubscribeAction::RemoveSubscriptions { .. } => event is Removed,
        UnsubscribeAction::ReportUnsubscribed { .. } => event is Done,
    }
}

/// How many questions a state has asked.
pub open spec fn unsubscribe_asked(state: UnsubscribeState) -> int {
    match state {
        UnsubscribeState::Start => 0,
        UnsubscribeState::LookingUp => 1,
        UnsubscribeState::Validating { .. } => 2,
        UnsubscribeState::Removing { .. } => 3,
        UnsubscribeState::Reporting { .. } => 4,
    }
}

/// The connection that a state knows of.
pub open spec fn unsubscribe_connection(state: UnsubscribeState) -> Option<MqttConnection> {
    match state {
        UnsubscribeState::Validating { connection } => Some(connection),
        UnsubscribeState::Removing { connection } => Some(connection),
        UnsubscribeState::Reporting { connection } => Some(connection),
        _ => None,
    }
}

/// Whether a state takes an event: it has to answer the last question of the plan.
pub open spec fn unsubscribe_fits<P>(
    request: UnsubscribeRequest,
    state: UnsubscribeState,
    event: UnsubscribeEvent<P>,
) -> bool {
    let asked = unsubscribe_asked(state);
    if asked == 0 {
        event is Begin
    } else {
        unsubscribe_answers(
            unsubscribe_plan(request, unsubscribe_connection(state)->0)[asked - 1],
            event,
        )
    }
}

/// The acknowledgement with a single code.
pub open spec fn unsubscribe_ack<P>(
    request: UnsubscribeRequest,
    connection: MqttConnection,
    code: UnsubAckReason,
    reason: Option<String>,
) -> ReplyModel<P> {
    ReplyModel::UnsubAck { connection, pkid: request.pkid, codes: seq![code], reason }
}

/// The reply with which an event ends the request early, if it does.
pub open spec fn unsubscribe_refusal<P>(
    service: MqttService,
    request: UnsubscribeRequest,
    connection: MqttConnection,
    event: UnsubscribeEvent<P>,
) -> Option<ReplyModel<P>> {
    match event {
        UnsubscribeEvent::Connection(None) => Some(
            ReplyModel::Disconnect {
                protocol: service.protocol,
                reason: Some(DisconnectReasonCode::MaximumConnectTime),
            },
        ),
        UnsubscribeEvent::Validated(Some(packet)) => Some(ReplyModel::Ready(packet)),
        UnsubscribeEvent::Removed(Err(e)) => Some(
            unsubscribe_ack(request, connection, UnsubAckReason::UnspecifiedError, Some(e)),
        ),
        _ => None,
    }
}

/// The state after an event that fits and ends nothing.
pub open spec fn unsubscribe_next<P>(
    state: UnsubscribeState,
    event: UnsubscribeEvent<P>,
) -> UnsubscribeState {
    match state {
        UnsubscribeState::Start => UnsubscribeState::LookingUp,
        UnsubscribeState::LookingUp => UnsubscribeState::Validating {
            connection: event->Connection_0->0,
        },
        UnsubscribeState::Validating { connection } => UnsubscribeState::Removing { connection },
        UnsubscribeState::Removing { connection } => UnsubscribeState::Reporting { connection },
        UnsubscribeState::Reporting { .. } => state,
    }
}

/// One step of the handler.
pub open spec fn unsubscribe_step<P>(
    service: MqttService,
    request: UnsubscribeRequest,
    state: UnsubscribeState,
    event: UnsubscribeEvent<P>,
) -> Step<UnsubscribeState, UnsubscribeAction, ReplyModel<P>> {
    let connection = unsubscribe_connection(state)->0;
    let refusal = unsubscribe_refusal(service, request, connection, event);
    if !unsubscribe_fits(request, state, event) {
        Step::Mismatch
    } else if refusal is Some {
        Step::Answer(refusal->0)
    } else if state is Reporting {
        Step::Answer(unsubscribe_ack(request, connection, UnsubAckReason::Success, None))
    } else {
        let next = unsubscribe_next(state, event);
        Step::Ask(
            next,
            unsubscribe_plan(request, unsubscribe_connection(next)->0)[unsubscribe_asked(next)
                - 1],
        )
    }
}

impl MqttService {
    fn unsubscribe_reply<P>(
        &self,
        request: &UnsubscribeRequest,
        connection: MqttConnection,
        code: UnsubAckReason,
        reason: Option<String>,
    ) -> (r: Step<UnsubscribeState, UnsubscribeAction, MqttReply<P>>)
        ensures
            r.model() == Step::<UnsubscribeState, UnsubscribeAction, ReplyModel<P>>::Answer(
                unsubscribe_ack(*request, connection, code, reason),
            ),
    {
        let codes: Vec<UnsubAckReason> = vec![code];
        assert(codes@ =~= seq![code]);
        Step::Answer(MqttReply::UnsubAck { connection, pkid: request.pkid, codes, reason })
    }

    /// One step in the handling of an UNSUBSCRIBE packet.
    pub fn un_subscribe<P>(
        &self,
        request: &UnsubscribeRequest,
        state: UnsubscribeState,
        event: UnsubscribeEvent<P>,
    ) -> (r: Step<UnsubscribeState, UnsubscribeAction, MqttReply<P>>)
        ensures
            r.model() == unsubscribe_step(*self, *request, state, event),
    {
        match (state, event) {
            (UnsubscribeState::Start, UnsubscribeEvent::Begin) => Step::Ask(
                UnsubscribeState::LookingUp,
                UnsubscribeAction::LookUpConnection { connect_id: request.connect_id },
            ),
            (UnsubscribeState::LookingUp, UnsubscribeEvent::Connection(found)) => match found {
                Some(connection) => {
                    let action = UnsubscribeAction::Validate {
                        client_id: connection.client_id.clone(),
                        connection: connection.clone(),
                    };
                    Step::Ask(UnsubscribeState::Validating { connection }, action)
                },
                None => Step::Answer(
                    MqttReply::Disconnect {
                        protocol: self.protocol,
                        reason: Some(DisconnectReasonCode::MaximumConnectTime),
                    },
                ),
            },
            (UnsubscribeState::Validating { connection }, UnsubscribeEvent::Validated(rejection)) =>
            match rejection {
                Some(packet) => Step::Answer(MqttReply::Ready(packet)),
                None => {
                    let action = UnsubscribeAction::RemoveSubscriptions {
                        client_id: connection.client_id.clone(),
                    };
                    Step::Ask(UnsubscribeState::Removing { connection }, action)
                },
            },
            (UnsubscribeState::Removing { connection }, UnsubscribeEvent::Removed(removed)) =>
            match removed {
                Ok(_) => {
                    let action = UnsubscribeAction::ReportUnsubscribed {
                        connection: connection.clone(),
                        connect_id: request.connect_id,
                    };
                    Step::Ask(UnsubscribeState::Reporting { connection }, action)
                },
                Err(e) => self.unsubscribe_reply(
                    request,
                    connection,
                    UnsubAckReason::UnspecifiedError,
                    Some(e),
                ),
            },
            (UnsubscribeState::Reporting { connection }, UnsubscribeEvent::Done) =>
            self.unsubscribe_reply(request, connection, UnsubAckReason::Success, None),
            _ => Step::Mismatch,
        }
    }
}

/// The run of the handler over a sequence of events.
pub open spec fn unsubscribe_run<P>(
    service: MqttService,
    request: UnsubscribeRequest,
    events: Seq<UnsubscribeEvent<P>>,
) -> Option<History<UnsubscribeState, UnsubscribeAction, ReplyModel<P>>> {
    machine::run(
        |state: UnsubscribeState, event: UnsubscribeEvent<P>|
            unsubscribe_step(service, request, state, event),
        UnsubscribeState::Start,
        events,
    )
}

/// The connection that the packet came on.
pub open spec fn unsubscribe_sender<P>(events: Seq<UnsubscribeEvent<P>>) -> MqttConnection {
    events[1]->Connection_0->0
}

/// What the history of a handler that has replied looks like: it followed its
/// plan up to the event that ended it.
pub open spec fn unsubscribe_finished<P>(
    service: MqttService,
    request: UnsubscribeRequest,
    events: Seq<UnsubscribeEvent<P>>,
    actions: Seq<UnsubscribeAction>,
    reply: ReplyModel<P>,
) -> bool {
    let n = events.len() as int;
    let sender = unsubscribe_sender(events);
    &&& 2 <= n <= 5
    &&& actions =~= unsubscribe_plan(request, sender).take(n - 1)
    &&& forall|i: int|
        0 <= i < n - 1 ==> unsubscribe_refusal(
            service,
            request,
            sender,
            #[trigger] events[i],
        ) is None
    &&& match unsubscribe_refusal(service, request, sender, events.last()) {
        Some(refusal) => n <= 4 && reply == refusal,
        None => n == 5 && reply == unsubscribe_ack::<P>(
            request,
            sender,
            UnsubAckReason::Success,
            None,
        ),
    }
}

spec fn unsubscribe_inv<P>(
    service: MqttService,
    request: UnsubscribeRequest,
    events: Seq<UnsubscribeEvent<P>>,
    actions: Seq<UnsubscribeAction>,
    progress: Progress<UnsubscribeState, ReplyModel<P>>,
) -> bool {
    let n = events.len() as int;
    let sender = unsubscribe_sender(events);
    match progress {
        Progress::Waiting(state) => {
            &&& n == unsubscribe_asked(state)
            &&& n > 1 ==> unsubscribe_connection(state) == Some(sender)
            &&& actions =~= unsubscribe_plan(request, sender).take(n)
            &&& forall|i: int|
                0 <= i < n ==> unsubscribe_refusal(
                    service,
                    request,
                    sender,
                    #[trigger] events[i],
                ) is None
        },
        Progress::Answered(reply) => unsubscribe_finished(
            service,
            request,
            events,
            actions,
            reply,
        ),
    }
}

proof fn lemma_unsubscribe_run<P>(
    service: MqttService,
    request: UnsubscribeRequest,
    events: Seq<UnsubscribeEvent<P>>,
)
    ensures
        unsubscribe_run(service, request, events) matches Some(history) ==> unsubscribe_inv(
            service,
            request,
            events,
            history.actions,
            history.progress,
        ),
{
    let step = |state: UnsubscribeState, event: UnsubscribeEvent<P>|
        unsubscribe_step(service, request, state, event);
    let inv = |es: Seq<UnsubscribeEvent<P>>, acts: Seq<UnsubscribeAction>, progress: Progress<
        UnsubscribeState,
        ReplyModel<P>,
    >| unsubscribe_inv(service, request, es, acts, progress);
    assert forall|
        es: Seq<UnsubscribeEvent<P>>,
        acts: Seq<UnsubscribeAction>,
        s: UnsubscribeState,
        e: UnsubscribeEvent<P>,
    | #[trigger] machine::kept_by_step(step, inv, es, acts, s, e) by {
        if es.len() > 1 {
            assert(unsubscribe_sender(es.push(e)) == unsubscribe_sender(es));
        }
    }
    machine::lemma_run_keeps(step, UnsubscribeState::Start, events, inv);
}

/// A handler that waits takes exactly the events that answer the last thing it
/// asked for.
pub proof fn law_unsubscribe_takes_answers<P>(
    service: MqttService,
    request: UnsubscribeRequest,
    events: Seq<UnsubscribeEvent<P>>,
    event: UnsubscribeEvent<P>,
)
    requires
        unsubscribe_run(service, request, events) matches Some(history) && history.progress
             is Waiting,
    ensures
        ({
            let history = unsubscribe_run(service, request, events)->0;
            unsubscribe_run(service, request, events.push(event)) is Some <==> if events.len()
                == 0 {
                event is Begin
            } else {
                match history.actions.last() {
                    UnsubscribeAction::LookUpConnection { .. } => event is Connection,
                    UnsubscribeAction::Validate { .. } => event is Validated,
                    UnsubscribeAction::RemoveSubscriptions { .. } => event is Removed,
                    UnsubscribeAction::ReportUnsubscribed { .. } => event is Done,
                }
            }
        }),
{
    lemma_unsubscribe_run(service, request, events);
    assert(events.push(event).drop_last() =~= events);
}

/// The handler follows its plan up to the event that ends it. A request that
/// nothing stopped has removed the subscriptions and reported that, and is
/// acknowledged with a single success code; what stopped a request is what its
/// sender is told.
pub proof fn law_unsubscribe_replies<P>(
    service: MqttService,
    request: UnsubscribeRequest,
    events: Seq<UnsubscribeEvent<P>>,
)
    requires
        unsubscribe_run(service, request, events) matches Some(history) && history.progress
             is Answered,
    ensures
        ({
            let history = unsubscribe_run(service, request, events)->0;
            unsubscribe_finished(
                service,
                request,
                events,
                history.actions,
                history.progress->Answered_0,
            )
        }),
{
    lemma_unsubscribe_run(service, request, events);
}

/// What is asked, one thing for each event: the request is validated, the
/// sender's subscriptions are removed, and that is reported. Nothing is asked
/// after an event that stops the request.
pub proof fn law_unsubscribe_asks<P>(
    service: MqttService,
    request: UnsubscribeRequest,
    events: Seq<UnsubscribeEvent<P>>,
    i: int,
)
    requires
        unsubscribe_run(service, request, events) matches Some(history) && 0 <= i
            < history.actions.len(),
    ensures
        ({
            let actions = (unsubscribe_run(service, request, events)->0).actions;
            let connection = events[1]->Connection_0->0;
            &&& if i == 0 {
                actions[i] == (UnsubscribeAction::LookUpConnection {
                    connect_id: request.connect_id,
                })
            } else if i == 1 {
                actions[i] == (UnsubscribeAction::Validate {
                    client_id: connection.client_id,
                    connection,
                })
            } else if i == 2 {
                actions[i] == (UnsubscribeAction::RemoveSubscriptions {
                    client_id: connection.client_id,
                })
            } else {
                &&& i == 3
                &&& actions[i] == (UnsubscribeAction::ReportUnsubscribed {
                    connection,
                    connect_id: request.connect_id,
                })
            }
            &&& match events[i] {
                UnsubscribeEvent::Connection(found) => found is Some,
                UnsubscribeEvent::Validated(rejection) => rejection is None,
                UnsubscribeEvent::Removed(removed) => removed is Ok,
                _ => true,
            }
        }),
{
    let step = |state: UnsubscribeState, event: UnsubscribeEvent<P>|
        unsubscribe_step(service, request, state, event);
    machine::lemma_run_prefix(step, UnsubscribeState::Start, events, 0);
    machine::lemma_run_prefix(step, UnsubscribeState::Start, events, i);
    lemma_unsubscribe_run(service, request, events);
    let sender = unsubscribe_sender(events);
    assert(unsubscribe_refusal(service, request, sender, events[i]) is None);
}

/// What the sender is told, by the event that ends the request: to disconnect if
/// it is not known, the validator's packet, a single code of failure with the
/// error, or a single code of success.
pub proof fn law_unsubscribe_tells<P>(
    service: MqttService,
    request: UnsubscribeRequest,
    events: Seq<UnsubscribeEvent<P>>,
)
    requires
        unsubscribe_run(service, request, events) matches Some(history) && history.progress
             is Answered,
    ensures
        ({
            let history = unsubscribe_run(service, request, events)->0;
            let reply = history.progress->Answered_0;
            let connection = events[1]->Connection_0->0;
            match events.last() {
                UnsubscribeEvent::Connection(found) => found is None && reply == (ReplyModel::<
                    P,
                >::Disconnect {
                    protocol: service.protocol,
                    reason: Some(DisconnectReasonCode::MaximumConnectTime),
                }),
                UnsubscribeEvent::Validated(rejection) => rejection matches Some(packet) && reply
                    == ReplyModel::Ready(packet),
                UnsubscribeEvent::Removed(removed) => removed matches Err(e) && reply
                    == (ReplyModel::<P>::UnsubAck {
                    connection,
                    pkid: request.pkid,
                    codes: seq![UnsubAckReason::UnspecifiedError],
                    reason: Some(e),
                }),
                UnsubscribeEvent::Done => history.actions.len() == 4 && reply == (ReplyModel::<
                    P,
                >::UnsubAck {
                    connection,
                    pkid: request.pkid,
                    codes: seq![UnsubAckReason::Success],
                    reason: None,
                }),
                UnsubscribeEvent::Begin => false,
            }
        }),
{
    let step = |state: UnsubscribeState, event: UnsubscribeEvent<P>|
        unsubscribe_step(service, request, state, event);
    let n = events.len() as int;
    lemma_unsubscribe_run(service, request, events);
    machine::lemma_run_prefix(step, UnsubscribeState::Start, events, n - 1);
    lemma_unsubscribe_run(service, request, events.take(n - 1));
}

/// The model of an action is the action.
pub proof fn law_unsubscribe_action_model(action: UnsubscribeAction)
    ensures
        action.model() == action,
{
}

} // verus!
