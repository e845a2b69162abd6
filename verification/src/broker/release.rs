//! The PUBREL packet: the end of the receipt of a message that arrives exactly
//! once.

use vstd::prelude::*;

use crate::broker::publish;
use crate::broker::publish::{PublishAction, PublishEvent, PublishRequest};
use crate::broker::service::MqttService;
use crate::broker::types::{
    DisconnectReasonCode, MqttConnection, MqttReply, PubCompReason, PubRecReason, ReplyModel,
};
use crate::machine;
use crate::machine::{History, Modeled, Progress, Step};

verus! {

/// What the handler reads of a PUBREL packet and of the connection it came on.
#[derive(Debug, Clone, Copy, PartialEq, Eq, Structural)]
pub struct ReleaseRequest {
    pub connect_id: u64,
    pub pkid: u16,
}

/// What the handler asks for.
#[derive(Debug, PartialEq, Eq)]
pub enum ReleaseAction {
    LookUpConnection { connect_id: u64 },
    FindPkid { client_id: String, pkid: u16 },
    DeletePkid { client_id: String, pkid: u16 },
    /// Count one message less that the connection is receiving.
    DecrementReceiving { connection: MqttConnection },
}

impl Modeled for ReleaseAction {
    type Model = ReleaseAction;

    open spec fn model(&self) -> ReleaseAction {
        *self
    }
}

/// What an action brings.
#[derive(Debug, PartialEq, Eq)]
pub enum ReleaseEvent {
    Begin,
    Connection(Option<MqttConnection>),
    PkidFound(Result<bool, String>),
    PkidDeleted(Result<(), String>),
    Done,
}

/// What the handler waits for.
#[derive(Debug, PartialEq, Eq)]
pub enum ReleaseState {
    Start,
    LookingUp,
    FindingPkid { connection: MqttConnection },
    DeletingPkid { connection: MqttConnection },
    Decrementing { connection: MqttConnection },
    DecrementingAgain { connection: MqttConnection },
}

/// Everything that the handler asks for if nothing stops it, in order: the
/// count of messages being received is lowered twice.
pub open spec fn release_plan(request: ReleaseRequest, connection: MqttConnection) -> Seq<
    ReleaseAction,
> {
    seq![
        ReleaseAction::LookUpConnection { connect_id: request.connect_id },
        ReleaseAction::FindPkid { client_id: connection.client_id, pkid: request.pkid },
        ReleaseAction::DeletePkid { client_id: connection.client_id, pkid: request.pkid },
        ReleaseAction::DecrementReceiving { connection },
        ReleaseAction::DecrementReceiving { connection },
    ]
}

/// Whether an event is of the kind that an action brings.
pub open spec fn release_answers(action: ReleaseAction, event: ReleaseEvent) -> bool {
    match action {
        ReleaseAction::LookUpConnection { .. } => event is Connection,
        ReleaseAction::FindPkid { .. } => event is PkidFound,
        ReleaseAction::DeletePkid { .. } => event is PkidDeleted,
        ReleaseAction::DecrementReceiving { .. } => event is Done,
    }
}

/// How many questions a state has asked.
pub open spec fn release_asked(state: ReleaseState) -> int {
    match state {
        ReleaseState::Start => 0,
        ReleaseState::LookingUp => 1,
        ReleaseState::FindingPkid { .. } => 2,
        ReleaseState::DeletingPkid { .. } => 3,
        ReleaseState::Decrementing { .. } => 4,
        ReleaseState::DecrementingAgain { .. } => 5,
    }
}

/// The connection that a state knows of.
pub open spec fn release_connection(state: ReleaseState) -> Option<MqttConnection> {
    match state {
        ReleaseState::FindingPkid { connection } => Some(connection),
        ReleaseState::DeletingPkid { connection } => Some(connection),
        ReleaseState::Decrementing { connection } => Some(connection),
        ReleaseState::DecrementingAgain { connection } => Some(connection),
        _ => None,
    }
}

/// Whether a state takes an event: it has to answer the last question of the plan.
pub open spec fn release_fits(
    request: ReleaseRequest,
    state: ReleaseState,
    event: ReleaseEvent,
) -> bool {
    let asked = release_asked(state);
    if asked == 0 {
        event is Begin
    } else {
        release_answers(release_plan(request, release_connection(state)->0)[asked - 1], event)
    }
}

/// The reply with which an event ends the request early, if it does.
pub open spec fn release_refusal<P>(
    service: MqttService,
    request: ReleaseRequest,
    connection: MqttConnection,
    event: ReleaseEvent,
) -> Option<ReplyModel<P>> {
    let fail = |reason: Option<String>|
        Some(
            ReplyModel::<P>::PubCompFail {
                protocol: service.protocol,
                connection,
                pkid: request.pkid,
                code: PubCompReason::PacketIdentifierNotFound,
                reason,
            },
        );
    match event {
        ReleaseEvent::Connection(None) => Some(
            ReplyModel::Disconnect {
                protocol: service.protocol,
                reason: Some(DisconnectReasonCode::MaximumConnectTime),
            },
        ),
        ReleaseEvent::PkidFound(Ok(false)) => fail(None),
        ReleaseEvent::PkidFound(Err(e)) => fail(Some(e)),
        ReleaseEvent::PkidDeleted(Err(e)) => fail(Some(e)),
        _ => None,
    }
}

/// The state after an event that fits and ends nothing.
pub open spec fn release_next(state: ReleaseState, event: ReleaseEvent) -> ReleaseState {
    match state {
        ReleaseState::Start => ReleaseState::LookingUp,
        ReleaseState::LookingUp => ReleaseState::FindingPkid { connection: event->Connection_0->0 },
        ReleaseState::FindingPkid { connection } => ReleaseState::DeletingPkid { connection },
        ReleaseState::DeletingPkid { connection } => ReleaseState::Decrementing { connection },
        ReleaseState::Decrementing { connection } => ReleaseState::DecrementingAgain { connection },
        ReleaseState::DecrementingAgain { .. } => state,
    }
}

/// One step of the handler.
pub open spec fn release_step<P>(
    service: MqttService,
    request: ReleaseRequest,
    state: ReleaseState,
    event: ReleaseEvent,
) -> Step<ReleaseState, ReleaseAction, ReplyModel<P>> {
    let refusal = release_refusal::<P>(service, request, release_connection(state)->0, event);
    if !release_fits(request, state, event) {
        Step::Mismatch
    } else if refusal is Some {
        Step::Answer(refusal->0)
    } else if state is DecrementingAgain {
        Step::Answer(
            ReplyModel::PubCompSuccess { protocol: service.protocol, pkid: request.pkid },
        )
    } else {
        let next = release_next(state, event);
        Step::Ask(next, release_plan(request, release_connection(next)->0)[release_asked(next) - 1])
    }
}

impl MqttService {
    fn release_fail<P>(
        &self,
        request: &ReleaseRequest,
        connection: MqttConnection,
        reason: Option<String>,
    ) -> (r: Step<ReleaseState, ReleaseAction, MqttReply<P>>)
        ensures
            r.model() == Step::<ReleaseState, ReleaseAction, ReplyModel<P>>::Answer(
                ReplyModel::PubCompFail {
                    protocol: self.protocol,
                    connection,
                    pkid: request.pkid,
                    code: PubCompReason::PacketIdentifierNotFound,
                    reason,
                },
            ),
    {
        Step::Answer(
            MqttReply::PubCompFail {
                protocol: self.protocol,
                connection,
                pkid: request.pkid,
                code: PubCompReason::PacketIdentifierNotFound,
                reason,
            },
        )
    }

    /// One step in the handling of a PUBREL packet.
    pub fn publish_rel<P>(
        &self,
        request: &ReleaseRequest,
        state: ReleaseState,
        event: ReleaseEvent,
    ) -> (r: Step<ReleaseState, ReleaseAction, MqttReply<P>>)
        ensures
            r.model() == release_step::<P>(*self, *request, state, event),
    {
        match (state, event) {
            (ReleaseState::Start, ReleaseEvent::Begin) => Step::Ask(
                ReleaseState::LookingUp,
                ReleaseAction::LookUpConnection { connect_id: request.connect_id },
            ),
            (ReleaseState::LookingUp, ReleaseEvent::Connection(found)) => match found {
                Some(connection) => {
                    let action = ReleaseAction::FindPkid {
                        client_id: connection.client_id.clone(),
                        pkid: request.pkid,
                    };
                    Step::Ask(ReleaseState::FindingPkid { connection }, action)
                },
                None => Step::Answer(
                    MqttReply::Disconnect {
                        protocol: self.protocol,
                        reason: Some(DisconnectReasonCode::MaximumConnectTime),
                    },
                ),
            },
            (ReleaseState::FindingPkid { connection }, ReleaseEvent::PkidFound(found)) =>
            match found {
                Ok(true) => {
                    let action = ReleaseAction::DeletePkid {
                        client_id: connection.client_id.clone(),
                        pkid: request.pkid,
                    };
                    Step::Ask(ReleaseState::DeletingPkid { connection }, action)
                },
                Ok(false) => self.release_fail(request, connection, None),
                Err(e) => self.release_fail(request, connection, Some(e)),
            },
            (ReleaseState::DeletingPkid { connection }, ReleaseEvent::PkidDeleted(deleted)) =>
            match deleted {
                Ok(_) => {
                    let action = ReleaseAction::DecrementReceiving {
                        connection: connection.clone(),
                    };
                    Step::Ask(ReleaseState::Decrementing { connection }, action)
                },
                Err(e) => self.release_fail(request, connection, Some(e)),
            },
            (ReleaseState::Decrementing { connection }, ReleaseEvent::Done) => {
                let action = ReleaseAction::DecrementReceiving { connection: connection.clone() };
                Step::Ask(ReleaseState::DecrementingAgain { connection }, action)
            },
            (ReleaseState::DecrementingAgain { .. }, ReleaseEvent::Done) => Step::Answer(
                MqttReply::PubCompSuccess { protocol: self.protocol, pkid: request.pkid },
            ),
            _ => Step::Mismatch,
        }
    }
}

/// The run of the handler over a sequence of events.
pub open spec fn release_run<P>(
    service: MqttService,
    request: ReleaseRequest,
    events: Seq<ReleaseEvent>,
) -> Option<History<ReleaseState, ReleaseAction, ReplyModel<P>>> {
    machine::run(
        |state: ReleaseState, event: ReleaseEvent|
            release_step::<P>(service, request, state, event),
        ReleaseState::Start,
        events,
    )
}

/// The connection that the packet came on.
pub open spec fn release_sender(events: Seq<ReleaseEvent>) -> MqttConnection {
    events[1]->Connection_0->0
}

spec fn release_inv<P>(
    service: MqttService,
    request: ReleaseRequest,
    events: Seq<ReleaseEvent>,
    actions: Seq<ReleaseAction>,
    progress: Progress<ReleaseState, ReplyModel<P>>,
) -> bool {
    let n = events.len() as int;
    let sender = release_sender(events);
    match progress {
        Progress::Waiting(state) => {
            &&& n == release_asked(state)
            &&& n > 1 ==> release_connection(state) == Some(sender)
            &&& actions =~= release_plan(request, sender).take(n)
            &&& forall|i: int| 0 < i < n ==> release_answers(actions[i - 1], #[trigger] events[i])
            &&& forall|i: int|
                0 <= i < n ==> release_refusal::<P>(
                    service,
                    request,
                    sender,
                    #[trigger] events[i],
                ) is None
        },
        Progress::Answered(reply) => release_finished(service, request, events, actions, reply),
    }
}

/// What the history of a handler that has replied looks like: it followed its
/// plan up to the event that ended it.
pub open spec fn release_finished<P>(
    service: MqttService,
    request: ReleaseRequest,
    events: Seq<ReleaseEvent>,
    actions: Seq<ReleaseAction>,
    reply: ReplyModel<P>,
) -> bool {
    let n = events.len() as int;
    let sender = release_sender(events);
    &&& 2 <= n <= 6
    &&& actions =~= release_plan(request, sender).take(n - 1)
    &&& forall|i: int| 0 < i < n ==> release_answers(actions[i - 1], #[trigger] events[i])
    &&& forall|i: int|
        0 <= i < n - 1 ==> release_refusal::<P>(
            service,
            request,
            sender,
            #[trigger] events[i],
        ) is None
    &&& match release_refusal::<P>(service, request, sender, events.last()) {
        Some(refusal) => n <= 4 && reply == refusal,
        None => n == 6 && reply == (ReplyModel::<P>::PubCompSuccess {
            protocol: service.protocol,
            pkid: request.pkid,
        }),
    }
}

proof fn lemma_release_run<P>(
    service: MqttService,
    request: ReleaseRequest,
    events: Seq<ReleaseEvent>,
)
    ensures
        release_run::<P>(service, request, events) matches Some(history) ==> release_inv(
            service,
            request,
            events,
            history.actions,
            history.progress,
        ),
{
    let step = |state: ReleaseState, event: ReleaseEvent|
        release_step::<P>(service, request, state, event);
    let inv = |es: Seq<ReleaseEvent>, acts: Seq<ReleaseAction>, progress: Progress<
        ReleaseState,
        ReplyModel<P>,
    >| release_inv(service, request, es, acts, progress);
    assert forall|es: Seq<ReleaseEvent>, acts: Seq<ReleaseAction>, s: ReleaseState, e: ReleaseEvent|
        #[trigger] machine::kept_by_step(step, inv, es, acts, s, e) by {
        if es.len() > 1 {
            assert(release_sender(es.push(e)) == release_sender(es));
        }
    }
    machine::lemma_run_keeps(step, ReleaseState::Start, events, inv);
}

/// A handler that waits takes exactly the events that answer the last thing it
/// asked for.
pub proof fn law_release_takes_answers<P>(
    service: MqttService,
    request: ReleaseRequest,
    events: Seq<ReleaseEvent>,
    event: ReleaseEvent,
)
    requires
        release_run::<P>(service, request, events) matches Some(history) && history.progress
             is Waiting,
    ensures
        ({
            let history = release_run::<P>(service, request, events)->0;
            release_run::<P>(service, request, events.push(event)) is Some <==> if events.len()
                == 0 {
                event is Begin
            } else {
                match history.actions.last() {
                    ReleaseAction::LookUpConnection { .. } => event is Connection,
                    ReleaseAction::FindPkid { .. } => event is PkidFound,
                    ReleaseAction::DeletePkid { .. } => event is PkidDeleted,
                    ReleaseAction::DecrementReceiving { .. } => event is Done,
                }
            }
        }),
{
    lemma_release_run::<P>(service, request, events);
    assert(events.push(event).drop_last() =~= events);
}

/// The handler follows its plan up to the event that ends it. A release of an
/// unknown packet identifier fails, with the error if there was one; a release
/// that succeeds has deleted the packet identifier before, and lowered the
/// count of messages being received.
pub proof fn law_release_replies<P>(
    service: MqttService,
    request: ReleaseRequest,
    events: Seq<ReleaseEvent>,
)
    requires
        release_run::<P>(service, request, events) matches Some(history) && history.progress
             is Answered,
    ensures
        ({
            let history = release_run::<P>(service, request, events)->0;
            release_finished(
                service,
                request,
                events,
                history.actions,
                history.progress->Answered_0,
            )
        }),
{
    lemma_release_run::<P>(service, request, events);
}

/// The count of messages being received is lowered twice if the release
/// succeeds, and not at all if it fails.
pub proof fn law_release_counts<P>(
    service: MqttService,
    request: ReleaseRequest,
    events: Seq<ReleaseEvent>,
)
    requires
        release_run::<P>(service, request, events) matches Some(history) && history.progress
             is Answered,
    ensures
        ({
            let history = release_run::<P>(service, request, events)->0;
            let lowered = history.actions.filter(|a: ReleaseAction| a is DecrementReceiving).len();
            lowered == if history.progress->Answered_0 is PubCompSuccess {
                2int
            } else {
                0int
            }
        }),
{
    lemma_release_run::<P>(service, request, events);
    let history = release_run::<P>(service, request, events)->0;
    let plan = release_plan(request, release_sender(events));
    let lowers = |a: ReleaseAction| a is DecrementReceiving;
    let n = history.actions.len() as int;
    reveal_with_fuel(Seq::filter, 6);
    assert(plan.take(5).drop_last() =~= plan.take(4));
    assert(plan.take(4).drop_last() =~= plan.take(3));
    assert(plan.take(3).drop_last() =~= plan.take(2));
    assert(plan.take(2).drop_last() =~= plan.take(1));
    assert(plan.take(1).drop_last() =~= plan.take(0));
    assert(plan.take(0).filter(lowers).len() == 0);
    assert(plan.take(1).filter(lowers).len() == 0);
    assert(plan.take(2).filter(lowers).len() == 0);
    assert(plan.take(3).filter(lowers).len() == 0);
    assert(plan.take(4).filter(lowers).len() == 1);
    assert(plan.take(5).filter(lowers).len() == 2);
    assert(history.actions == plan.take(n));
}

/// A release that succeeds has found and deleted what the publication of a
/// message that is to arrive exactly once has saved, if it comes from the same
/// client with the same packet identifier.
pub proof fn law_release_ends_publication<P>(
    service: MqttService,
    published: PublishRequest,
    publish_events: Seq<PublishEvent<P>>,
    released: ReleaseRequest,
    release_events: Seq<ReleaseEvent>,
)
    requires
        publish::publish_run(service, published, publish_events) matches Some(history)
            && history.progress matches Progress::Answered(Some(ReplyModel::PubRec { code, .. }))
            && code == PubRecReason::Success,
        release_run::<P>(service, released, release_events) matches Some(history)
            && history.progress matches Progress::Answered(ReplyModel::PubCompSuccess { .. }),
        published.pkid == released.pkid,
        publish::publish_sender(publish_events).client_id == release_sender(
            release_events,
        ).client_id,
    ensures
        ({
            let publication = publish::publish_run(service, published, publish_events)->0;
            let release = release_run::<P>(service, released, release_events)->0;
            publication.actions.last() matches PublishAction::SavePkid { client_id, pkid } && {
                &&& release.actions[1] == ReleaseAction::FindPkid { client_id, pkid }
                &&& release_events[2] == ReleaseEvent::PkidFound(Ok(true))
                &&& release.actions[2] == ReleaseAction::DeletePkid { client_id, pkid }
                &&& release_events[3] matches ReleaseEvent::PkidDeleted(Ok(_))
            }
        }),
{
    publish::law_publish_replies(service, published, publish_events);
    publish::law_publish_acknowledges_the_request(service, published, publish_events);
    lemma_release_run::<P>(service, released, release_events);
    let release = release_run::<P>(service, released, release_events)->0;
    assert(release_answers(release.actions[1], release_events[2]));
    assert(release_answers(release.actions[2], release_events[3]));
}

/// A release of a packet identifier that is not saved, or not any more, as after
/// an earlier release, fails without an error, and deletes and counts nothing.
pub proof fn law_release_fails_when_gone<P>(
    service: MqttService,
    request: ReleaseRequest,
    events: Seq<ReleaseEvent>,
)
    requires
        release_run::<P>(service, request, events) is Some,
        events.len() > 2,
        events[2] == ReleaseEvent::PkidFound(Ok(false)),
    ensures
        ({
            let history = release_run::<P>(service, request, events)->0;
            &&& history.actions == release_plan(request, release_sender(events)).take(2)
            &&& history.progress == Progress::<ReleaseState, ReplyModel<P>>::Answered(
                ReplyModel::PubCompFail {
                    protocol: service.protocol,
                    connection: release_sender(events),
                    pkid: request.pkid,
                    code: PubCompReason::PacketIdentifierNotFound,
                    reason: None,
                },
            )
        }),
{
    lemma_release_run::<P>(service, request, events);
    let refused = release_refusal::<P>(service, request, release_sender(events), events[2]);
    assert(refused is Some);
}

/// What is asked, one thing for each event: the packet identifier is looked for
/// and deleted under the sender's name, and then the count of messages that the
/// sender's connection is receiving is lowered. Nothing is asked after an event
/// that makes the release fail.
pub proof fn law_release_asks<P>(
    service: MqttService,
    request: ReleaseRequest,
    events: Seq<ReleaseEvent>,
    i: int,
)
    requires
        release_run::<P>(service, request, events) matches Some(history) && 0 <= i
            < history.actions.len(),
    ensures
        ({
            let actions = (release_run::<P>(service, request, events)->0).actions;
            let connection = events[1]->Connection_0->0;
            &&& if i == 0 {
                actions[i] == (ReleaseAction::LookUpConnection { connect_id: request.connect_id })
            } else if i == 1 {
                &&& events[i] is Connection
                &&& actions[i] == (ReleaseAction::FindPkid {
                    client_id: connection.client_id,
                    pkid: request.pkid,
                })
            } else if i == 2 {
                &&& events[i] == ReleaseEvent::PkidFound(Ok(true))
                &&& actions[i] == (ReleaseAction::DeletePkid {
                    client_id: connection.client_id,
                    pkid: request.pkid,
                })
            } else {
                &&& i == 3 || i == 4
                &&& actions[i] == (ReleaseAction::DecrementReceiving { connection })
            }
            &&& match events[i] {
                ReleaseEvent::Connection(found) => found is Some,
                ReleaseEvent::PkidDeleted(deleted) => deleted is Ok,
                _ => true,
            }
        }),
{
    let step = |state: ReleaseState, event: ReleaseEvent|
        release_step::<P>(service, request, state, event);
    machine::lemma_run_prefix(step, ReleaseState::Start, events, 0);
    machine::lemma_run_prefix(step, ReleaseState::Start, events, i);
    lemma_release_run::<P>(service, request, events);
    lemma_release_run::<P>(service, request, events.take(i));
    let sender = release_sender(events);
    assert(release_refusal::<P>(service, request, sender, events[i]) is None);
}

/// What the sender is told, by the event that ends the request: to disconnect if
/// it is not known; that the packet identifier was not found, with the error if
/// there was one; or that the release with its identifier is complete.
pub proof fn law_release_tells<P>(
    service: MqttService,
    request: ReleaseRequest,
    events: Seq<ReleaseEvent>,
)
    requires
        release_run::<P>(service, request, events) matches Some(history) && history.progress
             is Answered,
    ensures
        ({
            let history = release_run::<P>(service, request, events)->0;
            let reply = history.progress->Answered_0;
            let failed = |reason: Option<String>|
                reply == (ReplyModel::<P>::PubCompFail {
                    protocol: service.protocol,
                    connection: events[1]->Connection_0->0,
                    pkid: request.pkid,
                    code: PubCompReason::PacketIdentifierNotFound,
                    reason,
                });
            match events.last() {
                ReleaseEvent::Connection(found) => found is None && reply == (ReplyModel::<
                    P,
                >::Disconnect {
                    protocol: service.protocol,
                    reason: Some(DisconnectReasonCode::MaximumConnectTime),
                }),
                ReleaseEvent::PkidFound(Ok(found)) => !found && failed(None),
                ReleaseEvent::PkidFound(Err(e)) => failed(Some(e)),
                ReleaseEvent::PkidDeleted(deleted) => deleted matches Err(e) && failed(Some(e)),
                ReleaseEvent::Done => {
                    &&& history.actions.len() == 5
                    &&& reply == (ReplyModel::<P>::PubCompSuccess {
                        protocol: service.protocol,
                        pkid: request.pkid,
                    })
                },
                ReleaseEvent::Begin => false,
            }
        }),
{
    let step = |state: ReleaseState, event: ReleaseEvent|
        release_step::<P>(service, request, state, event);
    let n = events.len() as int;
    lemma_release_run::<P>(service, request, events);
    machine::lemma_run_prefix(step, ReleaseState::Start, events, n - 1);
    lemma_release_run::<P>(service, request, events.take(n - 1));
    let actions = (release_run::<P>(service, request, events)->0).actions;
    assert(release_answers(actions[n - 2], events[n - 1]));
}

/// The model of an action is the action.
pub proof fn law_release_action_model(action: ReleaseAction)
    ensures
        action.model() == action,
{
}

} // verus!
