//! The PUBACK, PUBREC and PUBCOMP packets: acknowledgements that are passed on
//! to whoever waits for them.

use vstd::prelude::*;

use crate::broker::service::MqttService;
use crate::broker::types::{MqttConnection, MqttReply, ReplyModel};
use crate::machine;
use crate::machine::{History, Modeled, Progress, Step};

verus! {

/// The kind of an acknowledgement.
#[derive(Debug, Clone, Copy, PartialEq, Eq, Structural)]
pub enum QosAckPackageType {
    PubAck,
    PubRec,
    PubComp,
}

/// What is passed on of an acknowledgement.
#[derive(Debug, Clone, Copy, PartialEq, Eq, Structural)]
pub struct QosAckPackageData {
    pub ack_type: QosAckPackageType,
    pub pkid: u16,
}

/// What the handlers read of an acknowledgement and of the connection it came on.
#[derive(Debug, Clone, Copy, PartialEq, Eq, Structural)]
pub struct AckRequest {
    pub connect_id: u64,
    pub pkid: u16,
}

/// What the handlers ask for.
#[derive(Debug, PartialEq, Eq)]
pub enum AckAction {
    LookUpConnection { connect_id: u64 },
    /// Look for someone who waits for an acknowledgement.
    FindWaiting { client_id: String, pkid: u16 },
    /// Pass the acknowledgement on to whoever was found.
    Send(QosAckPackageData),
}

impl Modeled for AckAction {
    type Model = AckAction;

    open spec fn model(&self) -> AckAction {
        *self
    }
}

/// What an action brings.
#[derive(Debug, PartialEq, Eq)]
pub enum AckEvent {
    Begin,
    Connection(Option<MqttConnection>),
    /// Whether someone waits.
    Waiting(bool),
    /// The acknowledgement was passed on, or could not be.
    Done,
}

/// What a handler waits for.
#[derive(Debug, Clone, Copy, PartialEq, Eq, Structural)]
pub enum AckState {
    Start,
    LookingUp,
    FindingWaiting,
    Sending,
}

/// Everything that a handler asks for if nothing stops it, in order.
pub open spec fn ack_plan(
    ack_type: QosAckPackageType,
    request: AckRequest,
    connection: MqttConnection,
) -> Seq<AckAction> {
    seq![
        AckAction::LookUpConnection { connect_id: request.connect_id },
        AckAction::FindWaiting { client_id: connection.client_id, pkid: request.pkid },
        AckAction::Send(QosAckPackageData { ack_type, pkid: request.pkid }),
    ]
}

/// Whether an event is of the kind that an action brings.
pub open spec fn ack_answers(action: AckAction, event: AckEvent) -> bool {
    match action {
        AckAction::LookUpConnection { .. } => event is Connection,
        AckAction::FindWaiting { .. } => event is Waiting,
        AckAction::Send(_) => event is Done,
    }
}

/// Whether an event leaves nobody to pass the acknowledgement on to.
pub open spec fn ack_stops(event: AckEvent) -> bool {
    ||| event matches AckEvent::Connection(None)
    ||| event matches AckEvent::Waiting(false)
}

/// One step of a handler. There is never a reply.
pub open spec fn ack_step<P>(
    ack_type: QosAckPackageType,
    request: AckRequest,
    state: AckState,
    event: AckEvent,
) -> Step<AckState, AckAction, Option<ReplyModel<P>>> {
    match state {
        AckState::Start => if event is Begin {
            Step::Ask(
                AckState::LookingUp,
                AckAction::LookUpConnection { connect_id: request.connect_id },
            )
        } else {
            Step::Mismatch
        },
        AckState::LookingUp => match event {
            AckEvent::Connection(Some(connection)) => Step::Ask(
                AckState::FindingWaiting,
                AckAction::FindWaiting { client_id: connection.client_id, pkid: request.pkid },
            ),
            AckEvent::Connection(None) => Step::Answer(None),
            _ => Step::Mismatch,
        },
        AckState::FindingWaiting => match event {
            AckEvent::Waiting(true) => Step::Ask(
                AckState::Sending,
                AckAction::Send(QosAckPackageData { ack_type, pkid: request.pkid }),
            ),
            AckEvent::Waiting(false) => Step::Answer(None),
            _ => Step::Mismatch,
        },
        AckState::Sending => if event is Done {
            Step::Answer(None)
        } else {
            Step::Mismatch
        },
    }
}

fn pass_on<P>(
    ack_type: QosAckPackageType,
    request: &AckRequest,
    state: AckState,
    event: AckEvent,
) -> (r: Step<AckState, AckAction, Option<MqttReply<P>>>)
    ensures
        r.model() == ack_step::<P>(ack_type, *request, state, event),
{
    match (state, event) {
        (AckState::Start, AckEvent::Begin) => Step::Ask(
            AckState::LookingUp,
            AckAction::LookUpConnection { connect_id: request.connect_id },
        ),
        (AckState::LookingUp, AckEvent::Connection(found)) => match found {
            Some(connection) => Step::Ask(
                AckState::FindingWaiting,
                AckAction::FindWaiting { client_id: connection.client_id, pkid: request.pkid },
            ),
            None => Step::Answer(None),
        },
        (AckState::FindingWaiting, AckEvent::Waiting(waiting)) => if waiting {
            Step::Ask(
                AckState::Sending,
                AckAction::Send(QosAckPackageData { ack_type, pkid: request.pkid }),
            )
        } else {
            Step::Answer(None)
        },
        (AckState::Sending, AckEvent::Done) => Step::Answer(None),
        _ => Step::Mismatch,
    }
}

impl MqttService {
    /// One step in the handling of a PUBACK packet.
    pub fn publish_ack<P>(&self, request: &AckRequest, state: AckState, event: AckEvent) -> (r:
        Step<AckState, AckAction, Option<MqttReply<P>>>)
        ensures
            r.model() == ack_step::<P>(QosAckPackageType::PubAck, *request, state, event),
    {
        pass_on(QosAckPackageType::PubAck, request, state, event)
    }

    /// One step in the handling of a PUBREC packet.
    pub fn publish_rec<P>(&self, request: &AckRequest, state: AckState, event: AckEvent) -> (r:
        Step<AckState, AckAction, Option<MqttReply<P>>>)
        ensures
            r.model() == ack_step::<P>(QosAckPackageType::PubRec, *request, state, event),
    {
        pass_on(QosAckPackageType::PubRec, request, state, event)
    }

    /// One step in the handling of a PUBCOMP packet.
    pub fn publish_comp<P>(&self, request: &AckRequest, state: AckState, event: AckEvent) -> (r:
        Step<AckState, AckAction, Option<MqttReply<P>>>)
        ensures
            r.model() == ack_step::<P>(QosAckPackageType::PubComp, *request, state, event),
    {
        pass_on(QosAckPackageType::PubComp, request, state, event)
    }
}

/// The run of a handler over a sequence of events.
pub open spec fn ack_run<P>(
    ack_type: QosAckPackageType,
    request: AckRequest,
    events: Seq<AckEvent>,
) -> Option<History<AckState, AckAction, Option<ReplyModel<P>>>> {
    machine::run(
        |state: AckState, event: AckEvent| ack_step::<P>(ack_type, request, state, event),
        AckState::Start,
        events,
    )
}

/// The connection that the acknowledgement came on.
pub open spec fn ack_sender(events: Seq<AckEvent>) -> MqttConnection {
    events[1]->Connection_0->0
}

/// What the history of a handler that is done looks like: it followed its plan
/// up to the event that ended it, and replies nothing.
pub open spec fn ack_finished<P>(
    ack_type: QosAckPackageType,
    request: AckRequest,
    events: Seq<AckEvent>,
    actions: Seq<AckAction>,
    reply: Option<ReplyModel<P>>,
) -> bool {
    let n = events.len() as int;
    &&& 2 <= n <= 4
    &&& reply is None
    &&& actions =~= ack_plan(ack_type, request, ack_sender(events)).take(n - 1)
    &&& forall|i: int| 0 <= i < n - 1 ==> !ack_stops(#[trigger] events[i])
    &&& ack_stops(events.last()) <==> n < 4
}

spec fn ack_inv<P>(
    ack_type: QosAckPackageType,
    request: AckRequest,
    events: Seq<AckEvent>,
    actions: Seq<AckAction>,
    progress: Progress<AckState, Option<ReplyModel<P>>>,
) -> bool {
    let n = events.len() as int;
    match progress {
        Progress::Waiting(state) => {
            &&& n == match state {
                AckState::Start => 0int,
                AckState::LookingUp => 1int,
                AckState::FindingWaiting => 2int,
                AckState::Sending => 3int,
            }
            &&& actions =~= ack_plan(ack_type, request, ack_sender(events)).take(n)
            &&& forall|i: int| 0 <= i < n ==> !ack_stops(#[trigger] events[i])
        },
        Progress::Answered(reply) => ack_finished(ack_type, request, events, actions, reply),
    }
}

proof fn lemma_ack_run<P>(
    ack_type: QosAckPackageType,
    request: AckRequest,
    events: Seq<AckEvent>,
)
    ensures
        ack_run::<P>(ack_type, request, events) matches Some(history) ==> ack_inv(
            ack_type,
            request,
            events,
            history.actions,
            history.progress,
        ),
{
    let step = |state: AckState, event: AckEvent| ack_step::<P>(ack_type, request, state, event);
    let inv = |es: Seq<AckEvent>, acts: Seq<AckAction>, progress: Progress<
        AckState,
        Option<ReplyModel<P>>,
    >| ack_inv(ack_type, request, es, acts, progress);
    assert forall|es: Seq<AckEvent>, acts: Seq<AckAction>, s: AckState, e: AckEvent|
        #[trigger] machine::kept_by_step(step, inv, es, acts, s, e) by {
        if es.len() > 1 {
            assert(ack_sender(es.push(e)) == ack_sender(es));
        }
    }
    machine::lemma_run_keeps(step, AckState::Start, events, inv);
}

/// A handler that waits takes exactly the events that answer the last thing it
/// asked for.
pub proof fn law_ack_takes_answers<P>(
    ack_type: QosAckPackageType,
    request: AckRequest,
    events: Seq<AckEvent>,
    event: AckEvent,
)
    requires
        ack_run::<P>(ack_type, request, events) matches Some(history) && history.progress
             is Waiting,
    ensures
        ({
            let history = ack_run::<P>(ack_type, request, events)->0;
            ack_run::<P>(ack_type, request, events.push(event)) is Some <==> if events.len() == 0 {
                event is Begin
            } else {
                match history.actions.last() {
                    AckAction::LookUpConnection { .. } => event is Connection,
                    AckAction::FindWaiting { .. } => event is Waiting,
                    AckAction::Send(_) => event is Done,
                }
            }
        }),
        events.len() > 0 ==> (ack_run::<P>(ack_type, request, events.push(event)) is Some <==> ack_answers(
            (ack_run::<P>(ack_type, request, events)->0).actions.last(),
            event,
        )),
{
    lemma_ack_run::<P>(ack_type, request, events);
    assert(events.push(event).drop_last() =~= events);
}

/// An acknowledgement is never replied to. It is passed on, under its kind and
/// its packet identifier, exactly if its connection is known and someone waits
/// for it.
pub proof fn law_ack_passes_on<P>(
    ack_type: QosAckPackageType,
    request: AckRequest,
    events: Seq<AckEvent>,
)
    requires
        ack_run::<P>(ack_type, request, events) matches Some(history) && history.progress
             is Answered,
    ensures
        ({
            let history = ack_run::<P>(ack_type, request, events)->0;
            let data = QosAckPackageData { ack_type, pkid: request.pkid };
            &&& ack_finished(
                ack_type,
                request,
                events,
                history.actions,
                history.progress->Answered_0,
            )
            &&& history.actions.contains(AckAction::Send(data)) <==> forall|i: int|
                0 <= i < events.len() ==> !ack_stops(#[trigger] events[i])
        }),
{
    lemma_ack_run::<P>(ack_type, request, events);
    let history = ack_run::<P>(ack_type, request, events)->0;
    let last = events[events.len() - 1];
    if history.actions.len() == 3 {
        assert(history.actions[2] is Send);
    }
}

/// What is asked, one thing for each event: who waits for an acknowledgement from
/// the sender under the packet's identifier, and then that the acknowledgement is
/// passed on under its own kind and identifier. Nothing is asked of an unknown
/// sender, or when nobody waits.
pub proof fn law_ack_asks<P>(
    ack_type: QosAckPackageType,
    request: AckRequest,
    events: Seq<AckEvent>,
    i: int,
)
    requires
        ack_run::<P>(ack_type, request, events) matches Some(history) && 0 <= i
            < history.actions.len(),
    ensures
        ({
            let actions = (ack_run::<P>(ack_type, request, events)->0).actions;
            &&& if i == 0 {
                actions[i] == (AckAction::LookUpConnection { connect_id: request.connect_id })
            } else if i == 1 {
                events[1] matches AckEvent::Connection(Some(connection)) && actions[i] == (
                AckAction::FindWaiting { client_id: connection.client_id, pkid: request.pkid })
            } else {
                &&& i == 2
                &&& events[2] == AckEvent::Waiting(true)
                &&& actions[i] matches AckAction::Send(data)
                &&& data.ack_type == ack_type
                &&& data.pkid == request.pkid
            }
        }),
{
    let step = |state: AckState, event: AckEvent| ack_step::<P>(ack_type, request, state, event);
    machine::lemma_run_prefix(step, AckState::Start, events, 0);
    machine::lemma_run_prefix(step, AckState::Start, events, i);
    lemma_ack_run::<P>(ack_type, request, events);
    lemma_ack_run::<P>(ack_type, request, events.take(i));
}

/// No acknowledgement is replied to; its handling ends when the sender is not
/// known, when nobody waits, or when it was passed on.
pub proof fn law_ack_tells<P>(
    ack_type: QosAckPackageType,
    request: AckRequest,
    events: Seq<AckEvent>,
)
    requires
        ack_run::<P>(ack_type, request, events) matches Some(history) && history.progress
             is Answered,
    ensures
        ({
            let history = ack_run::<P>(ack_type, request, events)->0;
            &&& history.progress->Answered_0 is None
            &&& match events.last() {
                AckEvent::Connection(found) => found is None && history.actions.len() == 1,
                AckEvent::Waiting(waiting) => !waiting && history.actions.len() == 2,
                AckEvent::Done => history.actions.len() == 3,
                AckEvent::Begin => false,
            }
        }),
{
    let step = |state: AckState, event: AckEvent| ack_step::<P>(ack_type, request, state, event);
    let n = events.len() as int;
    lemma_ack_run::<P>(ack_type, request, events);
    machine::lemma_run_prefix(step, AckState::Start, events, n - 1);
    lemma_ack_run::<P>(ack_type, request, events.take(n - 1));
}

/// The model of an action is the action.
pub proof fn law_ack_action_model(action: AckAction)
    ensures
        action.model() == action,
{
}

} // verus!
