//! The DISCONNECT packet.

use vstd::prelude::*;

use crate::broker::service::MqttService;
use crate::broker::types::{
    DisconnectReasonCode, MqttConnection, MqttReply, MqttSession, ReplyModel,
};
use crate::machine;
use crate::machine::{History, Modeled, Progress, Step};

verus! {

/// What the handler reads of a DISCONNECT packet and of the connection it came on.
#[derive(Debug, Clone, Copy, PartialEq, Eq, Structural)]
pub struct DisconnectRequest {
    pub connect_id: u64,
    pub reason_code: Option<DisconnectReasonCode>,
    /// Whether the packet carries properties.
    pub has_properties: bool,
}

/// What the handler asks for.
#[derive(Debug, PartialEq, Eq)]
pub enum DisconnectAction {
    LookUpConnection { connect_id: u64 },
    LookUpSession { client_id: String },
    ReportDisconnected {
        session: MqttSession,
        connection: MqttConnection,
        connect_id: u64,
        reason_code: Option<DisconnectReasonCode>,
    },
    /// Tell from the packet's user properties whether the session is to be deleted.
    ReadDeleteSession,
    /// Drop the connection, and its session too if `delete_session` is set.
    DropConnection { client_id: String, connect_id: u64, delete_session: bool },
}

impl Modeled for DisconnectAction {
    type Model = DisconnectAction;

    open spec fn model(&self) -> DisconnectAction {
        *self
    }
}

/// What an action brings.
#[derive(Debug, PartialEq, Eq)]
pub enum DisconnectEvent {
    Begin,
    Connection(Option<MqttConnection>),
    Session(Option<MqttSession>),
    DeleteSession(bool),
    Dropped(Result<(), String>),
    Done,
}

/// What the handler waits for.
#[derive(Debug, PartialEq, Eq)]
pub enum DisconnectState {
    Start,
    LookingUp,
    LookingUpSession { connection: MqttConnection },
    Reporting { connection: MqttConnection },
    ReadingDeleteSession { connection: MqttConnection },
    Dropping,
}

/// Whether an event is of the kind that an action brings.
pub open spec fn disconnect_answers(action: DisconnectAction, event: DisconnectEvent) -> bool {
    match action {
        DisconnectAction::LookUpConnection { .. } => event is Connection,
        DisconnectAction::LookUpSession { .. } => event is Session,
        DisconnectAction::ReportDisconnected { .. } => event is Done,
        DisconnectAction::ReadDeleteSession => event is DeleteSession,
        DisconnectAction::DropConnection { .. } => event is Dropped,
    }
}

/// What the handler asks for once the disconnection is reported, or need not be:
/// a packet without properties cannot ask for the session to be deleted.
pub open spec fn disconnect_after_report(
    request: DisconnectRequest,
    connection: MqttConnection,
) -> (DisconnectState, DisconnectAction) {
    if request.has_properties {
        (DisconnectState::ReadingDeleteSession { connection }, DisconnectAction::ReadDeleteSession)
    } else {
        (DisconnectState::Dropping, disconnect_drop(request, connection, false))
    }
}

/// The request to drop a connection.
pub open spec fn disconnect_drop(
    request: DisconnectRequest,
    connection: MqttConnection,
    delete_session: bool,
) -> DisconnectAction {
    DisconnectAction::DropConnection {
        client_id: connection.client_id,
        connect_id: request.connect_id,
        delete_session,
    }
}

/// The state after an event, and what is asked there; `None` if the event does
/// not fit, or ends the request.
pub open spec fn disconnect_next(
    request: DisconnectRequest,
    state: DisconnectState,
    event: DisconnectEvent,
) -> Option<(DisconnectState, DisconnectAction)> {
    match (state, event) {
        (DisconnectState::Start, DisconnectEvent::Begin) => Some(
            (
                DisconnectState::LookingUp,
                DisconnectAction::LookUpConnection { connect_id: request.connect_id },
            ),
        ),
        (DisconnectState::LookingUp, DisconnectEvent::Connection(Some(connection))) => Some(
            (
                DisconnectState::LookingUpSession { connection },
                DisconnectAction::LookUpSession { client_id: connection.client_id },
            ),
        ),
        (
            DisconnectState::LookingUpSession { connection },
            DisconnectEvent::Session(Some(session)),
        ) => Some(
            (
                DisconnectState::Reporting { connection },
                DisconnectAction::ReportDisconnected {
                    session,
                    connection,
                    connect_id: request.connect_id,
                    reason_code: request.reason_code,
                },
            ),
        ),
        (DisconnectState::LookingUpSession { connection }, DisconnectEvent::Session(None)) => Some(
            disconnect_after_report(request, connection),
        ),
        (DisconnectState::Reporting { connection }, DisconnectEvent::Done) => Some(
            disconnect_after_report(request, connection),
        ),
        (
            DisconnectState::ReadingDeleteSession { connection },
            DisconnectEvent::DeleteSession(delete_session),
        ) => Some(
            (
                DisconnectState::Dropping,
                disconnect_drop(request, connection, delete_session),
            ),
        ),
        _ => None,
    }
}

/// Whether an event ends the request: the connection is not known, or has been
/// given up, with or without success.
pub open spec fn disconnect_ends(state: DisconnectState, event: DisconnectEvent) -> bool {
    match state {
        DisconnectState::LookingUp => event matches DisconnectEvent::Connection(None),
        DisconnectState::Dropping => event is Dropped,
        _ => false,
    }
}

/// One step of the handler. The request is never replied to.
pub open spec fn disconnect_step<P>(
    request: DisconnectRequest,
    state: DisconnectState,
    event: DisconnectEvent,
) -> Step<DisconnectState, DisconnectAction, Option<ReplyModel<P>>> {
    if disconnect_ends(state, event) {
        Step::Answer(None)
    } else {
        match disconnect_next(request, state, event) {
            Some((next, action)) => Step::Ask(next, action),
            None => Step::Mismatch,
        }
    }
}

/// What the handler asks for once the disconnection is reported, or need not be.
fn after_report(request: &DisconnectRequest, connection: MqttConnection) -> (r: (
    DisconnectState,
    DisconnectAction,
))
    ensures
        r == disconnect_after_report(*request, connection),
{
    if request.has_properties {
        (DisconnectState::ReadingDeleteSession { connection }, DisconnectAction::ReadDeleteSession)
    } else {
        (
            DisconnectState::Dropping,
            DisconnectAction::DropConnection {
                client_id: connection.client_id,
                connect_id: request.connect_id,
                delete_session: false,
            },
        )
    }
}

impl MqttService {
    /// One step in the handling of a DISCONNECT packet.
    pub fn disconnect<P>(
        &self,
        request: &DisconnectRequest,
        state: DisconnectState,
        event: DisconnectEvent,
    ) -> (r: Step<DisconnectState, DisconnectAction, Option<MqttReply<P>>>)
        ensures
            r.model() == disconnect_step::<P>(*request, state, event),
    {
        match (state, event) {
            (DisconnectState::Start, DisconnectEvent::Begin) => Step::Ask(
                DisconnectState::LookingUp,
                DisconnectAction::LookUpConnection { connect_id: request.connect_id },
            ),
            (DisconnectState::LookingUp, DisconnectEvent::Connection(found)) => match found {
                Some(connection) => {
                    let action = DisconnectAction::LookUpSession {
                        client_id: connection.client_id.clone(),
                    };
                    Step::Ask(DisconnectState::LookingUpSession { connection }, action)
                },
                None => Step::Answer(None),
            },
            (DisconnectState::LookingUpSession { connection }, DisconnectEvent::Session(found)) =>
            match found {
                Some(session) => {
                    let action = DisconnectAction::ReportDisconnected {
                        session,
                        connection: connection.clone(),
                        connect_id: request.connect_id,
                        reason_code: request.reason_code,
                    };
                    Step::Ask(DisconnectState::Reporting { connection }, action)
                },
                None => {
                    let (next, action) = after_report(request, connection);
                    Step::Ask(next, action)
                },
            },
            (DisconnectState::Reporting { connection }, DisconnectEvent::Done) => {
                let (next, action) = after_report(request, connection);
                Step::Ask(next, action)
            },
            (
                DisconnectState::ReadingDeleteSession { connection },
                DisconnectEvent::DeleteSession(delete_session),
            ) => Step::Ask(
                DisconnectState::Dropping,
                DisconnectAction::DropConnection {
                    client_id: connection.client_id,
                    connect_id: request.connect_id,
                    delete_session,
                },
            ),
            (DisconnectState::Dropping, DisconnectEvent::Dropped(_)) => Step::Answer(None),
            _ => Step::Mismatch,
        }
    }
}

/// The run of the handler over a sequence of events.
pub open spec fn disconnect_run<P>(
    request: DisconnectRequest,
    events: Seq<DisconnectEvent>,
) -> Option<History<DisconnectState, DisconnectAction, Option<ReplyModel<P>>>> {
    machine::run(
        |state: DisconnectState, event: DisconnectEvent|
            disconnect_step::<P>(request, state, event),
        DisconnectState::Start,
        events,
    )
}

/// Everything that is asked for a known connection, in order: the report comes
/// only if there is a session, the look at the properties only if there are any.
pub open spec fn disconnect_plan(
    request: DisconnectRequest,
    connection: MqttConnection,
    session: Option<MqttSession>,
    delete_session: bool,
) -> Seq<DisconnectAction> {
    let look_ups = seq![
        DisconnectAction::LookUpConnection { connect_id: request.connect_id },
        DisconnectAction::LookUpSession { client_id: connection.client_id },
    ];
    let report = match session {
        Some(found) => seq![
            DisconnectAction::ReportDisconnected {
                session: found,
                connection,
                connect_id: request.connect_id,
                reason_code: request.reason_code,
            },
        ],
        None => Seq::empty(),
    };
    let read = if request.has_properties {
        seq![DisconnectAction::ReadDeleteSession]
    } else {
        Seq::empty()
    };
    look_ups + report + read + seq![disconnect_drop(request, connection, delete_session)]
}

/// The connection that the packet came on.
pub open spec fn disconnect_sender(events: Seq<DisconnectEvent>) -> MqttConnection {
    events[1]->Connection_0->0
}

/// The session of the sender, if there is one.
pub open spec fn disconnect_session(events: Seq<DisconnectEvent>) -> Option<MqttSession> {
    events[2]->Session_0
}

/// Whether the session is to be deleted: as the properties say, and not without them.
pub open spec fn disconnect_deletes(
    request: DisconnectRequest,
    events: Seq<DisconnectEvent>,
) -> bool {
    request.has_properties && events[events.len() - 2]->DeleteSession_0
}

/// What the history of a handler that is done looks like.
pub open spec fn disconnect_finished(
    request: DisconnectRequest,
    events: Seq<DisconnectEvent>,
    actions: Seq<DisconnectAction>,
) -> bool {
    if events[1] matches DisconnectEvent::Connection(None) {
        &&& events.len() == 2
        &&& actions =~= seq![DisconnectAction::LookUpConnection { connect_id: request.connect_id }]
    } else {
        &&& events.last() is Dropped
        &&& actions =~= disconnect_plan(
            request,
            disconnect_sender(events),
            disconnect_session(events),
            disconnect_deletes(request, events),
        )
    }
}

spec fn disconnect_inv<P>(
    request: DisconnectRequest,
    events: Seq<DisconnectEvent>,
    actions: Seq<DisconnectAction>,
    progress: Progress<DisconnectState, Option<ReplyModel<P>>>,
) -> bool {
    let n = events.len() as int;
    let sender = disconnect_sender(events);
    let session = disconnect_session(events);
    let deletes = request.has_properties && events.last()->DeleteSession_0;
    let plan = disconnect_plan(request, sender, session, deletes);
    match progress {
        Progress::Waiting(state) => {
            &&& actions.len() == n
            &&& n > 1 ==> !(events[1] matches DisconnectEvent::Connection(None))
            &&& match state {
                DisconnectState::Start => n == 0,
                DisconnectState::LookingUp => n == 1 && actions =~= plan.take(1),
                DisconnectState::LookingUpSession { connection } => {
                    &&& n == 2
                    &&& connection == sender
                    &&& actions =~= plan.take(2)
                },
                DisconnectState::Reporting { connection } => {
                    &&& n == 3
                    &&& connection == sender
                    &&& session is Some
                    &&& actions =~= plan.take(3)
                },
                DisconnectState::ReadingDeleteSession { connection } => {
                    &&& n == if session is Some { 4int } else { 3int }
                    &&& connection == sender
                    &&& request.has_properties
                    &&& actions =~= plan.take(n)
                },
                DisconnectState::Dropping => n >= 3 && actions =~= plan,
            }
        },
        Progress::Answered(reply) => {
            &&& n >= 2
            &&& reply is None
            &&& disconnect_finished(request, events, actions)
        },
    }
}

proof fn lemma_disconnect_run<P>(request: DisconnectRequest, events: Seq<DisconnectEvent>)
    ensures
        disconnect_run::<P>(request, events) matches Some(history) ==> disconnect_inv(
            request,
            events,
            history.actions,
            history.progress,
        ),
{
    let step = |state: DisconnectState, event: DisconnectEvent|
        disconnect_step::<P>(request, state, event);
    let inv = |es: Seq<DisconnectEvent>, acts: Seq<DisconnectAction>, progress: Progress<
        DisconnectState,
        Option<ReplyModel<P>>,
    >| disconnect_inv(request, es, acts, progress);
    assert forall|
        es: Seq<DisconnectEvent>,
        acts: Seq<DisconnectAction>,
        s: DisconnectState,
        e: DisconnectEvent,
    | #[trigger] machine::kept_by_step(step, inv, es, acts, s, e) by {
        if es.len() > 1 {
            assert(disconnect_sender(es.push(e)) == disconnect_sender(es));
        }
        if es.len() > 2 {
            assert(disconnect_session(es.push(e)) == disconnect_session(es));
        }
    }
    machine::lemma_run_keeps(step, DisconnectState::Start, events, inv);
}

/// A handler that waits takes exactly the events that answer the last thing it
/// asked for.
pub proof fn law_disconnect_takes_answers<P>(
    request: DisconnectRequest,
    events: Seq<DisconnectEvent>,
    event: DisconnectEvent,
)
    requires
        disconnect_run::<P>(request, events) matches Some(history) && history.progress is Waiting,
    ensures
        ({
            let history = disconnect_run::<P>(request, events)->0;
            disconnect_run::<P>(request, events.push(event)) is Some <==> if events.len() == 0 {
                event is Begin
            } else {
                match history.actions.last() {
                    DisconnectAction::LookUpConnection { .. } => event is Connection,
                    DisconnectAction::LookUpSession { .. } => event is Session,
                    DisconnectAction::ReportDisconnected { .. } => event is Done,
                    DisconnectAction::ReadDeleteSession => event is DeleteSession,
                    DisconnectAction::DropConnection { .. } => event is Dropped,
                }
            }
        }),
        events.len() > 0 ==> (disconnect_run::<P>(request, events.push(event)) is Some <==> disconnect_answers(
            (disconnect_run::<P>(request, events)->0).actions.last(),
            event,
        )),
{
    lemma_disconnect_run::<P>(request, events);
    assert(events.push(event).drop_last() =~= events);
}

/// The handler never replies. For a connection that is not known it does nothing
/// more than look it up; one that is known it drops in any case, after a report
/// if there is a session, and deletes the session only if the properties say so.
pub proof fn law_disconnect_drops<P>(request: DisconnectRequest, events: Seq<DisconnectEvent>)
    requires
        disconnect_run::<P>(request, events) matches Some(history) && history.progress is Answered,
    ensures
        ({
            let history = disconnect_run::<P>(request, events)->0;
            &&& history.progress->Answered_0 is None
            &&& disconnect_finished(request, events, history.actions)
        }),
{
    lemma_disconnect_run::<P>(request, events);
}

/// What is asked, one thing for each event: the sender's session is looked up, its
/// disconnection is reported with the packet's reason if there is a session, the
/// properties are read if there are any, and in the end the sender's connection is
/// dropped. The session goes with it exactly if the properties said so.
pub proof fn law_disconnect_asks<P>(
    request: DisconnectRequest,
    events: Seq<DisconnectEvent>,
    i: int,
)
    requires
        disconnect_run::<P>(request, events) matches Some(history) && 0 <= i
            < history.actions.len(),
    ensures
        ({
            let actions = (disconnect_run::<P>(request, events)->0).actions;
            let connection = events[1]->Connection_0->0;
            let s = if events.len() > 2 && events[2]->Session_0 is Some {
                1int
            } else {
                0int
            };
            let p = if request.has_properties {
                1int
            } else {
                0int
            };
            if i == 0 {
                actions[i] == (DisconnectAction::LookUpConnection {
                    connect_id: request.connect_id,
                })
            } else if i == 1 {
                &&& events[1]->Connection_0 is Some
                &&& actions[i] == (DisconnectAction::LookUpSession {
                    client_id: connection.client_id,
                })
            } else if i == 1 + s {
                actions[i] == (DisconnectAction::ReportDisconnected {
                    session: events[2]->Session_0->0,
                    connection,
                    connect_id: request.connect_id,
                    reason_code: request.reason_code,
                })
            } else if i == 1 + s + p {
                actions[i] is ReadDeleteSession
            } else {
                &&& i == 2 + s + p
                &&& actions[i] matches DisconnectAction::DropConnection {
                    client_id,
                    connect_id,
                    delete_session,
                }
                &&& client_id == connection.client_id
                &&& connect_id == request.connect_id
                &&& delete_session <==> exists|j: int|
                    0 <= j < events.len() && #[trigger] events[j] == DisconnectEvent::DeleteSession(
                        true,
                    )
            }
        }),
{
    let step = |state: DisconnectState, event: DisconnectEvent|
        disconnect_step::<P>(request, state, event);
    let actions = (disconnect_run::<P>(request, events)->0).actions;
    let s = if events.len() > 2 && events[2]->Session_0 is Some {
        1int
    } else {
        0int
    };
    machine::lemma_run_prefix(step, DisconnectState::Start, events, 0);
    machine::lemma_run_prefix(step, DisconnectState::Start, events, i);
    let early = events.take(i + 1);
    lemma_disconnect_run::<P>(request, early);
    assert(forall|j: int| 0 <= j <= i ==> early[j] == events[j]);
    assert(actions.take(i + 1)[i] == actions[i]);
    assert forall|j: int| 0 <= j < events.len() && #[trigger] events[j] is DeleteSession implies j
        == 3 + s && request.has_properties by {
        machine::lemma_run_prefix(step, DisconnectState::Start, events, j);
        lemma_disconnect_run::<P>(request, events.take(j));
        if j > 2 {
            assert(events.take(j)[2] == events[2]);
        }
    }
    if actions[i] is DropConnection && request.has_properties {
        machine::lemma_run_prefix(step, DisconnectState::Start, events, i);
        lemma_disconnect_run::<P>(request, events.take(i));
        if i > 2 {
            assert(events.take(i)[2] == events[2]);
        }
        assert(events[i] is DeleteSession);
    }
}

/// Nobody is told anything; the request ends when the sender is not known, or when
/// its connection has been dropped, with or without success.
pub proof fn law_disconnect_tells<P>(request: DisconnectRequest, events: Seq<DisconnectEvent>)
    requires
        disconnect_run::<P>(request, events) matches Some(history) && history.progress is Answered,
    ensures
        ({
            let history = disconnect_run::<P>(request, events)->0;
            &&& history.progress->Answered_0 is None
            &&& match events.last() {
                DisconnectEvent::Connection(found) => found is None && history.actions.len() == 1,
                DisconnectEvent::Dropped(_) => history.actions.last() is DropConnection,
                _ => false,
            }
        }),
{
    let step = |state: DisconnectState, event: DisconnectEvent|
        disconnect_step::<P>(request, state, event);
    let n = events.len() as int;
    lemma_disconnect_run::<P>(request, events);
    machine::lemma_run_prefix(step, DisconnectState::Start, events, n - 1);
    lemma_disconnect_run::<P>(request, events.take(n - 1));
}

/// The model of an action is the action.
pub proof fn law_disconnect_action_model(action: DisconnectAction)
    ensures
        action.model() == action,
{
}

} // verus!
