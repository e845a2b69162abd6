//! The PINGREQ packet: a sign of life.

use vstd::prelude::*;

use crate::broker::connect;
use crate::broker::connect::{Admission, ConnectEvent, ConnectRequest};
use crate::broker::service::MqttService;
use crate::broker::types;
use crate::broker::types::{
    ConnectionLiveTime, DisconnectReasonCode, MqttConnection, MqttReply, ReplyModel,
};
use crate::machine;
use crate::machine::{History, Modeled, Progress, Step};

verus! {

/// What the handler asks for.
#[derive(Debug, PartialEq, Eq)]
pub enum PingAction {
    LookUpConnection { connect_id: u64 },
    ReadClock,
    ReportHeartbeat { client_id: String, live_time: ConnectionLiveTime },
}

impl Modeled for PingAction {
    type Model = PingAction;

    open spec fn model(&self) -> PingAction {
        *self
    }
}

/// What an action brings.
#[derive(Debug, PartialEq, Eq)]
pub enum PingEvent {
    Begin,
    Connection(Option<MqttConnection>),
    /// Seconds since the epoch.
    Now(u64),
    Done,
}

/// What the handler waits for.
#[derive(Debug, PartialEq, Eq)]
pub enum PingState {
    Start,
    LookingUp,
    ReadingClock { connection: MqttConnection },
    ReportingHeartbeat,
}

/// Everything that the handler asks for if nothing stops it, in order.
pub open spec fn ping_plan(
    service: MqttService,
    connect_id: u64,
    connection: MqttConnection,
    now: u64,
) -> Seq<PingAction> {
    seq![
        PingAction::LookUpConnection { connect_id },
        PingAction::ReadClock,
        PingAction::ReportHeartbeat {
            client_id: connection.client_id,
            live_time: types::live_time_at(service.protocol, connection, now),
        },
    ]
}

/// Whether an event is of the kind that an action brings.
pub open spec fn ping_answers(action: PingAction, event: PingEvent) -> bool {
    match action {
        PingAction::LookUpConnection { .. } => event is Connection,
        PingAction::ReadClock => event is Now,
        PingAction::ReportHeartbeat { .. } => event is Done,
    }
}

/// One step of the handler.
pub open spec fn ping_step<P>(
    service: MqttService,
    connect_id: u64,
    state: PingState,
    event: PingEvent,
) -> Step<PingState, PingAction, ReplyModel<P>> {
    match (state, event) {
        (PingState::Start, PingEvent::Begin) => Step::Ask(
            PingState::LookingUp,
            PingAction::LookUpConnection { connect_id },
        ),
        (PingState::LookingUp, PingEvent::Connection(None)) => Step::Answer(
            ReplyModel::Disconnect {
                protocol: service.protocol,
                reason: Some(DisconnectReasonCode::MaximumConnectTime),
            },
        ),
        (PingState::LookingUp, PingEvent::Connection(Some(connection))) => Step::Ask(
            PingState::ReadingClock { connection },
            PingAction::ReadClock,
        ),
        (PingState::ReadingClock { connection }, PingEvent::Now(now)) => Step::Ask(
            PingState::ReportingHeartbeat,
            PingAction::ReportHeartbeat {
                client_id: connection.client_id,
                live_time: types::live_time_at(service.protocol, connection, now),
            },
        ),
        (PingState::ReportingHeartbeat, PingEvent::Done) => Step::Answer(ReplyModel::PingResp),
        _ => Step::Mismatch,
    }
}

impl MqttService {
    /// One step in the handling of a PINGREQ packet that came on the connection
    /// `connect_id`.
    pub fn ping<P>(&self, connect_id: u64, state: PingState, event: PingEvent) -> (r: Step<
        PingState,
        PingAction,
        MqttReply<P>,
    >)
        ensures
            r.model() == ping_step::<P>(*self, connect_id, state, event),
    {
        match (state, event) {
            (PingState::Start, PingEvent::Begin) => Step::Ask(
                PingState::LookingUp,
                PingAction::LookUpConnection { connect_id },
            ),
            (PingState::LookingUp, PingEvent::Connection(found)) => match found {
                Some(connection) => Step::Ask(
                    PingState::ReadingClock { connection },
                    PingAction::ReadClock,
                ),
                None => Step::Answer(
                    MqttReply::Disconnect {
                        protocol: self.protocol,
                        reason: Some(DisconnectReasonCode::MaximumConnectTime),
                    },
                ),
            },
            (PingState::ReadingClock { connection }, PingEvent::Now(now)) => {
                let live_time = types::live_time(self.protocol, &connection, now);
                Step::Ask(
                    PingState::ReportingHeartbeat,
                    PingAction::ReportHeartbeat { client_id: connection.client_id, live_time },
                )
            },
            (PingState::ReportingHeartbeat, PingEvent::Done) => Step::Answer(MqttReply::PingResp),
            _ => Step::Mismatch,
        }
    }
}

/// The run of the handler over a sequence of events.
pub open spec fn ping_run<P>(
    service: MqttService,
    connect_id: u64,
    events: Seq<PingEvent>,
) -> Option<History<PingState, PingAction, ReplyModel<P>>> {
    machine::run(
        |state: PingState, event: PingEvent| ping_step::<P>(service, connect_id, state, event),
        PingState::Start,
        events,
    )
}

/// The connection that the packet came on.
pub open spec fn ping_sender(events: Seq<PingEvent>) -> MqttConnection {
    events[1]->Connection_0->0
}

/// What the history of a handler that has replied looks like: it followed its
/// plan, or found no connection.
pub open spec fn ping_finished<P>(
    service: MqttService,
    connect_id: u64,
    events: Seq<PingEvent>,
    actions: Seq<PingAction>,
    reply: ReplyModel<P>,
) -> bool {
    let n = events.len() as int;
    &&& n == 2 || n == 4
    &&& actions =~= ping_plan(
        service,
        connect_id,
        ping_sender(events),
        events[2]->Now_0,
    ).take(n - 1)
    &&& if events[1] == PingEvent::Connection(None) {
        n == 2 && reply == (ReplyModel::<P>::Disconnect {
            protocol: service.protocol,
            reason: Some(DisconnectReasonCode::MaximumConnectTime),
        })
    } else {
        n == 4 && reply is PingResp
    }
}

spec fn ping_inv<P>(
    service: MqttService,
    connect_id: u64,
    events: Seq<PingEvent>,
    actions: Seq<PingAction>,
    progress: Progress<PingState, ReplyModel<P>>,
) -> bool {
    let n = events.len() as int;
    match progress {
        Progress::Waiting(state) => {
            &&& n == match state {
                PingState::Start => 0int,
                PingState::LookingUp => 1int,
                PingState::ReadingClock { .. } => 2int,
                PingState::ReportingHeartbeat => 3int,
            }
            &&& actions =~= ping_plan(
                service,
                connect_id,
                ping_sender(events),
                events[2]->Now_0,
            ).take(n)
            &&& n > 1 ==> events[1] is Connection && events[1] != PingEvent::Connection(None)
            &&& (state matches PingState::ReadingClock { connection } ==> connection == ping_sender(
                events,
            ))
        },
        Progress::Answered(reply) => ping_finished(service, connect_id, events, actions, reply),
    }
}

proof fn lemma_ping_run<P>(service: MqttService, connect_id: u64, events: Seq<PingEvent>)
    ensures
        ping_run::<P>(service, connect_id, events) matches Some(history) ==> ping_inv(
            service,
            connect_id,
            events,
            history.actions,
            history.progress,
        ),
{
    let step = |state: PingState, event: PingEvent|
        ping_step::<P>(service, connect_id, state, event);
    let inv = |es: Seq<PingEvent>, acts: Seq<PingAction>, progress: Progress<
        PingState,
        ReplyModel<P>,
    >| ping_inv(service, connect_id, es, acts, progress);
    assert forall|es: Seq<PingEvent>, acts: Seq<PingAction>, s: PingState, e: PingEvent|
        #[trigger] machine::kept_by_step(step, inv, es, acts, s, e) by {
        if es.len() > 1 {
            assert(ping_sender(es.push(e)) == ping_sender(es));
        }
    }
    machine::lemma_run_keeps(step, PingState::Start, events, inv);
}

/// A handler that waits takes exactly the events that answer the last thing it
/// asked for.
pub proof fn law_ping_takes_answers<P>(
    service: MqttService,
    connect_id: u64,
    events: Seq<PingEvent>,
    event: PingEvent,
)
    requires
        ping_run::<P>(service, connect_id, events) matches Some(history) && history.progress
             is Waiting,
    ensures
        ({
            let history = ping_run::<P>(service, connect_id, events)->0;
            ping_run::<P>(service, connect_id, events.push(event)) is Some <==> if events.len()
                == 0 {
                event is Begin
            } else {
                match history.actions.last() {
                    PingAction::LookUpConnection { .. } => event is Connection,
                    PingAction::ReadClock => event is Now,
                    PingAction::ReportHeartbeat { .. } => event is Done,
                }
            }
        }),
        events.len() > 0 ==> (ping_run::<P>(service, connect_id, events.push(event)) is Some <==> ping_answers(
            (ping_run::<P>(service, connect_id, events)->0).actions.last(),
            event,
        )),
{
    lemma_ping_run::<P>(service, connect_id, events);
    assert(events.push(event).drop_last() =~= events);
}

/// A ping on a known connection is answered after its sign of life was
/// reported; a ping on an unknown one is told to disconnect, and nothing is
/// reported.
pub proof fn law_ping_replies<P>(service: MqttService, connect_id: u64, events: Seq<PingEvent>)
    requires
        ping_run::<P>(service, connect_id, events) matches Some(history) && history.progress
             is Answered,
    ensures
        ({
            let history = ping_run::<P>(service, connect_id, events)->0;
            ping_finished(
                service,
                connect_id,
                events,
                history.actions,
                history.progress->Answered_0,
            )
        }),
{
    lemma_ping_run::<P>(service, connect_id, events);
}

/// A ping on the connection with which a client was let in is answered, and
/// repeats the sign of life that was reported when the client was let in, but
/// for the time: the protocol and the keep-alive time are the same, and so is the
/// client identifier if the connection was built with the one that was chosen.
pub proof fn law_ping_repeats_connect<P>(
    service: MqttService,
    request: ConnectRequest,
    connect_events: Seq<ConnectEvent<P>>,
    admission: Admission,
    ping_events: Seq<PingEvent>,
)
    requires
        connect::connect_run(service, request, connect_events) matches Some(history)
            && history.progress matches Progress::Answered(ReplyModel::ConnectSuccess { .. }),
        connect::connect_admits(connect_events, admission),
        ping_run::<P>(service, request.connect_id, ping_events) matches Some(history)
            && history.progress is Answered,
        ping_events[1] == PingEvent::Connection(Some(admission.connection)),
    ensures
        ({
            let connected = connect::connect_run(service, request, connect_events)->0;
            let pinged = ping_run::<P>(service, request.connect_id, ping_events)->0;
            let first = connected.actions[connect_events.len() - 5];
            let again = pinged.actions[2];
            &&& pinged.progress->Answered_0 is PingResp
            &&& first is ReportHeartbeat
            &&& again is ReportHeartbeat
            &&& again->live_time == (ConnectionLiveTime {
                heartbeat: ping_events[2]->Now_0,
                ..first->ReportHeartbeat_live_time
            })
            &&& admission.connection.client_id == admission.client_id ==> again->client_id
                == first->ReportHeartbeat_client_id
        }),
{
    connect::law_connect_replies(service, request, connect_events);
    lemma_ping_run::<P>(service, request.connect_id, ping_events);
    let connected = connect::connect_run(service, request, connect_events)->0;
    let n = connect_events.len() as int;
    assert(connected.actions.subrange(n - 5, n - 1)[0] == connected.actions[n - 5]);
}

/// What is asked, one thing for each event: the clock, and then that a sign of
/// life at the time that it tells is kept for the sender.
pub proof fn law_ping_asks<P>(
    service: MqttService,
    connect_id: u64,
    events: Seq<PingEvent>,
    i: int,
)
    requires
        ping_run::<P>(service, connect_id, events) matches Some(history) && 0 <= i
            < history.actions.len(),
    ensures
        ({
            let actions = (ping_run::<P>(service, connect_id, events)->0).actions;
            if i == 0 {
                actions[i] == (PingAction::LookUpConnection { connect_id })
            } else if i == 1 {
                actions[i] is ReadClock && events[1]->Connection_0 is Some
            } else {
                &&& i == 2
                &&& events[1] matches PingEvent::Connection(Some(connection))
                &&& actions[i] matches PingAction::ReportHeartbeat { client_id, live_time }
                &&& client_id == connection.client_id
                &&& live_time.protocol == service.protocol
                &&& live_time.keep_live == connection.keep_alive % 65536
                &&& events[2] == PingEvent::Now(live_time.heartbeat)
            }
        }),
{
    let step = |state: PingState, event: PingEvent|
        ping_step::<P>(service, connect_id, state, event);
    machine::lemma_run_prefix(step, PingState::Start, events, 0);
    machine::lemma_run_prefix(step, PingState::Start, events, i);
    lemma_ping_run::<P>(service, connect_id, events);
    lemma_ping_run::<P>(service, connect_id, events.take(i));
}

/// What the sender is told, by the event that ends the request: to disconnect if
/// it is not known, and otherwise an answer once its sign of life is kept.
pub proof fn law_ping_tells<P>(service: MqttService, connect_id: u64, events: Seq<PingEvent>)
    requires
        ping_run::<P>(service, connect_id, events) matches Some(history) && history.progress
             is Answered,
    ensures
        ({
            let history = ping_run::<P>(service, connect_id, events)->0;
            let reply = history.progress->Answered_0;
            match events.last() {
                PingEvent::Connection(found) => found is None && reply == (ReplyModel::<
                    P,
                >::Disconnect {
                    protocol: service.protocol,
                    reason: Some(DisconnectReasonCode::MaximumConnectTime),
                }),
                PingEvent::Done => history.actions.len() == 3 && reply is PingResp,
                _ => false,
            }
        }),
{
    let step = |state: PingState, event: PingEvent|
        ping_step::<P>(service, connect_id, state, event);
    let n = events.len() as int;
    lemma_ping_run::<P>(service, connect_id, events);
    machine::lemma_run_prefix(step, PingState::Start, events, n - 1);
    lemma_ping_run::<P>(service, connect_id, events.take(n - 1));
}

/// The model of an action is the action.
pub proof fn law_ping_action_model(action: PingAction)
    ensures
        action.model() == action,
{
}

} // verus!
