//! The CONNECT packet: the checks that admit a client, its session, and the
//! registration of its connection.

use vstd::prelude::*;

use crate::broker::service::MqttService;
use crate::broker::types;
use crate::broker::types::{
    ConnectReturnCode, ConnectionLiveTime, MqttConnection, MqttProtocol, MqttReply, MqttSession,
    ReplyModel,
};
use crate::machine;
use crate::machine::{History, Modeled, Progress, Step};

verus! {

/// What the handler reads of a CONNECT packet and of the connection it came on.
#[derive(Debug, PartialEq, Eq)]
pub struct ConnectRequest {
    pub connect_id: u64,
    /// The client identifier as the packet gives it; it may be empty.
    pub client_id: String,
}

/// A client that has a name and a connection.
#[derive(Debug, PartialEq, Eq)]
pub struct Admission {
    pub client_id: String,
    pub new_client_id: bool,
    pub connection: MqttConnection,
}

/// The session of a client.
#[derive(Debug, Clone, Copy, PartialEq, Eq, Structural)]
pub struct Opening {
    pub session: MqttSession,
    pub new_session: bool,
}

/// What the handler asks for. The packet itself, its properties and its last
/// will go along with each of these unchanged.
#[derive(Debug, PartialEq, Eq)]
pub enum ConnectAction {
    ReadCluster,
    Validate { protocol: MqttProtocol },
    ChooseClientId { client_id: String },
    BuildConnection { connect_id: u64, client_id: String },
    CheckBan { connection: MqttConnection },
    CheckLogin,
    DetectFlapping { client_id: String },
    BuildSession { connect_id: u64, client_id: String },
    SaveSession { connect_id: u64, session: MqttSession, new_session: bool, client_id: String },
    SaveLastWill { client_id: String },
    AutoSubscribe { client_id: String, protocol: MqttProtocol },
    ReadClock,
    ReportHeartbeat { client_id: String, live_time: ConnectionLiveTime },
    AddSession { client_id: String, session: MqttSession },
    AddConnection { connect_id: u64, connection: MqttConnection },
    ReportConnected { session: MqttSession, connection: MqttConnection, connect_id: u64 },
}

impl Modeled for ConnectAction {
    type Model = ConnectAction;

    open spec fn model(&self) -> ConnectAction {
        *self
    }
}

/// What an action brings.
#[derive(Debug, PartialEq, Eq)]
pub enum ConnectEvent<P> {
    Begin,
    /// Whether the cluster detects clients that connect too often.
    Cluster { flapping_detect: bool },
    /// The packet with which the validator rejects the request, if it does.
    Validated(Option<P>),
    ClientId { client_id: String, new_client_id: bool },
    Connection(MqttConnection),
    Banned(bool),
    Login(Result<bool, String>),
    Session(Result<Opening, String>),
    SessionSaved(Result<(), String>),
    LastWillSaved(Result<(), String>),
    AutoSubscribed(Result<(), String>),
    /// Seconds since the epoch.
    Now(u64),
    Done,
}

/// What the handler waits for.
#[derive(Debug, PartialEq, Eq)]
pub enum ConnectState {
    Start,
    ReadingCluster,
    Validating { flapping: bool },
    ChoosingClientId { flapping: bool },
    BuildingConnection { flapping: bool, client_id: String, new_client_id: bool },
    CheckingBan { flapping: bool, admission: Admission },
    CheckingLogin { flapping: bool, admission: Admission },
    DetectingFlapping { admission: Admission },
    BuildingSession { admission: Admission },
    SavingSession { admission: Admission, opening: Opening },
    SavingLastWill { admission: Admission, opening: Opening },
    AutoSubscribing { admission: Admission, opening: Opening },
    ReadingClock { admission: Admission, opening: Opening },
    ReportingHeartbeat { admission: Admission, opening: Opening, now: u64 },
    AddingSession { admission: Admission, opening: Opening },
    AddingConnection { admission: Admission, opening: Opening },
    ReportingConnected { admission: Admission, opening: Opening },
}

/// The action whose outcome a state waits for; none at the start.
pub open spec fn connect_question(
    service: MqttService,
    request: ConnectRequest,
    state: ConnectState,
) -> Option<ConnectAction> {
    match state {
        ConnectState::Start => None,
        ConnectState::ReadingCluster => Some(ConnectAction::ReadCluster),
        ConnectState::Validating { .. } => Some(
            ConnectAction::Validate { protocol: service.protocol },
        ),
        ConnectState::ChoosingClientId { .. } => Some(
            ConnectAction::ChooseClientId { client_id: request.client_id },
        ),
        ConnectState::BuildingConnection { client_id, .. } => Some(
            ConnectAction::BuildConnection { connect_id: request.connect_id, client_id },
        ),
        ConnectState::CheckingBan { admission, .. } => Some(
            ConnectAction::CheckBan { connection: admission.connection },
        ),
        ConnectState::CheckingLogin { .. } => Some(ConnectAction::CheckLogin),
        ConnectState::DetectingFlapping { .. } => Some(
            ConnectAction::DetectFlapping { client_id: request.client_id },
        ),
        ConnectState::BuildingSession { admission } => Some(
            ConnectAction::BuildSession {
                connect_id: request.connect_id,
                client_id: admission.client_id,
            },
        ),
        ConnectState::SavingSession { admission, opening } => Some(
            ConnectAction::SaveSession {
                connect_id: request.connect_id,
                session: opening.session,
                new_session: opening.new_session,
                client_id: admission.client_id,
            },
        ),
        ConnectState::SavingLastWill { admission, .. } => Some(
            ConnectAction::SaveLastWill { client_id: admission.client_id },
        ),
        ConnectState::AutoSubscribing { admission, .. } => Some(
            ConnectAction::AutoSubscribe {
                client_id: admission.client_id,
                protocol: service.protocol,
            },
        ),
        ConnectState::ReadingClock { .. } => Some(ConnectAction::ReadClock),
        ConnectState::ReportingHeartbeat { admission, now, .. } => Some(
            ConnectAction::ReportHeartbeat {
                client_id: admission.client_id,
                live_time: types::live_time_at(service.protocol, admission.connection, now),
            },
        ),
        ConnectState::AddingSession { admission, opening } => Some(
            ConnectAction::AddSession { client_id: admission.client_id, session: opening.session },
        ),
        ConnectState::AddingConnection { admission, .. } => Some(
            ConnectAction::AddConnection {
                connect_id: request.connect_id,
                connection: admission.connection,
            },
        ),
        ConnectState::ReportingConnected { admission, opening } => Some(
            ConnectAction::ReportConnected {
                session: opening.session,
                connection: admission.connection,
                connect_id: request.connect_id,
            },
        ),
    }
}

/// Whether an event is of the kind that an action brings.
pub open spec fn connect_answers<P>(action: ConnectAction, event: ConnectEvent<P>) -> bool {
    match action {
        ConnectAction::ReadCluster => event is Cluster,
        ConnectAction::Validate { .. } => event is Validated,
        ConnectAction::ChooseClientId { .. } => event is ClientId,
        ConnectAction::BuildConnection { .. } => event is Connection,
        ConnectAction::CheckBan { .. } => event is Banned,
        ConnectAction::CheckLogin => event is Login,
        ConnectAction::BuildSession { .. } => event is Session,
        ConnectAction::SaveSession { .. } => event is SessionSaved,
        ConnectAction::SaveLastWill { .. } => event is LastWillSaved,
        ConnectAction::AutoSubscribe { .. } => event is AutoSubscribed,
        ConnectAction::ReadClock => event is Now,
        ConnectAction::DetectFlapping { .. } => event is Done,
        ConnectAction::ReportHeartbeat { .. } => event is Done,
        ConnectAction::AddSession { .. } => event is Done,
        ConnectAction::AddConnection { .. } => event is Done,
        ConnectAction::ReportConnected { .. } => event is Done,
    }
}

/// The reply with which an event turns the client away, if it does.
pub open spec fn connect_refusal<P>(service: MqttService, event: ConnectEvent<P>) -> Option<
    ReplyModel<P>,
> {
    let fail = |code: ConnectReturnCode, reason: Option<String>|
        Some(ReplyModel::<P>::ConnectFail { protocol: service.protocol, code, reason });
    match event {
        ConnectEvent::Validated(Some(packet)) => Some(ReplyModel::Ready(packet)),
        ConnectEvent::Banned(true) => fail(ConnectReturnCode::Banned, None),
        ConnectEvent::Login(Ok(false)) => fail(ConnectReturnCode::NotAuthorized, None),
        ConnectEvent::Login(Err(e)) => fail(ConnectReturnCode::UnspecifiedError, Some(e)),
        ConnectEvent::Session(Err(e)) => fail(ConnectReturnCode::MalformedPacket, Some(e)),
        ConnectEvent::SessionSaved(Err(e)) => fail(ConnectReturnCode::MalformedPacket, Some(e)),
        ConnectEvent::LastWillSaved(Err(e)) => fail(ConnectReturnCode::UnspecifiedError, Some(e)),
        ConnectEvent::AutoSubscribed(Err(e)) => fail(ConnectReturnCode::UnspecifiedError, Some(e)),
        _ => None,
    }
}

/// The reply to a client that was let in. The session expiry is told in
/// thirty-two bits; its higher bits are lost.
pub open spec fn connect_welcome<P>(
    service: MqttService,
    admission: Admission,
    opening: Opening,
) -> ReplyModel<P> {
    ReplyModel::ConnectSuccess {
        protocol: service.protocol,
        client_id: admission.client_id,
        new_client_id: admission.new_client_id,
        session_expiry: (opening.session.session_expiry % 0x1_0000_0000) as u32,
        new_session: opening.new_session,
        keep_alive: admission.connection.keep_alive,
    }
}

/// The state after an event that fits and turns nobody away.
pub open spec fn connect_next<P>(state: ConnectState, event: ConnectEvent<P>) -> ConnectState {
    match state {
        ConnectState::Start => ConnectState::ReadingCluster,
        ConnectState::ReadingCluster => ConnectState::Validating {
            flapping: event->flapping_detect,
        },
        ConnectState::Validating { flapping } => ConnectState::ChoosingClientId { flapping },
        ConnectState::ChoosingClientId { flapping } => ConnectState::BuildingConnection {
            flapping,
            client_id: event->client_id,
            new_client_id: event->new_client_id,
        },
        ConnectState::BuildingConnection { flapping, client_id, new_client_id } =>
        ConnectState::CheckingBan {
            flapping,
            admission: Admission { client_id, new_client_id, connection: event->Connection_0 },
        },
        ConnectState::CheckingBan { flapping, admission } => ConnectState::CheckingLogin {
            flapping,
            admission,
        },
        ConnectState::CheckingLogin { flapping, admission } => if flapping {
            ConnectState::DetectingFlapping { admission }
        } else {
            ConnectState::BuildingSession { admission }
        },
        ConnectState::DetectingFlapping { admission } => ConnectState::BuildingSession {
            admission,
        },
        ConnectState::BuildingSession { admission } => ConnectState::SavingSession {
            admission,
            opening: event->Session_0->Ok_0,
        },
        ConnectState::SavingSession { admission, opening } => ConnectState::SavingLastWill {
            admission,
            opening,
        },
        ConnectState::SavingLastWill { admission, opening } => ConnectState::AutoSubscribing {
            admission,
            opening,
        },
        ConnectState::AutoSubscribing { admission, opening } => ConnectState::ReadingClock {
            admission,
            opening,
        },
        ConnectState::ReadingClock { admission, opening } => ConnectState::ReportingHeartbeat {
            admission,
            opening,
            now: event->Now_0,
        },
        ConnectState::ReportingHeartbeat { admission, opening, .. } =>
        ConnectState::AddingSession { admission, opening },
        ConnectState::AddingSession { admission, opening } => ConnectState::AddingConnection {
            admission,
            opening,
        },
        ConnectState::AddingConnection { admission, opening } =>
        ConnectState::ReportingConnected { admission, opening },
        ConnectState::ReportingConnected { .. } => state,
    }
}

/// Whether a state takes an event.
pub open spec fn connect_fits<P>(
    service: MqttService,
    request: ConnectRequest,
    state: ConnectState,
    event: ConnectEvent<P>,
) -> bool {
    match connect_question(service, request, state) {
        Some(action) => connect_answers(action, event),
        None => event is Begin,
    }
}

/// One step of the handler: an event that fits either turns the client away, or
/// ends the registration, or leads on to the next question.
pub open spec fn connect_step<P>(
    service: MqttService,
    request: ConnectRequest,
    state: ConnectState,
    event: ConnectEvent<P>,
) -> Step<ConnectState, ConnectAction, ReplyModel<P>> {
    if !connect_fits(service, request, state, event) {
        Step::Mismatch
    } else if connect_refusal(service, event) is Some {
        Step::Answer(connect_refusal(service, event)->0)
    } else if state is ReportingConnected {
        Step::Answer(
            connect_welcome(
                service,
                state->ReportingConnected_admission,
                state->ReportingConnected_opening,
            ),
        )
    } else {
        let next = connect_next(state, event);
        Step::Ask(next, connect_question(service, request, next)->0)
    }
}

impl MqttService {
    fn connect_ask<P>(&self, request: &ConnectRequest, next: ConnectState) -> (r: Step<
        ConnectState,
        ConnectAction,
        MqttReply<P>,
    >)
        requires
            !(next is Start),
        ensures
            r == Step::<ConnectState, ConnectAction, MqttReply<P>>::Ask(
                next,
                connect_question(*self, *request, next)->0,
            ),
    {
        let action = match &next {
            ConnectState::Start => ConnectAction::ReadCluster,
            ConnectState::ReadingCluster => ConnectAction::ReadCluster,
            ConnectState::Validating { .. } => ConnectAction::Validate { protocol: self.protocol },
            ConnectState::ChoosingClientId { .. } => ConnectAction::ChooseClientId {
                client_id: request.client_id.clone(),
            },
            ConnectState::BuildingConnection { client_id, .. } => ConnectAction::BuildConnection {
                connect_id: request.connect_id,
                client_id: client_id.clone(),
            },
            ConnectState::CheckingBan { admission, .. } => ConnectAction::CheckBan {
                connection: admission.connection.clone(),
            },
            ConnectState::CheckingLogin { .. } => ConnectAction::CheckLogin,
            ConnectState::DetectingFlapping { .. } => ConnectAction::DetectFlapping {
                client_id: request.client_id.clone(),
            },
            ConnectState::BuildingSession { admission } => ConnectAction::BuildSession {
                connect_id: request.connect_id,
                client_id: admission.client_id.clone(),
            },
            ConnectState::SavingSession { admission, opening } => ConnectAction::SaveSession {
                connect_id: request.connect_id,
                session: opening.session,
                new_session: opening.new_session,
                client_id: admission.client_id.clone(),
            },
            ConnectState::SavingLastWill { admission, .. } => ConnectAction::SaveLastWill {
                client_id: admission.client_id.clone(),
            },
            ConnectState::AutoSubscribing { admission, .. } => ConnectAction::AutoSubscribe {
                client_id: admission.client_id.clone(),
                protocol: self.protocol,
            },
            ConnectState::ReadingClock { .. } => ConnectAction::ReadClock,
            ConnectState::ReportingHeartbeat { admission, now, .. } =>
            ConnectAction::ReportHeartbeat {
                client_id: admission.client_id.clone(),
                live_time: types::live_time(self.protocol, &admission.connection, *now),
            },
            ConnectState::AddingSession { admission, opening } => ConnectAction::AddSession {
                client_id: admission.client_id.clone(),
                session: opening.session,
            },
            ConnectState::AddingConnection { admission, .. } => ConnectAction::AddConnection {
                connect_id: request.connect_id,
                connection: admission.connection.clone(),
            },
            ConnectState::ReportingConnected { admission, opening } =>
            ConnectAction::ReportConnected {
                session: opening.session,
                connection: admission.connection.clone(),
                connect_id: request.connect_id,
            },
        };
        Step::Ask(next, action)
    }

    fn connect_fail<P>(&self, code: ConnectReturnCode, reason: Option<String>) -> (r: Step<
        ConnectState,
        ConnectAction,
        MqttReply<P>,
    >)
        ensures
            r.model() == Step::<ConnectState, ConnectAction, ReplyModel<P>>::Answer(
                ReplyModel::ConnectFail { protocol: self.protocol, code, reason },
            ),
    {
        Step::Answer(MqttReply::ConnectFail { protocol: self.protocol, code, reason })
    }

    /// One step in the handling of a CONNECT packet.
    pub fn connect<P>(
        &self,
        request: &ConnectRequest,
        state: ConnectState,
        event: ConnectEvent<P>,
    ) -> (r: Step<ConnectState, ConnectAction, MqttReply<P>>)
        ensures
            r.model() == connect_step(*self, *request, state, event),
    {
        match (state, event) {
            (ConnectState::Start, ConnectEvent::Begin) => self.connect_ask(
                request,
                ConnectState::ReadingCluster,
            ),
            (ConnectState::ReadingCluster, ConnectEvent::Cluster { flapping_detect }) =>
            self.connect_ask(request, ConnectState::Validating { flapping: flapping_detect }),
            (ConnectState::Validating { flapping }, ConnectEvent::Validated(rejection)) =>
            match rejection {
                Some(packet) => Step::Answer(MqttReply::Ready(packet)),
                None => self.connect_ask(request, ConnectState::ChoosingClientId { flapping }),
            },
            (
                ConnectState::ChoosingClientId { flapping },
                ConnectEvent::ClientId { client_id, new_client_id },
            ) => self.connect_ask(
                request,
                ConnectState::BuildingConnection { flapping, client_id, new_client_id },
            ),
            (
                ConnectState::BuildingConnection { flapping, client_id, new_client_id },
                ConnectEvent::Connection(connection),
            ) => self.connect_ask(
                request,
                ConnectState::CheckingBan {
                    flapping,
                    admission: Admission { client_id, new_client_id, connection },
                },
            ),
            (ConnectState::CheckingBan { flapping, admission }, ConnectEvent::Banned(banned)) =>
            if banned {
                self.connect_fail(ConnectReturnCode::Banned, None)
            } else {
                self.connect_ask(request, ConnectState::CheckingLogin { flapping, admission })
            },
            (ConnectState::CheckingLogin { flapping, admission }, ConnectEvent::Login(login)) =>
            match login {
                Ok(true) => if flapping {
                    self.connect_ask(request, ConnectState::DetectingFlapping { admission })
                } else {
                    self.connect_ask(request, ConnectState::BuildingSession { admission })
                },
                Ok(false) => self.connect_fail(ConnectReturnCode::NotAuthorized, None),
                Err(e) => self.connect_fail(ConnectReturnCode::UnspecifiedError, Some(e)),
            },
            (ConnectState::DetectingFlapping { admission }, ConnectEvent::Done) =>
            self.connect_ask(request, ConnectState::BuildingSession { admission }),
            (ConnectState::BuildingSession { admission }, ConnectEvent::Session(built)) =>
            match built {
                Ok(opening) => self.connect_ask(
                    request,
                    ConnectState::SavingSession { admission, opening },
                ),
                Err(e) => self.connect_fail(ConnectReturnCode::MalformedPacket, Some(e)),
            },
            (
                ConnectState::SavingSession { admission, opening },
                ConnectEvent::SessionSaved(saved),
            ) => match saved {
                Ok(_) => self.connect_ask(
                    request,
                    ConnectState::SavingLastWill { admission, opening },
                ),
                Err(e) => self.connect_fail(ConnectReturnCode::MalformedPacket, Some(e)),
            },
            (
                ConnectState::SavingLastWill { admission, opening },
                ConnectEvent::LastWillSaved(saved),
            ) => match saved {
                Ok(_) => self.connect_ask(
                    request,
                    ConnectState::AutoSubscribing { admission, opening },
                ),
                Err(e) => self.connect_fail(ConnectReturnCode::UnspecifiedError, Some(e)),
            },
            (
                ConnectState::AutoSubscribing { admission, opening },
                ConnectEvent::AutoSubscribed(done),
            ) => match done {
                Ok(_) => self.connect_ask(
                    request,
                    ConnectState::ReadingClock { admission, opening },
                ),
                Err(e) => self.connect_fail(ConnectReturnCode::UnspecifiedError, Some(e)),
            },
            (ConnectState::ReadingClock { admission, opening }, ConnectEvent::Now(now)) =>
            self.connect_ask(
                request,
                ConnectState::ReportingHeartbeat { admission, opening, now },
            ),
            (ConnectState::ReportingHeartbeat { admission, opening, .. }, ConnectEvent::Done) =>
            self.connect_ask(request, ConnectState::AddingSession { admission, opening }),
            (ConnectState::AddingSession { admission, opening }, ConnectEvent::Done) =>
            self.connect_ask(request, ConnectState::AddingConnection { admission, opening }),
            (ConnectState::AddingConnection { admission, opening }, ConnectEvent::Done) =>
            self.connect_ask(request, ConnectState::ReportingConnected { admission, opening }),
            (ConnectState::ReportingConnected { admission, opening }, ConnectEvent::Done) =>
            Step::Answer(
                MqttReply::ConnectSuccess {
                    protocol: self.protocol,
                    client_id: admission.client_id,
                    new_client_id: admission.new_client_id,
                    session_expiry: (opening.session.session_expiry % 0x1_0000_0000) as u32,
                    new_session: opening.new_session,
                    keep_alive: admission.connection.keep_alive,
                },
            ),
            _ => Step::Mismatch,
        }
    }
}

/// The run of the handler over a sequence of events.
pub open spec fn connect_run<P>(
    service: MqttService,
    request: ConnectRequest,
    events: Seq<ConnectEvent<P>>,
) -> Option<History<ConnectState, ConnectAction, ReplyModel<P>>> {
    machine::run(
        |state: ConnectState, event: ConnectEvent<P>|
            connect_step(service, request, state, event),
        ConnectState::Start,
        events,
    )
}

/// The place of an action in the order in which the handler asks.
pub open spec fn connect_rank(action: ConnectAction) -> int {
    match action {
        ConnectAction::ReadCluster => 0,
        ConnectAction::Validate { .. } => 1,
        ConnectAction::ChooseClientId { .. } => 2,
        ConnectAction::BuildConnection { .. } => 3,
        ConnectAction::CheckBan { .. } => 4,
        ConnectAction::CheckLogin => 5,
        ConnectAction::DetectFlapping { .. } => 6,
        ConnectAction::BuildSession { .. } => 7,
        ConnectAction::SaveSession { .. } => 8,
        ConnectAction::SaveLastWill { .. } => 9,
        ConnectAction::AutoSubscribe { .. } => 10,
        ConnectAction::ReadClock => 11,
        ConnectAction::ReportHeartbeat { .. } => 12,
        ConnectAction::AddSession { .. } => 13,
        ConnectAction::AddConnection { .. } => 14,
        ConnectAction::ReportConnected { .. } => 15,
    }
}

/// Whether an action makes the client known to the broker as connected.
pub open spec fn connect_registers(action: ConnectAction) -> bool {
    ||| action is ReportHeartbeat
    ||| action is AddSession
    ||| action is AddConnection
    ||| action is ReportConnected
}

/// The four actions with which a client is registered.
pub open spec fn connect_registration(
    service: MqttService,
    request: ConnectRequest,
    admission: Admission,
    opening: Opening,
    now: u64,
) -> Seq<ConnectAction> {
    seq![
        ConnectAction::ReportHeartbeat {
            client_id: admission.client_id,
            live_time: types::live_time_at(service.protocol, admission.connection, now),
        },
        ConnectAction::AddSession { client_id: admission.client_id, session: opening.session },
        ConnectAction::AddConnection {
            connect_id: request.connect_id,
            connection: admission.connection,
        },
        ConnectAction::ReportConnected {
            session: opening.session,
            connection: admission.connection,
            connect_id: request.connect_id,
        },
    ]
}

spec fn connect_flapping(state: ConnectState) -> Option<bool> {
    match state {
        ConnectState::Validating { flapping } => Some(flapping),
        ConnectState::ChoosingClientId { flapping } => Some(flapping),
        ConnectState::BuildingConnection { flapping, .. } => Some(flapping),
        ConnectState::CheckingBan { flapping, .. } => Some(flapping),
        ConnectState::CheckingLogin { flapping, .. } => Some(flapping),
        ConnectState::DetectingFlapping { .. } => Some(true),
        _ => None,
    }
}

spec fn connect_admission(state: ConnectState) -> Option<Admission> {
    match state {
        ConnectState::CheckingBan { admission, .. } => Some(admission),
        ConnectState::CheckingLogin { admission, .. } => Some(admission),
        ConnectState::DetectingFlapping { admission } => Some(admission),
        ConnectState::BuildingSession { admission } => Some(admission),
        ConnectState::SavingSession { admission, .. } => Some(admission),
        ConnectState::SavingLastWill { admission, .. } => Some(admission),
        ConnectState::AutoSubscribing { admission, .. } => Some(admission),
        ConnectState::ReadingClock { admission, .. } => Some(admission),
        ConnectState::ReportingHeartbeat { admission, .. } => Some(admission),
        ConnectState::AddingSession { admission, .. } => Some(admission),
        ConnectState::AddingConnection { admission, .. } => Some(admission),
        ConnectState::ReportingConnected { admission, .. } => Some(admission),
        _ => None,
    }
}

spec fn connect_opening(state: ConnectState) -> Option<Opening> {
    match state {
        ConnectState::SavingSession { opening, .. } => Some(opening),
        ConnectState::SavingLastWill { opening, .. } => Some(opening),
        ConnectState::AutoSubscribing { opening, .. } => Some(opening),
        ConnectState::ReadingClock { opening, .. } => Some(opening),
        ConnectState::ReportingHeartbeat { opening, .. } => Some(opening),
        ConnectState::AddingSession { opening, .. } => Some(opening),
        ConnectState::AddingConnection { opening, .. } => Some(opening),
        ConnectState::ReportingConnected { opening, .. } => Some(opening),
        _ => None,
    }
}

/// How many of the registering actions have been asked for in a state.
spec fn connect_registered(state: ConnectState) -> int {
    match state {
        ConnectState::ReportingHeartbeat { .. } => 1,
        ConnectState::AddingSession { .. } => 2,
        ConnectState::AddingConnection { .. } => 3,
        ConnectState::ReportingConnected { .. } => 4,
        _ => 0,
    }
}

/// Whether a client was named and got its connection by these events.
pub open spec fn connect_admits<P>(events: Seq<ConnectEvent<P>>, admission: Admission) -> bool {
    &&& events.len() > 4
    &&& events[3] == (ConnectEvent::<P>::ClientId {
        client_id: admission.client_id,
        new_client_id: admission.new_client_id,
    })
    &&& events[4] == ConnectEvent::<P>::Connection(admission.connection)
}

/// Whether the cluster detects clients that connect too often, as these events say.
pub open spec fn connect_detects<P>(events: Seq<ConnectEvent<P>>) -> bool {
    events.len() > 1 && events[1] == (ConnectEvent::<P>::Cluster { flapping_detect: true })
}

/// The index of the event that brings the session: one later if clients that
/// connect too often are detected.
pub open spec fn connect_session_at<P>(events: Seq<ConnectEvent<P>>) -> int {
    if connect_detects(events) {
        8
    } else {
        7
    }
}

/// Whether a client got its session by these events.
pub open spec fn connect_opens<P>(events: Seq<ConnectEvent<P>>, opening: Opening) -> bool {
    &&& events.len() > connect_session_at(events)
    &&& events[connect_session_at(events)] == ConnectEvent::<P>::Session(Ok(opening))
}

/// Whether a client has passed every check before its session: the validator
/// had nothing against it, its connection is not banned, and it may log in.
pub open spec fn connect_trusted<P>(
    service: MqttService,
    events: Seq<ConnectEvent<P>>,
    actions: Seq<ConnectAction>,
    admission: Admission,
) -> bool {
    &&& events.len() > 6
    &&& actions.len() > 5
    &&& actions[1] == (ConnectAction::Validate { protocol: service.protocol })
    &&& events[2] == ConnectEvent::<P>::Validated(None)
    &&& actions[4] == (ConnectAction::CheckBan { connection: admission.connection })
    &&& events[5] == ConnectEvent::<P>::Banned(false)
    &&& actions[5] is CheckLogin
    &&& events[6] == ConnectEvent::<P>::Login(Ok(true))
}

/// Whether what a client brings was saved: its session, its last will, and the
/// subscriptions that are made for it.
pub open spec fn connect_saved<P>(
    service: MqttService,
    request: ConnectRequest,
    events: Seq<ConnectEvent<P>>,
    actions: Seq<ConnectAction>,
    admission: Admission,
    opening: Opening,
) -> bool {
    let at = connect_session_at(events);
    &&& events.len() > at + 3
    &&& actions.len() > at + 2
    &&& actions[at] == (ConnectAction::SaveSession {
        connect_id: request.connect_id,
        session: opening.session,
        new_session: opening.new_session,
        client_id: admission.client_id,
    })
    &&& events[at + 1] matches ConnectEvent::SessionSaved(Ok(_))
    &&& actions[at + 1] == (ConnectAction::SaveLastWill { client_id: admission.client_id })
    &&& events[at + 2] matches ConnectEvent::LastWillSaved(Ok(_))
    &&& actions[at + 2] == (ConnectAction::AutoSubscribe {
        client_id: admission.client_id,
        protocol: service.protocol,
    })
    &&& events[at + 3] matches ConnectEvent::AutoSubscribed(Ok(_))
}

/// How many events lead to a state, apart from the detection of clients that
/// connect too often.
spec fn connect_depth(state: ConnectState) -> int {
    match state {
        ConnectState::Start => 0,
        ConnectState::ReadingCluster => 1,
        ConnectState::Validating { .. } => 2,
        ConnectState::ChoosingClientId { .. } => 3,
        ConnectState::BuildingConnection { .. } => 4,
        ConnectState::CheckingBan { .. } => 5,
        ConnectState::CheckingLogin { .. } => 6,
        ConnectState::DetectingFlapping { .. } => 7,
        ConnectState::BuildingSession { .. } => 7,
        ConnectState::SavingSession { .. } => 8,
        ConnectState::SavingLastWill { .. } => 9,
        ConnectState::AutoSubscribing { .. } => 10,
        ConnectState::ReadingClock { .. } => 11,
        ConnectState::ReportingHeartbeat { .. } => 12,
        ConnectState::AddingSession { .. } => 13,
        ConnectState::AddingConnection { .. } => 14,
        ConnectState::ReportingConnected { .. } => 15,
    }
}

spec fn connect_past_detection(state: ConnectState) -> bool {
    connect_depth(state) >= 7 && !(state is DetectingFlapping)
}

/// Which checks a client has passed in a state.
spec fn connect_passing<P>(
    service: MqttService,
    request: ConnectRequest,
    events: Seq<ConnectEvent<P>>,
    actions: Seq<ConnectAction>,
    state: ConnectState,
) -> bool {
    let depth = connect_depth(state);
    let at = connect_session_at(events);
    let admission = connect_admission(state)->0;
    let opening = connect_opening(state)->0;
    &&& depth >= 2 ==> actions[1] == (ConnectAction::Validate { protocol: service.protocol })
    &&& depth >= 3 ==> events[2] == ConnectEvent::<P>::Validated(None)
    &&& depth >= 5 ==> actions[4] == (ConnectAction::CheckBan { connection: admission.connection })
    &&& depth >= 6 ==> events[5] == ConnectEvent::<P>::Banned(false) && actions[5] is CheckLogin
    &&& depth >= 7 ==> connect_trusted(service, events, actions, admission)
    &&& depth >= 8 ==> actions[at] == (ConnectAction::SaveSession {
        connect_id: request.connect_id,
        session: opening.session,
        new_session: opening.new_session,
        client_id: admission.client_id,
    })
    &&& depth >= 9 ==> {
        &&& events[at + 1] matches ConnectEvent::SessionSaved(Ok(_))
        &&& actions[at + 1] == (ConnectAction::SaveLastWill { client_id: admission.client_id })
    }
    &&& depth >= 10 ==> {
        &&& events[at + 2] matches ConnectEvent::LastWillSaved(Ok(_))
        &&& actions[at + 2] == (ConnectAction::AutoSubscribe {
            client_id: admission.client_id,
            protocol: service.protocol,
        })
    }
    &&& depth >= 11 ==> connect_saved(service, request, events, actions, admission, opening)
}

/// What the history of a waiting handler looks like.
spec fn connect_reached<P>(
    service: MqttService,
    request: ConnectRequest,
    events: Seq<ConnectEvent<P>>,
    actions: Seq<ConnectAction>,
    state: ConnectState,
) -> bool {
    let question = connect_question(service, request, state);
    let n = events.len() as int;
    let k = connect_registered(state);
    &&& actions.len() == n
    &&& n == connect_depth(state) + if connect_past_detection(state) && connect_detects(events) {
        1int
    } else {
        0int
    }
    &&& question is Some ==> actions.last() == question->0
    &&& forall|i: int, j: int|
        0 <= i < j < n ==> connect_rank(actions[i]) < connect_rank(actions[j])
    &&& forall|i: int|
        0 <= i < n ==> connect_refusal(service, #[trigger] events[i]) is None
    &&& connect_flapping(state) matches Some(flapping) ==> connect_detects(events) == flapping
    &&& n > 1 ==> events[1] is Cluster
    &&& state matches ConnectState::BuildingConnection { client_id, new_client_id, .. }
        ==> events[3] == (ConnectEvent::<P>::ClientId { client_id, new_client_id })
    &&& connect_admission(state) matches Some(admission) ==> connect_admits(events, admission)
    &&& connect_opening(state) matches Some(opening) ==> connect_opens(events, opening)
    &&& connect_passing(service, request, events, actions, state)
    &&& state matches ConnectState::ReportingHeartbeat { now, .. } ==> events[n - 1]
        == ConnectEvent::<P>::Now(now)
    &&& forall|i: int|
        0 <= i < n && #[trigger] actions[i] is DetectFlapping ==> i == 6
            && connect_detects(events) && actions[i] == (ConnectAction::DetectFlapping {
            client_id: request.client_id,
        })
    &&& connect_past_detection(state) && connect_detects(events) ==> actions[6] is DetectFlapping
    &&& k > 0 ==> events[n - k] is Now && actions.subrange(n - k, n) =~= connect_registration(
        service,
        request,
        connect_admission(state)->0,
        connect_opening(state)->0,
        events[n - k]->Now_0,
    ).take(k)
}

/// What the history of a handler that has replied looks like.
pub open spec fn connect_finished<P>(
    service: MqttService,
    request: ConnectRequest,
    events: Seq<ConnectEvent<P>>,
    actions: Seq<ConnectAction>,
    reply: ReplyModel<P>,
) -> bool {
    let n = events.len() as int;
    &&& actions.len() == n - 1
    &&& forall|i: int|
        0 <= i < n - 1 ==> connect_refusal(service, #[trigger] events[i]) is None
    &&& match connect_refusal(service, events.last()) {
        Some(refusal) => {
            &&& reply == refusal
            &&& forall|i: int| 0 <= i < n - 1 ==> !connect_registers(#[trigger] actions[i])
        },
        None => exists|admission: Admission, opening: Opening|
            {
                &&& #[trigger] connect_admits(events, admission)
                &&& #[trigger] connect_opens(events, opening)
                &&& connect_trusted(service, events, actions, admission)
                &&& connect_saved(service, request, events, actions, admission, opening)
                &&& n > 5
                &&& events[n - 5] is Now
                &&& actions.subrange(n - 5, n - 1) =~= connect_registration(
                    service,
                    request,
                    admission,
                    opening,
                    events[n - 5]->Now_0,
                )
                &&& reply == connect_welcome::<P>(service, admission, opening)
            },
    }
}

spec fn connect_inv<P>(
    service: MqttService,
    request: ConnectRequest,
    events: Seq<ConnectEvent<P>>,
    actions: Seq<ConnectAction>,
    progress: Progress<ConnectState, ReplyModel<P>>,
) -> bool {
    &&& forall|i: int, j: int|
        0 <= i < j < actions.len() ==> connect_rank(actions[i]) < connect_rank(actions[j])
    &&& match progress {
        Progress::Waiting(state) => connect_reached(service, request, events, actions, state),
        Progress::Answered(reply) => {
            &&& connect_finished(service, request, events, actions, reply)
            &&& forall|i: int|
                0 <= i < actions.len() && #[trigger] actions[i] is DetectFlapping ==> i == 6
                    && connect_detects(events) && actions[i] == (
                ConnectAction::DetectFlapping { client_id: request.client_id })
            &&& connect_detects(events) && actions.len() > 6 ==> actions[6] is DetectFlapping
        },
    }
}

proof fn lemma_connect_kept<P>(
    service: MqttService,
    request: ConnectRequest,
    events: Seq<ConnectEvent<P>>,
    actions: Seq<ConnectAction>,
    state: ConnectState,
    event: ConnectEvent<P>,
)
    requires
        connect_inv(service, request, events, actions, Progress::Waiting(state)),
    ensures
        match connect_step(service, request, state, event) {
            Step::Ask(next, action) => connect_inv(
                service,
                request,
                events.push(event),
                actions.push(action),
                Progress::Waiting(next),
            ),
            Step::Answer(reply) => connect_inv(
                service,
                request,
                events.push(event),
                actions,
                Progress::Answered(reply),
            ),
            Step::Mismatch => true,
        },
{
    let n = events.len() as int;
    let k = connect_registered(state);
    let later = events.push(event);
    match connect_step(service, request, state, event) {
        Step::Ask(next, action) => {
            let asked = actions.push(action);
            assert(connect_detects(later) == if n == 1 {
                event == (ConnectEvent::<P>::Cluster { flapping_detect: true })
            } else {
                connect_detects(events)
            });
            let k2 = connect_registered(next);
            if k2 > 0 {
                assert(k2 == k + 1);
                assert(asked.subrange(n + 1 - k2, n + 1) =~= actions.subrange(n - k, n).push(
                    action,
                ));
            }
        },
        Step::Answer(reply) => {
            if connect_refusal(service, event) is None {
                let admission = connect_admission(state)->0;
                let opening = connect_opening(state)->0;
                assert(connect_admits(later, admission));
                assert(connect_opens(later, opening));
                assert(connect_trusted(service, later, actions, admission));
                assert(connect_saved(service, request, later, actions, admission, opening));
                assert(actions.subrange(n - 4, n) =~= connect_registration(
                    service,
                    request,
                    admission,
                    opening,
                    events[n - 4]->Now_0,
                ));
            }
        },
        Step::Mismatch => {},
    }
}

proof fn lemma_connect_run<P>(
    service: MqttService,
    request: ConnectRequest,
    events: Seq<ConnectEvent<P>>,
)
    ensures
        connect_run(service, request, events) matches Some(history) ==> connect_inv(
            service,
            request,
            events,
            history.actions,
            history.progress,
        ),
{
    let step = |state: ConnectState, event: ConnectEvent<P>|
        connect_step(service, request, state, event);
    let inv = |es: Seq<ConnectEvent<P>>, acts: Seq<ConnectAction>, progress: Progress<
        ConnectState,
        ReplyModel<P>,
    >| connect_inv(service, request, es, acts, progress);
    assert forall|es: Seq<ConnectEvent<P>>, acts: Seq<ConnectAction>, s: ConnectState, e:
        ConnectEvent<P>|
        #[trigger] machine::kept_by_step(step, inv, es, acts, s, e) by {
        if connect_inv(service, request, es, acts, Progress::Waiting(s)) {
            lemma_connect_kept(service, request, es, acts, s, e);
        }
    }
    machine::lemma_run_keeps(step, ConnectState::Start, events, inv);
}

/// The handler asks each thing at most once, in a fixed order, so that every
/// request ends after at most seventeen events.
pub proof fn law_connect_asks_in_order<P>(
    service: MqttService,
    request: ConnectRequest,
    events: Seq<ConnectEvent<P>>,
)
    requires
        connect_run(service, request, events) is Some,
    ensures
        ({
            let history = connect_run(service, request, events)->0;
            let actions = history.actions;
            &&& forall|i: int, j: int|
                0 <= i < j < actions.len() ==> connect_rank(actions[i]) < connect_rank(actions[j])
            &&& events.len() <= 17
        }),
{
    lemma_connect_run(service, request, events);
    let history = connect_run(service, request, events)->0;
    if history.progress is Answered {
        lemma_connect_run(service, request, events.drop_last());
    }
}

/// A handler that waits takes exactly the events that answer the last thing it
/// asked for.
pub proof fn law_connect_takes_answers<P>(
    service: MqttService,
    request: ConnectRequest,
    events: Seq<ConnectEvent<P>>,
    event: ConnectEvent<P>,
)
    requires
        connect_run(service, request, events) matches Some(history) && history.progress is Waiting,
    ensures
        ({
            let history = connect_run(service, request, events)->0;
            connect_run(service, request, events.push(event)) is Some <==> if events.len() == 0 {
                event is Begin
            } else {
                match history.actions.last() {
                    ConnectAction::ReadCluster => event is Cluster,
                    ConnectAction::Validate { .. } => event is Validated,
                    ConnectAction::ChooseClientId { .. } => event is ClientId,
                    ConnectAction::BuildConnection { .. } => event is Connection,
                    ConnectAction::CheckBan { .. } => event is Banned,
                    ConnectAction::CheckLogin => event is Login,
                    ConnectAction::BuildSession { .. } => event is Session,
                    ConnectAction::SaveSession { .. } => event is SessionSaved,
                    ConnectAction::SaveLastWill { .. } => event is LastWillSaved,
                    ConnectAction::AutoSubscribe { .. } => event is AutoSubscribed,
                    ConnectAction::ReadClock => event is Now,
                    ConnectAction::DetectFlapping { .. } => event is Done,
                    ConnectAction::ReportHeartbeat { .. } => event is Done,
                    ConnectAction::AddSession { .. } => event is Done,
                    ConnectAction::AddConnection { .. } => event is Done,
                    ConnectAction::ReportConnected { .. } => event is Done,
                }
            }
        }),
{
    lemma_connect_run(service, request, events);
    assert(events.push(event).drop_last() =~= events);
}

/// A client is let in exactly when nothing turned it away, and what turned it
/// away is what it is told. A client that was turned away is never registered;
/// a client that was let in had passed the validator, the ban and the login, had
/// its session, its last will and its subscriptions saved, and has been
/// registered, under the name, the connection and the session that it was given.
pub proof fn law_connect_replies<P>(
    service: MqttService,
    request: ConnectRequest,
    events: Seq<ConnectEvent<P>>,
)
    requires
        connect_run(service, request, events) matches Some(history) && history.progress is Answered,
    ensures
        ({
            let history = connect_run(service, request, events)->0;
            let reply = history.progress->Answered_0;
            &&& connect_finished(service, request, events, history.actions, reply)
            &&& reply is ConnectSuccess <==> forall|i: int|
                0 <= i < events.len() ==> connect_refusal(service, #[trigger] events[i]) is None
        }),
{
    lemma_connect_run(service, request, events);
    let last = events.last();
    assert(last == events[events.len() - 1]);
}

/// Clients that connect too often are looked for exactly if the cluster says
/// so, once the client has logged in, and by the identifier that the packet gave.
pub proof fn law_connect_detects_flapping<P>(
    service: MqttService,
    request: ConnectRequest,
    events: Seq<ConnectEvent<P>>,
)
    requires
        connect_run(service, request, events) is Some,
    ensures
        ({
            let history = connect_run(service, request, events)->0;
            let actions = history.actions;
            &&& forall|i: int|
                0 <= i < actions.len() && #[trigger] actions[i] is DetectFlapping ==> i == 6
                    && connect_detects(events) && actions[i] == (ConnectAction::DetectFlapping {
                    client_id: request.client_id,
                })
            &&& connect_detects(events) && actions.len() > 6 ==> actions[6] is DetectFlapping
        }),
{
    lemma_connect_run(service, request, events);
}

/// The state in which a run asked its action `k`.
proof fn lemma_connect_at<P>(
    service: MqttService,
    request: ConnectRequest,
    events: Seq<ConnectEvent<P>>,
    k: int,
) -> (state: ConnectState)
    requires
        connect_run(service, request, events) is Some,
        0 <= k < (connect_run(service, request, events)->0).actions.len(),
    ensures
        ({
            let actions = (connect_run(service, request, events)->0).actions;
            &&& k < events.len()
            &&& connect_reached(service, request, events.take(k + 1), actions.take(k + 1), state)
            &&& !(state is Start)
            &&& connect_question(service, request, state) == Some(actions[k])
        }),
{
    let step = |state: ConnectState, event: ConnectEvent<P>|
        connect_step(service, request, state, event);
    machine::lemma_run_prefix(step, ConnectState::Start, events, 0);
    machine::lemma_run_prefix(step, ConnectState::Start, events, k);
    lemma_connect_run(service, request, events.take(k + 1));
    let later = connect_run(service, request, events.take(k + 1))->0;
    let actions = (connect_run(service, request, events)->0).actions;
    assert(actions.take(k + 1).last() == actions[k]);
    later.progress->Waiting_0
}

/// The state that the last event of an answered run found.
proof fn lemma_connect_end<P>(
    service: MqttService,
    request: ConnectRequest,
    events: Seq<ConnectEvent<P>>,
) -> (state: ConnectState)
    requires
        connect_run(service, request, events) matches Some(history) && history.progress is Answered,
    ensures
        ({
            let history = connect_run(service, request, events)->0;
            let n = events.len() as int;
            &&& n > 0
            &&& connect_reached(service, request, events.take(n - 1), history.actions, state)
            &&& connect_step(service, request, state, events.last()) == Step::<
                ConnectState,
                ConnectAction,
                ReplyModel<P>,
            >::Answer(history.progress->Answered_0)
        }),
{
    let step = |state: ConnectState, event: ConnectEvent<P>|
        connect_step(service, request, state, event);
    let n = events.len() as int;
    machine::lemma_run_prefix(step, ConnectState::Start, events, n - 1);
    lemma_connect_run(service, request, events.take(n - 1));
    let history = connect_run(service, request, events)->0;
    assert(history.actions.take(n - 1) =~= history.actions);
    let early = connect_run(service, request, events.take(n - 1))->0;
    early.progress->Waiting_0
}

/// What is asked, one thing for each event: the checks of the client under the
/// service's protocol and the given identifier, then its session, its last will
/// and its subscriptions under the identifier that was chosen, and then its
/// registration, with a sign of life at the time that the clock tells. Nothing
/// is asked after an event that speaks against the client.
pub proof fn law_connect_asks<P>(
    service: MqttService,
    request: ConnectRequest,
    events: Seq<ConnectEvent<P>>,
    i: int,
)
    requires
        connect_run(service, request, events) matches Some(history) && 0 <= i
            < history.actions.len(),
    ensures
        ({
            let actions = (connect_run(service, request, events)->0).actions;
            let d = if events.len() > 1 && events[1] == (ConnectEvent::<P>::Cluster {
                flapping_detect: true,
            }) {
                1int
            } else {
                0int
            };
            let chosen = events[3]->client_id;
            let connection = events[4]->Connection_0;
            let opening = events[7 + d]->Session_0->Ok_0;
            &&& if i == 0 {
                actions[i] is ReadCluster
            } else if i == 1 {
                actions[i] == (ConnectAction::Validate { protocol: service.protocol })
            } else if i == 2 {
                actions[i] == (ConnectAction::ChooseClientId { client_id: request.client_id })
            } else if i == 3 {
                actions[i] == (ConnectAction::BuildConnection {
                    connect_id: request.connect_id,
                    client_id: chosen,
                })
            } else if i == 4 {
                actions[i] == (ConnectAction::CheckBan { connection })
            } else if i == 5 {
                actions[i] is CheckLogin
            } else if i == 5 + d {
                actions[i] == (ConnectAction::DetectFlapping { client_id: request.client_id })
            } else if i == 6 + d {
                actions[i] == (ConnectAction::BuildSession {
                    connect_id: request.connect_id,
                    client_id: chosen,
                })
            } else if i == 7 + d {
                actions[i] == (ConnectAction::SaveSession {
                    connect_id: request.connect_id,
                    session: opening.session,
                    new_session: opening.new_session,
                    client_id: chosen,
                })
            } else if i == 8 + d {
                actions[i] == (ConnectAction::SaveLastWill { client_id: chosen })
            } else if i == 9 + d {
                actions[i] == (ConnectAction::AutoSubscribe {
                    client_id: chosen,
                    protocol: service.protocol,
                })
            } else if i == 10 + d {
                actions[i] is ReadClock
            } else if i == 11 + d {
                actions[i] matches ConnectAction::ReportHeartbeat { client_id, live_time } && {
                    &&& client_id == chosen
                    &&& live_time.protocol == service.protocol
                    &&& live_time.keep_live == connection.keep_alive % 65536
                    &&& events[i] == ConnectEvent::<P>::Now(live_time.heartbeat)
                }
            } else if i == 12 + d {
                actions[i] == (ConnectAction::AddSession {
                    client_id: chosen,
                    session: opening.session,
                })
            } else if i == 13 + d {
                actions[i] == (ConnectAction::AddConnection {
                    connect_id: request.connect_id,
                    connection,
                })
            } else {
                &&& i == 14 + d
                &&& actions[i] == (ConnectAction::ReportConnected {
                    session: opening.session,
                    connection,
                    connect_id: request.connect_id,
                })
            }
            &&& match events[i] {
                ConnectEvent::Validated(rejection) => rejection is None,
                ConnectEvent::Banned(banned) => !banned,
                ConnectEvent::Login(allowed) => allowed == Ok::<bool, String>(true),
                ConnectEvent::Session(built) => built is Ok,
                ConnectEvent::SessionSaved(saved) => saved is Ok,
                ConnectEvent::LastWillSaved(saved) => saved is Ok,
                ConnectEvent::AutoSubscribed(done) => done is Ok,
                _ => true,
            }
        }),
{
    let state = lemma_connect_at(service, request, events, i);
    let early = events.take(i + 1);
    assert(forall|j: int| 0 <= j <= i ==> early[j] == events[j]);
    assert(connect_refusal(service, early[i]) is None);
}

/// What a client is told, by the event that ends its request: the validator's
/// packet, the code and the error that turned it away, or that it is let in,
/// with the identifier, the keep-alive time and the session that these events
/// gave it.
pub proof fn law_connect_tells<P>(
    service: MqttService,
    request: ConnectRequest,
    events: Seq<ConnectEvent<P>>,
)
    requires
        connect_run(service, request, events) matches Some(history) && history.progress is Answered,
    ensures
        ({
            let history = connect_run(service, request, events)->0;
            let reply = history.progress->Answered_0;
            let d = if events[1] == (ConnectEvent::<P>::Cluster { flapping_detect: true }) {
                1int
            } else {
                0int
            };
            match events.last() {
                ConnectEvent::Validated(rejection) => rejection matches Some(packet) && reply
                    == ReplyModel::Ready(packet),
                ConnectEvent::Banned(banned) => banned && reply == (ReplyModel::<P>::ConnectFail {
                    protocol: service.protocol,
                    code: ConnectReturnCode::Banned,
                    reason: None,
                }),
                ConnectEvent::Login(Ok(allowed)) => !allowed && reply == (ReplyModel::<
                    P,
                >::ConnectFail {
                    protocol: service.protocol,
                    code: ConnectReturnCode::NotAuthorized,
                    reason: None,
                }),
                ConnectEvent::Login(Err(e)) => reply == (ReplyModel::<P>::ConnectFail {
                    protocol: service.protocol,
                    code: ConnectReturnCode::UnspecifiedError,
                    reason: Some(e),
                }),
                ConnectEvent::Session(built) => built matches Err(e) && reply == (ReplyModel::<
                    P,
                >::ConnectFail {
                    protocol: service.protocol,
                    code: ConnectReturnCode::MalformedPacket,
                    reason: Some(e),
                }),
                ConnectEvent::SessionSaved(saved) => saved matches Err(e) && reply
                    == (ReplyModel::<P>::ConnectFail {
                    protocol: service.protocol,
                    code: ConnectReturnCode::MalformedPacket,
                    reason: Some(e),
                }),
                ConnectEvent::LastWillSaved(saved) => saved matches Err(e) && reply
                    == (ReplyModel::<P>::ConnectFail {
                    protocol: service.protocol,
                    code: ConnectReturnCode::UnspecifiedError,
                    reason: Some(e),
                }),
                ConnectEvent::AutoSubscribed(done) => done matches Err(e) && reply
                    == (ReplyModel::<P>::ConnectFail {
                    protocol: service.protocol,
                    code: ConnectReturnCode::UnspecifiedError,
                    reason: Some(e),
                }),
                ConnectEvent::Done => {
                    &&& events.len() == 16 + d
                    &&& reply matches ReplyModel::ConnectSuccess {
                        protocol,
                        client_id,
                        new_client_id,
                        session_expiry,
                        new_session,
                        keep_alive,
                    }
                    &&& protocol == service.protocol
                    &&& events[3] == (ConnectEvent::<P>::ClientId { client_id, new_client_id })
                    &&& events[4] matches ConnectEvent::Connection(connection)
                    &&& keep_alive == connection.keep_alive
                    &&& events[7 + d] matches ConnectEvent::Session(Ok(opening))
                    &&& new_session == opening.new_session
                    &&& session_expiry == opening.session.session_expiry % 0x1_0000_0000
                },
                _ => false,
            }
        }),
{
    let state = lemma_connect_end(service, request, events);
    let early = events.take(events.len() - 1);
    assert(forall|i: int| 0 <= i < early.len() ==> early[i] == events[i]);
}

/// The model of an action is the action.
pub proof fn law_connect_action_model(action: ConnectAction)
    ensures
        action.model() == action,
{
}

} // verus!
