//! One round of telling the placement center that the node is alive.

use vstd::prelude::*;

use crate::journal::register;
use crate::journal::register::{CallEvent, CallState, RegisterAction, RegisterModel};
use crate::journal::text;
use crate::journal::types::{ClusterType, HeartbeatRequest, JournalServerConfig};
use crate::machine;
use crate::machine::{History, Modeled, Progress, Step};

verus! {

/// Seconds between the end of one round and the next.
pub const ROUND_PAUSE: u64 = 1;

/// What a round asks for.
#[derive(Debug, PartialEq, Eq)]
pub enum RoundAction {
    Heartbeat { placement_center: Vec<String>, request: HeartbeatRequest },
    Register(RegisterAction),
    Sleep { seconds: u64 },
}

/// The model of a [`RoundAction`].
pub enum RoundModel {
    Heartbeat { placement_center: Seq<String>, request: HeartbeatRequest },
    Register(RegisterModel),
    Sleep { seconds: u64 },
}

impl Modeled for RoundAction {
    type Model = RoundModel;

    open spec fn model(&self) -> RoundModel {
        match *self {
            RoundAction::Heartbeat { placement_center, request } => RoundModel::Heartbeat {
                placement_center: placement_center@,
                request,
            },
            RoundAction::Register(action) => RoundModel::Register(action.model()),
            RoundAction::Sleep { seconds } => RoundModel::Sleep { seconds },
        }
    }
}

/// What an action brings; the message of the error, where a call failed.
#[derive(Debug, PartialEq, Eq)]
pub enum RoundEvent {
    Begin,
    Reported(Result<(), String>),
    Registered(Result<(), String>),
    Slept,
}

/// What a round waits for.
#[derive(Debug, Clone, Copy, PartialEq, Eq, Structural)]
pub enum RoundState {
    Start,
    Reporting,
    Registering,
    Sleeping,
}

/// Whether the message of an error says that the placement center does not know
/// the node.
pub open spec fn says_unknown(message: Seq<char>) -> bool {
    text::occurs_in("Node"@, message) && text::occurs_in("does not exist"@, message)
}

/// Whether the message of an error says that the placement center does not know
/// the node.
pub fn is_unknown_node(message: &str) -> (r: bool)
    ensures
        r == says_unknown(message@),
{
    text::contains(message, "Node") && text::contains(message, "does not exist")
}

/// The sign of life of a node.
pub open spec fn heartbeat(config: JournalServerConfig) -> HeartbeatRequest {
    HeartbeatRequest {
        cluster_name: config.cluster_name,
        cluster_type: ClusterType::JournalServer,
        node_id: config.node_id,
    }
}

/// The request that a round opens with.
pub open spec fn round_report(config: JournalServerConfig) -> RoundModel {
    RoundModel::Heartbeat {
        placement_center: config.placement_center@,
        request: heartbeat(config),
    }
}

/// The request by which a round makes an unknown node known.
pub open spec fn round_register(config: JournalServerConfig) -> RoundModel {
    RoundModel::Register(
        RegisterModel {
            placement_center: config.placement_center@,
            request: register::registration(config, config),
        },
    )
}

/// The pause that a round closes with.
pub open spec fn round_pause() -> RoundModel {
    RoundModel::Sleep { seconds: ROUND_PAUSE }
}

/// One step of a round.
pub open spec fn round_step(
    config: JournalServerConfig,
    state: RoundState,
    event: RoundEvent,
) -> Step<RoundState, RoundModel, ()> {
    match (state, event) {
        (RoundState::Start, RoundEvent::Begin) => Step::Ask(
            RoundState::Reporting,
            round_report(config),
        ),
        (RoundState::Reporting, RoundEvent::Reported(Err(message))) if says_unknown(message@) =>
        Step::Ask(RoundState::Registering, round_register(config)),
        (RoundState::Reporting, RoundEvent::Reported(_)) => Step::Ask(
            RoundState::Sleeping,
            round_pause(),
        ),
        (RoundState::Registering, RoundEvent::Registered(_)) => Step::Ask(
            RoundState::Sleeping,
            round_pause(),
        ),
        (RoundState::Sleeping, RoundEvent::Slept) => Step::Answer(()),
        _ => Step::Mismatch,
    }
}

/// One step of a round under the configuration of the process.
pub fn report_report0(config: &JournalServerConfig, state: RoundState, event: RoundEvent) -> (r:
    Step<RoundState, RoundAction, ()>)
    ensures
        r.model() == round_step(*config, state, event),
{
    let pause = RoundAction::Sleep { seconds: ROUND_PAUSE };
    match (state, event) {
        (RoundState::Start, RoundEvent::Begin) => {
            let request = HeartbeatRequest {
                cluster_name: config.cluster_name.clone(),
                cluster_type: ClusterType::JournalServer,
                node_id: config.node_id,
            };
            let placement_center = config.placement_center.clone();
            assert(placement_center@ =~= config.placement_center@);
            Step::Ask(RoundState::Reporting, RoundAction::Heartbeat { placement_center, request })
        },
        (RoundState::Reporting, RoundEvent::Reported(result)) => {
            if let Err(message) = result {
                if is_unknown_node(message.as_str()) {
                    let joining = register::register_journal_node::<String>(
                        config,
                        config,
                        CallState::Start,
                        CallEvent::Begin,
                    );
                    if let Step::Ask(_, action) = joining {
                        return Step::Ask(RoundState::Registering, RoundAction::Register(action));
                    }
                }
            }
            Step::Ask(RoundState::Sleeping, pause)
        },
        (RoundState::Registering, RoundEvent::Registered(_)) => Step::Ask(
            RoundState::Sleeping,
            pause,
        ),
        (RoundState::Sleeping, RoundEvent::Slept) => Step::Answer(()),
        _ => Step::Mismatch,
    }
}

/// The run of a round over a sequence of events.
pub open spec fn round_run(config: JournalServerConfig, events: Seq<RoundEvent>) -> Option<
    History<RoundState, RoundModel, ()>,
> {
    machine::run(
        |state: RoundState, event: RoundEvent| round_step(config, state, event),
        RoundState::Start,
        events,
    )
}

/// Whether the placement center answered the sign of life by not knowing the node.
pub open spec fn round_finds_unknown(events: Seq<RoundEvent>) -> bool {
    events[1] matches RoundEvent::Reported(Err(message)) && says_unknown(message@)
}

/// Everything that a round asks for.
pub open spec fn round_plan(config: JournalServerConfig, unknown: bool) -> Seq<RoundModel> {
    if unknown {
        seq![round_report(config), round_register(config), round_pause()]
    } else {
        seq![round_report(config), round_pause()]
    }
}

/// Whether an event is of the kind that an action brings.
pub open spec fn round_answers(action: RoundModel, event: RoundEvent) -> bool {
    match action {
        RoundModel::Heartbeat { .. } => event is Reported,
        RoundModel::Register(_) => event is Registered,
        RoundModel::Sleep { .. } => event is Slept,
    }
}

spec fn round_inv(
    config: JournalServerConfig,
    events: Seq<RoundEvent>,
    actions: Seq<RoundModel>,
    progress: Progress<RoundState, ()>,
) -> bool {
    let n = events.len() as int;
    let plan = round_plan(config, round_finds_unknown(events));
    match progress {
        Progress::Waiting(state) => match state {
            RoundState::Start => n == 0 && actions =~= Seq::empty(),
            RoundState::Reporting => n == 1 && actions =~= plan.take(1),
            RoundState::Registering => n == 2 && round_finds_unknown(events) && actions
                =~= plan.take(2),
            RoundState::Sleeping => n == plan.len() && n >= 2 && actions =~= plan,
        },
        Progress::Answered(_) => n == plan.len() + 1 && actions =~= plan,
    }
}

proof fn lemma_round_run(config: JournalServerConfig, events: Seq<RoundEvent>)
    ensures
        round_run(config, events) matches Some(history) ==> round_inv(
            config,
            events,
            history.actions,
            history.progress,
        ),
{
    let step = |state: RoundState, event: RoundEvent| round_step(config, state, event);
    let inv = |es: Seq<RoundEvent>, acts: Seq<RoundModel>, progress: Progress<RoundState, ()>|
        round_inv(config, es, acts, progress);
    assert forall|es: Seq<RoundEvent>, acts: Seq<RoundModel>, s: RoundState, e: RoundEvent|
        #[trigger] machine::kept_by_step(step, inv, es, acts, s, e) by {
        if es.len() > 1 {
            assert(es.push(e)[1] == es[1]);
        }
    }
    machine::lemma_run_keeps(step, RoundState::Start, events, inv);
}

/// A round that waits takes exactly the events that answer the last thing it
/// asked for.
pub proof fn law_round_takes_answers(
    config: JournalServerConfig,
    events: Seq<RoundEvent>,
    event: RoundEvent,
)
    requires
        round_run(config, events) matches Some(history) && history.progress is Waiting,
    ensures
        ({
            let history = round_run(config, events)->0;
            round_run(config, events.push(event)) is Some <==> if events.len() == 0 {
                event is Begin
            } else {
                match history.actions.last() {
                    RoundModel::Heartbeat { .. } => event is Reported,
                    RoundModel::Register(_) => event is Registered,
                    RoundModel::Sleep { .. } => event is Slept,
                }
            }
        }),
        events.len() > 0 ==> (round_run(config, events.push(event)) is Some <==> round_answers(
            (round_run(config, events)->0).actions.last(),
            event,
        )),
{
    lemma_round_run(config, events);
    assert(events.push(event).drop_last() =~= events);
}

/// A round that is over has reported the node, has registered it again exactly
/// if the placement center said that it does not know the node, and has paused
/// after that whatever the calls came to.
pub proof fn law_round_registers_unknown(config: JournalServerConfig, events: Seq<RoundEvent>)
    requires
        round_run(config, events) matches Some(history) && history.progress is Answered,
    ensures
        ({
            let history = round_run(config, events)->0;
            history.actions == round_plan(config, round_finds_unknown(events))
        }),
{
    lemma_round_run(config, events);
}

/// A node has the same cluster and number in its registration, in its signs of
/// life and when it leaves.
pub proof fn law_node_is_named_alike(conf: JournalServerConfig, config: JournalServerConfig)
    ensures
        ({
            let joins = register::registration(conf, config);
            let lives = heartbeat(config);
            let leaves = register::unregistration(config);
            &&& joins.cluster_type == lives.cluster_type && lives.cluster_type
                == leaves.cluster_type
            &&& joins.cluster_name == lives.cluster_name@ && lives.cluster_name
                == leaves.cluster_name
            &&& joins.node_id == lives.node_id && lives.node_id == leaves.node_id
        }),
{
}

/// The placement center does not know the node exactly if its message speaks of a
/// `Node` and says that something `does not exist`.
pub proof fn law_unknown_node(message: Seq<char>)
    ensures
        says_unknown(message) <==> {
            &&& exists|before: Seq<char>, after: Seq<char>|
                #[trigger] (before + "Node"@ + after) == message
            &&& exists|before: Seq<char>, after: Seq<char>|
                #[trigger] (before + "does not exist"@ + after) == message
        },
{
    text::law_occurs_in("Node"@, message);
    text::law_occurs_in("does not exist"@, message);
}

/// What a round asks, one thing for each event: a sign of life under the cluster
/// name and the number of the node; if that failed with a message that speaks of a
/// `Node` and says that something `does not exist`, the very call by which the node
/// joins its cluster; and in any case a pause of one second.
pub proof fn law_round_asks(config: JournalServerConfig, events: Seq<RoundEvent>, i: int)
    requires
        round_run(config, events) matches Some(history) && 0 <= i < history.actions.len(),
    ensures
        ({
            let actions = (round_run(config, events)->0).actions;
            let unknown = events[1] matches RoundEvent::Reported(Err(message)) && text::occurs_in(
                "Node"@,
                message@,
            ) && text::occurs_in("does not exist"@, message@);
            let joining = register::register_run::<String>(
                config,
                config,
                seq![CallEvent::Begin],
            )->0;
            if i == 0 {
                &&& actions[i] matches RoundModel::Heartbeat { placement_center, request }
                &&& placement_center == config.placement_center@
                &&& request.cluster_name == config.cluster_name
                &&& request.cluster_type == ClusterType::JournalServer
                &&& request.node_id == config.node_id
            } else if i == 1 && unknown {
                joining.actions == seq![actions[i]->Register_0] && actions[i] is Register
            } else {
                &&& i == if unknown { 2int } else { 1int }
                &&& actions[i] == (RoundModel::Sleep { seconds: 1 })
            }
        }),
{
    lemma_round_run(config, events);
    let step = |state: RoundState, event: RoundEvent| round_step(config, state, event);
    machine::lemma_run_prefix(step, RoundState::Start, events, 0);
    machine::lemma_run_prefix(step, RoundState::Start, events, i);
    register::law_register_tells::<String>(config, config, seq![CallEvent::Begin]);
    register::law_register_calls_once::<String>(config, config, seq![CallEvent::Begin]);
}

/// A round is over after its pause, and after nothing else.
pub proof fn law_round_ends(config: JournalServerConfig, events: Seq<RoundEvent>)
    requires
        round_run(config, events) is Some,
    ensures
        (round_run(config, events)->0).progress is Answered <==> events.len() > 0 && events.last()
             is Slept,
{
    if events.len() > 0 {
        let step = |state: RoundState, event: RoundEvent| round_step(config, state, event);
        machine::lemma_run_prefix(step, RoundState::Start, events, events.len() - 1);
    }
}

/// The model of an action has its fields.
pub proof fn law_round_action_model(action: RoundAction)
    ensures
        match action {
            RoundAction::Heartbeat { placement_center, request } => action.model()
                == (RoundModel::Heartbeat { placement_center: placement_center@, request }),
            RoundAction::Register(joining) => action.model() == RoundModel::Register(
                joining.model(),
            ),
            RoundAction::Sleep { seconds } => action.model() == (RoundModel::Sleep { seconds }),
        },
{
}

} // verus!
