//! How a node joins its cluster and leaves it.

use vstd::prelude::*;

use crate::journal::extend;
use crate::journal::extend::JournalNodeExtend;
use crate::journal::text;
use crate::journal::types::{
    ClusterType, JournalServerConfig, RegisterNodeRequest, Registration, UnRegisterNodeRequest,
};
use crate::machine;
use crate::machine::{History, Modeled, Progress, Step};

verus! {

/// Why a node could not join its cluster or leave it. `E` is the type of the
/// errors with which calls to the placement center fail.
#[derive(Debug)]
pub enum CommonError<E> {
    /// What the node tells of itself could not be written down.
    SerdeJson(serde_json::Error),
    /// The placement center could not be reached, or refused.
    Call(E),
}

/// The error of a result, if it is one.
impl<E> Modeled for Result<(), CommonError<E>> {
    type Model = Option<CommonError<E>>;

    open spec fn model(&self) -> Option<CommonError<E>> {
        match *self {
            Ok(_) => None,
            Err(e) => Some(e),
        }
    }
}

/// What a request to the placement center waits for.
#[derive(Debug, Clone, Copy, PartialEq, Eq, Structural)]
pub enum CallState {
    Start,
    Calling,
}

/// What a request to the placement center brings.
#[derive(Debug, PartialEq, Eq)]
pub enum CallEvent<E> {
    Begin,
    Called(Result<(), E>),
}

/// Asks the placement center, at one of its addresses, to take a node in.
#[derive(Debug, PartialEq, Eq)]
pub struct RegisterAction {
    pub placement_center: Vec<String>,
    pub request: RegisterNodeRequest,
}

/// The model of a [`RegisterAction`].
pub struct RegisterModel {
    pub placement_center: Seq<String>,
    pub request: Registration,
}

impl Modeled for RegisterAction {
    type Model = RegisterModel;

    open spec fn model(&self) -> RegisterModel {
        RegisterModel { placement_center: self.placement_center@, request: self.request@ }
    }
}

/// Asks the placement center, at one of its addresses, to take a node out.
#[derive(Debug, PartialEq, Eq)]
pub struct UnRegisterAction {
    pub placement_center: Vec<String>,
    pub request: UnRegisterNodeRequest,
}

/// The model of an [`UnRegisterAction`].
pub struct UnRegisterModel {
    pub placement_center: Seq<String>,
    pub request: UnRegisterNodeRequest,
}

impl Modeled for UnRegisterAction {
    type Model = UnRegisterModel;

    open spec fn model(&self) -> UnRegisterModel {
        UnRegisterModel { placement_center: self.placement_center@, request: self.request }
    }
}

/// What the node with the configuration `conf` tells of itself: where its data
/// is, and the addresses of its two public ports.
pub open spec fn is_extend_of(extend: JournalNodeExtend, conf: JournalServerConfig) -> bool {
    &&& extend.data_fold@ == conf.storage.data_path@
    &&& extend.tcp_addr@ == text::address_text(conf.network.local_ip@, conf.network.tcp_port)
    &&& extend.tcps_addr@ == text::address_text(conf.network.local_ip@, conf.network.tcps_port)
}

/// What the node with the configuration `conf` tells of itself.
pub fn node_extend(conf: &JournalServerConfig) -> (r: JournalNodeExtend)
    ensures
        is_extend_of(r, *conf),
{
    let local_ip = conf.network.local_ip.as_str();
    JournalNodeExtend {
        data_fold: conf.storage.data_path.clone(),
        tcp_addr: text::address(local_ip, conf.network.tcp_port),
        tcps_addr: text::address(local_ip, conf.network.tcps_port),
    }
}

/// The JSON object in which the node with the configuration `conf` tells of itself.
pub open spec fn extend_info(conf: JournalServerConfig) -> Seq<char> {
    extend::object_text(
        conf.storage.data_path@,
        text::address_text(conf.network.local_ip@, conf.network.tcp_port),
        text::address_text(conf.network.local_ip@, conf.network.tcps_port),
    )
}

/// How a node asks to be taken in: under the name and number of `config`, at
/// the addresses that the process is configured with, `conf`.
pub open spec fn registration(
    conf: JournalServerConfig,
    config: JournalServerConfig,
) -> Registration {
    Registration {
        cluster_type: ClusterType::JournalServer,
        cluster_name: config.cluster_name@,
        node_id: config.node_id,
        node_ip: conf.network.local_ip@,
        node_inner_addr: text::address_text(conf.network.local_ip@, conf.network.grpc_port),
        extend_info: extend_info(conf),
    }
}

/// One step of joining a cluster.
pub open spec fn register_step<E>(
    conf: JournalServerConfig,
    config: JournalServerConfig,
    state: CallState,
    event: CallEvent<E>,
) -> Step<CallState, RegisterModel, Option<CommonError<E>>> {
    match (state, event) {
        (CallState::Start, CallEvent::Begin) => Step::Ask(
            CallState::Calling,
            RegisterModel {
                placement_center: config.placement_center@,
                request: registration(conf, config),
            },
        ),
        (CallState::Calling, CallEvent::Called(result)) => call_result(result),
        _ => Step::Mismatch,
    }
}

/// The end of a request to the placement center: its error is handed on as it is.
pub open spec fn call_result<A, E>(result: Result<(), E>) -> Step<
    CallState,
    A,
    Option<CommonError<E>>,
> {
    Step::Answer(
        match result {
            Ok(_) => None,
            Err(e) => Some(CommonError::Call(e)),
        },
    )
}

/// One step in making the node known to the placement center. `config` names
/// the node and the placement center; `conf`, the configuration of the process,
/// has the node's addresses and directories.
pub fn register_journal_node<E>(
    conf: &JournalServerConfig,
    config: &JournalServerConfig,
    state: CallState,
    event: CallEvent<E>,
) -> (r: Step<CallState, RegisterAction, Result<(), CommonError<E>>>)
    ensures
        r.model() == register_step(*conf, *config, state, event),
{
    match (state, event) {
        (CallState::Start, CallEvent::Begin) => {
            let extend_info = match extend::to_json(&node_extend(conf)) {
                Ok(extend_info) => extend_info,
                Err(e) => {
                    return Step::Answer(Err(CommonError::SerdeJson(e)));
                },
            };
            let local_ip = conf.network.local_ip.clone();
            let node_inner_addr = text::address(local_ip.as_str(), conf.network.grpc_port);
            let request = RegisterNodeRequest {
                cluster_type: ClusterType::JournalServer,
                cluster_name: config.cluster_name.clone(),
                node_id: config.node_id,
                node_ip: local_ip,
                node_inner_addr,
                extend_info,
            };
            let placement_center = config.placement_center.clone();
            assert(placement_center@ =~= config.placement_center@);
            Step::Ask(CallState::Calling, RegisterAction { placement_center, request })
        },
        (CallState::Calling, CallEvent::Called(result)) => Step::Answer(
            match result {
                Ok(_) => Ok(()),
                Err(e) => Err(CommonError::Call(e)),
            },
        ),
        _ => Step::Mismatch,
    }
}

/// How a node asks to be taken out.
pub open spec fn unregistration(config: JournalServerConfig) -> UnRegisterNodeRequest {
    UnRegisterNodeRequest {
        cluster_type: ClusterType::JournalServer,
        cluster_name: config.cluster_name,
        node_id: config.node_id,
    }
}

/// One step of leaving a cluster.
pub open spec fn unregister_step<E>(
    config: JournalServerConfig,
    state: CallState,
    event: CallEvent<E>,
) -> Step<CallState, UnRegisterModel, Option<CommonError<E>>> {
    match (state, event) {
        (CallState::Start, CallEvent::Begin) => Step::Ask(
            CallState::Calling,
            UnRegisterModel {
                placement_center: config.placement_center@,
                request: unregistration(config),
            },
        ),
        (CallState::Calling, CallEvent::Called(result)) => call_result(result),
        _ => Step::Mismatch,
    }
}

/// One step in taking the node out of its cluster.
pub fn unregister_journal_node<E>(
    config: &JournalServerConfig,
    state: CallState,
    event: CallEvent<E>,
) -> (r: Step<CallState, UnRegisterAction, Result<(), CommonError<E>>>)
    ensures
        r.model() == unregister_step(*config, state, event),
{
    match (state, event) {
        (CallState::Start, CallEvent::Begin) => {
            let request = UnRegisterNodeRequest {
                cluster_type: ClusterType::JournalServer,
                cluster_name: config.cluster_name.clone(),
                node_id: config.node_id,
            };
            let placement_center = config.placement_center.clone();
            assert(placement_center@ =~= config.placement_center@);
            Step::Ask(CallState::Calling, UnRegisterAction { placement_center, request })
        },
        (CallState::Calling, CallEvent::Called(result)) => Step::Answer(
            match result {
                Ok(_) => Ok(()),
                Err(e) => Err(CommonError::Call(e)),
            },
        ),
        _ => Step::Mismatch,
    }
}

/// The run of joining a cluster over a sequence of events.
pub open spec fn register_run<E>(
    conf: JournalServerConfig,
    config: JournalServerConfig,
    events: Seq<CallEvent<E>>,
) -> Option<History<CallState, RegisterModel, Option<CommonError<E>>>> {
    machine::run(
        |state: CallState, event: CallEvent<E>| register_step(conf, config, state, event),
        CallState::Start,
        events,
    )
}

/// The run of leaving a cluster over a sequence of events.
pub open spec fn unregister_run<E>(
    config: JournalServerConfig,
    events: Seq<CallEvent<E>>,
) -> Option<History<CallState, UnRegisterModel, Option<CommonError<E>>>> {
    machine::run(
        |state: CallState, event: CallEvent<E>| unregister_step(config, state, event),
        CallState::Start,
        events,
    )
}

/// What the history of a single call looks like: the call is made once, and what
/// comes of it is the result.
pub open spec fn call_history<A, E>(
    call: A,
    events: Seq<CallEvent<E>>,
    actions: Seq<A>,
    progress: Progress<CallState, Option<CommonError<E>>>,
) -> bool {
    match progress {
        Progress::Waiting(CallState::Start) => events.len() == 0 && actions =~= Seq::empty(),
        Progress::Waiting(CallState::Calling) => {
            &&& events =~= seq![CallEvent::Begin]
            &&& actions =~= seq![call]
        },
        Progress::Answered(error) => {
            &&& events.len() == 2
            &&& events[0] is Begin
            &&& actions =~= seq![call]
            &&& match events[1] {
                CallEvent::Called(Ok(_)) => error is None,
                CallEvent::Called(Err(e)) => error == Some(CommonError::Call(e)),
                CallEvent::Begin => false,
            }
        },
    }
}

/// Joining makes one call, with the registration of the node, and fails exactly
/// if that call does, with the same error.
pub proof fn law_register_calls_once<E>(
    conf: JournalServerConfig,
    config: JournalServerConfig,
    events: Seq<CallEvent<E>>,
)
    ensures
        register_run(conf, config, events) matches Some(history) ==> call_history(
            RegisterModel {
                placement_center: config.placement_center@,
                request: registration(conf, config),
            },
            events,
            history.actions,
            history.progress,
        ),
{
    let step = |state: CallState, event: CallEvent<E>| register_step(conf, config, state, event);
    let call = RegisterModel {
        placement_center: config.placement_center@,
        request: registration(conf, config),
    };
    let inv = |
        es: Seq<CallEvent<E>>,
        acts: Seq<RegisterModel>,
        progress: Progress<CallState, Option<CommonError<E>>>,
    | call_history(call, es, acts, progress);
    assert forall|es: Seq<CallEvent<E>>, acts: Seq<RegisterModel>, s: CallState, e: CallEvent<E>|
        #[trigger] machine::kept_by_step(step, inv, es, acts, s, e) by {}
    machine::lemma_run_keeps(step, CallState::Start, events, inv);
}

/// Leaving makes one call, and fails exactly if that call does, with the same
/// error.
pub proof fn law_unregister_calls_once<E>(config: JournalServerConfig, events: Seq<CallEvent<E>>)
    ensures
        unregister_run(config, events) matches Some(history) ==> call_history(
            UnRegisterModel {
                placement_center: config.placement_center@,
                request: unregistration(config),
            },
            events,
            history.actions,
            history.progress,
        ),
{
    let step = |state: CallState, event: CallEvent<E>| unregister_step(config, state, event);
    let call = UnRegisterModel {
        placement_center: config.placement_center@,
        request: unregistration(config),
    };
    let inv = |
        es: Seq<CallEvent<E>>,
        acts: Seq<UnRegisterModel>,
        progress: Progress<CallState, Option<CommonError<E>>>,
    | call_history(call, es, acts, progress);
    assert forall|es: Seq<CallEvent<E>>, acts: Seq<UnRegisterModel>, s: CallState, e: CallEvent<E>|
        #[trigger] machine::kept_by_step(step, inv, es, acts, s, e) by {}
    machine::lemma_run_keeps(step, CallState::Start, events, inv);
}

/// Joining asks for one thing: that the placement center of `config` takes the
/// node in, as a journal server under the cluster name and the number of `config`,
/// at the address of the process and with its gRPC port as the inner address. What
/// the node tells of itself is a JSON object from which the directories of the
/// process and the addresses with its two public ports read back.
pub proof fn law_register_asks<E>(
    conf: JournalServerConfig,
    config: JournalServerConfig,
    events: Seq<CallEvent<E>>,
)
    requires
        register_run(conf, config, events) matches Some(history) && history.actions.len() > 0,
    ensures
        ({
            let actions = (register_run(conf, config, events)->0).actions;
            let request = actions[0].request;
            let net = conf.network;
            let paths = conf.storage.data_path@;
            &&& actions.len() == 1
            &&& actions[0].placement_center == config.placement_center@
            &&& request.cluster_type == ClusterType::JournalServer
            &&& request.cluster_name == config.cluster_name@
            &&& request.node_id == config.node_id
            &&& request.node_ip == net.local_ip@
            &&& text::names_address(request.node_inner_addr, net.local_ip@, net.grpc_port)
            &&& exists|parts: Seq<Seq<char>>, tcp: Seq<char>, tcps: Seq<char>|
                {
                    &&& request.extend_info == "{\"data_fold\":["@
                        + #[trigger] extend::quoted_parts(parts) + "],\"tcp_addr\":"@ + (seq!['"']
                        + tcp + seq!['"']) + ",\"tcps_addr\":"@ + (seq!['"'] + tcps + seq!['"'])
                        + "}"@
                    &&& parts.len() == paths.len()
                    &&& forall|i: int|
                        0 <= i < parts.len() ==> extend::read_json_text(#[trigger] parts[i])
                            == Some(paths[i]@)
                    &&& #[trigger] extend::read_json_text(tcp) matches Some(tcp_addr)
                    &&& text::names_address(tcp_addr, net.local_ip@, net.tcp_port)
                    &&& #[trigger] extend::read_json_text(tcps) matches Some(tcps_addr)
                    &&& text::names_address(tcps_addr, net.local_ip@, net.tcps_port)
                }
        }),
{
    law_register_calls_once(conf, config, events);
    let net = conf.network;
    text::law_address_reads_back(net.local_ip@, net.grpc_port);
    text::law_address_reads_back(net.local_ip@, net.tcp_port);
    text::law_address_reads_back(net.local_ip@, net.tcps_port);
    extend::law_object_reads_back(
        conf.storage.data_path@,
        text::address_text(net.local_ip@, net.tcp_port),
        text::address_text(net.local_ip@, net.tcps_port),
    );
}

/// Two processes at the same address that differ in their gRPC ports register
/// different inner addresses.
pub proof fn law_inner_addresses_differ<E>(
    conf: JournalServerConfig,
    other: JournalServerConfig,
    config: JournalServerConfig,
    events: Seq<CallEvent<E>>,
)
    requires
        conf.network.local_ip == other.network.local_ip,
        conf.network.grpc_port != other.network.grpc_port,
        register_run(conf, config, events) matches Some(history) && history.actions.len() > 0,
        register_run(other, config, events) matches Some(history) && history.actions.len() > 0,
    ensures
        (register_run(conf, config, events)->0).actions[0].request.node_inner_addr != (
        register_run(other, config, events)->0).actions[0].request.node_inner_addr,
{
    law_register_asks(conf, config, events);
    law_register_asks(other, config, events);
}

/// Joining first begins and then takes what came of its call, which is its result:
/// no error if the call succeeded, and otherwise the error of the call itself.
pub proof fn law_register_tells<E>(
    conf: JournalServerConfig,
    config: JournalServerConfig,
    events: Seq<CallEvent<E>>,
)
    ensures
        register_run(conf, config, events) is Some <==> {
            &&& events.len() <= 2
            &&& events.len() > 0 ==> events[0] is Begin
            &&& events.len() > 1 ==> events[1] is Called
        },
        register_run(conf, config, events) matches Some(history) ==> {
            &&& history.actions.len() == if events.len() == 0 {
                0int
            } else {
                1int
            }
            &&& history.progress is Answered <==> events.len() == 2
            &&& events.len() == 2 ==> match events[1] {
                CallEvent::Called(Ok(_)) => history.progress->Answered_0 is None,
                CallEvent::Called(Err(e)) => history.progress->Answered_0 == Some(
                    CommonError::Call(e),
                ),
                CallEvent::Begin => false,
            }
        },
{
    let step = |state: CallState, event: CallEvent<E>| register_step(conf, config, state, event);
    let n = events.len() as int;
    law_register_calls_once(conf, config, events);
    reveal_with_fuel(machine::run, 4);
    if n == 1 || n == 2 {
        assert(events.drop_last().len() == n - 1);
    }
    if register_run(conf, config, events) is Some && n > 0 {
        machine::lemma_run_prefix(step, CallState::Start, events, n - 1);
        law_register_calls_once(conf, config, events.take(n - 1));
    }
}

/// Leaving asks for one thing: that the placement center takes the node out, as a
/// journal server under its cluster name and number.
pub proof fn law_unregister_asks<E>(config: JournalServerConfig, events: Seq<CallEvent<E>>)
    requires
        unregister_run(config, events) matches Some(history) && history.actions.len() > 0,
    ensures
        ({
            let actions = (unregister_run(config, events)->0).actions;
            let request = actions[0].request;
            &&& actions.len() == 1
            &&& actions[0].placement_center == config.placement_center@
            &&& request.cluster_type == ClusterType::JournalServer
            &&& request.cluster_name == config.cluster_name
            &&& request.node_id == config.node_id
        }),
{
    law_unregister_calls_once(config, events);
}

/// Leaving first begins and then takes what came of its call, which is its result:
/// no error if the call succeeded, and otherwise the error of the call itself.
pub proof fn law_unregister_tells<E>(config: JournalServerConfig, events: Seq<CallEvent<E>>)
    ensures
        unregister_run(config, events) is Some <==> {
            &&& events.len() <= 2
            &&& events.len() > 0 ==> events[0] is Begin
            &&& events.len() > 1 ==> events[1] is Called
        },
        unregister_run(config, events) matches Some(history) ==> {
            &&& history.actions.len() == if events.len() == 0 {
                0int
            } else {
                1int
            }
            &&& history.progress is Answered <==> events.len() == 2
            &&& events.len() == 2 ==> match events[1] {
                CallEvent::Called(Ok(_)) => history.progress->Answered_0 is None,
                CallEvent::Called(Err(e)) => history.progress->Answered_0 == Some(
                    CommonError::Call(e),
                ),
                CallEvent::Begin => false,
            }
        },
{
    let step = |state: CallState, event: CallEvent<E>| unregister_step(config, state, event);
    let n = events.len() as int;
    law_unregister_calls_once(config, events);
    reveal_with_fuel(machine::run, 4);
    if n == 1 || n == 2 {
        assert(events.drop_last().len() == n - 1);
    }
    if unregister_run(config, events) is Some && n > 0 {
        machine::lemma_run_prefix(step, CallState::Start, events, n - 1);
        law_unregister_calls_once(config, events.take(n - 1));
    }
}

/// What a node tells of itself has the directories of its configuration, and the
/// addresses with its two public ports.
pub proof fn law_extend_of(extend: JournalNodeExtend, conf: JournalServerConfig)
    requires
        is_extend_of(extend, conf),
    ensures
        extend.data_fold@ == conf.storage.data_path@,
        text::names_address(extend.tcp_addr@, conf.network.local_ip@, conf.network.tcp_port),
        text::names_address(extend.tcps_addr@, conf.network.local_ip@, conf.network.tcps_port),
{
    text::law_address_reads_back(conf.network.local_ip@, conf.network.tcp_port);
    text::law_address_reads_back(conf.network.local_ip@, conf.network.tcps_port);
}

/// The models of calls have their addresses and requests, and the model of a result
/// is its error.
pub proof fn law_call_models<E>(
    joins: RegisterAction,
    leaves: UnRegisterAction,
    result: Result<(), CommonError<E>>,
)
    ensures
        joins.model().placement_center == joins.placement_center@,
        joins.model().request == joins.request@,
        leaves.model().placement_center == leaves.placement_center@,
        leaves.model().request == leaves.request,
        match result {
            Ok(_) => result.model() is None,
            Err(e) => result.model() == Some(e),
        },
{
}

} // verus!
