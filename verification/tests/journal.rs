//! The reporting of a node, step by step.

use robustmq_handlers::journal::heartbeat::{
    is_unknown_node, report_report0, RoundAction, RoundEvent, RoundState,
};
use robustmq_handlers::journal::register::{
    node_extend, register_journal_node, unregister_journal_node, CallEvent, CallState, CommonError,
    RegisterAction,
};
use robustmq_handlers::journal::text::{address, contains, decimal};
use robustmq_handlers::journal::types::{
    ClusterType, HeartbeatRequest, JournalServerConfig, Network, RegisterNodeRequest, Storage,
    UnRegisterNodeRequest,
};
use robustmq_handlers::journal::watch::{
    report_heartbeat, report_monitor, report_monitor0, WatchAction, WatchEvent, WatchState,
};
use robustmq_handlers::machine::Step;

fn config(cluster_name: &str, local_ip: &str, data_path: &[&str]) -> JournalServerConfig {
    JournalServerConfig {
        cluster_name: cluster_name.to_string(),
        node_id: 12,
        placement_center: vec!["127.0.0.1:1228".to_string(), "127.0.0.1:2228".to_string()],
        network: Network {
            local_ip: local_ip.to_string(),
            grpc_port: 0,
            tcp_port: 3110,
            tcps_port: 4294967295,
        },
        storage: Storage { data_path: data_path.iter().map(|p| p.to_string()).collect() },
    }
}

fn registering(conf: &JournalServerConfig, config: &JournalServerConfig) -> RegisterAction {
    match register_journal_node::<String>(conf, config, CallState::Start, CallEvent::Begin) {
        Step::Ask(CallState::Calling, action) => action,
        _ => panic!("no call"),
    }
}

#[test]
fn decimal_has_no_leading_zeros() {
    for n in [0u32, 1, 9, 10, 99, 100, 3110, 65535, 4294967295] {
        assert_eq!(decimal(n), n.to_string());
    }
}

#[test]
fn address_joins_host_and_port() {
    assert_eq!(address("127.0.0.1", 2228), "127.0.0.1:2228");
    assert_eq!(address("", 0), ":0");
}

#[test]
fn contains_finds_a_phrase_anywhere() {
    assert!(contains("Node 1 does not exist", "Node"));
    assert!(contains("Node 1 does not exist", "exist"));
    assert!(contains("Node 1 does not exist", "1 does"));
    assert!(contains("aab", "ab"));
    assert!(contains("\u{e9}t\u{e9}", "t\u{e9}"));
    assert!(contains("", ""));
    assert!(contains("x", ""));
    assert!(!contains("Node", "node"));
    assert!(!contains("No", "Node"));
    assert!(!contains("aba", "bb"));
}

#[test]
fn unknown_node_needs_both_phrases() {
    assert!(is_unknown_node("Node 3 does not exist"));
    assert!(is_unknown_node("does not exist: Node"));
    assert!(!is_unknown_node("Node 3 is down"));
    assert!(!is_unknown_node("cluster does not exist"));
    assert!(!is_unknown_node(""));
}

#[test]
fn node_extend_has_both_public_addresses() {
    let extend = node_extend(&config("c", "10.0.0.5", &["/d1", "/d2"]));
    assert_eq!(extend.data_fold, vec!["/d1".to_string(), "/d2".to_string()]);
    assert_eq!(extend.tcp_addr, "10.0.0.5:3110");
    assert_eq!(extend.tcps_addr, "10.0.0.5:4294967295");
}

#[test]
fn register_takes_the_name_from_one_and_the_addresses_from_the_other() {
    let conf = config("process", "10.0.0.5", &["/d1", "/d2"]);
    let mut named = config("given", "10.9.9.9", &["/other"]);
    named.node_id = 99;
    named.placement_center = vec!["pc:1".to_string()];
    let action = registering(&conf, &named);
    assert_eq!(action.placement_center, vec!["pc:1".to_string()]);
    assert_eq!(
        action.request,
        RegisterNodeRequest {
            cluster_type: ClusterType::JournalServer,
            cluster_name: "given".to_string(),
            node_id: 99,
            node_ip: "10.0.0.5".to_string(),
            node_inner_addr: "10.0.0.5:0".to_string(),
            extend_info: "{\"data_fold\":[\"/d1\",\"/d2\"],\"tcp_addr\":\"10.0.0.5:3110\",\
                          \"tcps_addr\":\"10.0.0.5:4294967295\"}"
                .to_string(),
        }
    );
}

#[test]
fn register_writes_empty_and_single_lists() {
    let conf = config("c", "h", &[]);
    assert_eq!(
        registering(&conf, &conf).request.extend_info,
        "{\"data_fold\":[],\"tcp_addr\":\"h:3110\",\"tcps_addr\":\"h:4294967295\"}"
    );
    let conf = config("c", "h", &["one"]);
    assert_eq!(
        registering(&conf, &conf).request.extend_info,
        "{\"data_fold\":[\"one\"],\"tcp_addr\":\"h:3110\",\"tcps_addr\":\"h:4294967295\"}"
    );
}

#[test]
fn register_escapes_what_json_escapes() {
    let path = "\"\\/\u{8}\t\n\u{c}\r\u{0}\u{1f}\u{7f}\u{e9}\u{1f600}";
    let conf = config("c", "h", &[path]);
    assert_eq!(
        registering(&conf, &conf).request.extend_info,
        "{\"data_fold\":[\"\\\"\\\\/\\b\\t\\n\\f\\r\\u0000\\u001f\u{7f}\u{e9}\u{1f600}\"],\
         \"tcp_addr\":\"h:3110\",\"tcps_addr\":\"h:4294967295\"}"
    );
    for code in 0u32..0x20 {
        let c = char::from_u32(code).unwrap();
        let conf = config("c", "h", &[&c.to_string()]);
        let expected = match c {
            '\u{8}' => "\\b".to_string(),
            '\t' => "\\t".to_string(),
            '\n' => "\\n".to_string(),
            '\u{c}' => "\\f".to_string(),
            '\r' => "\\r".to_string(),
            _ => format!("\\u00{:02x}", code),
        };
        assert!(registering(&conf, &conf)
            .request
            .extend_info
            .starts_with(&format!("{{\"data_fold\":[\"{}\"]", expected)));
    }
}

#[test]
fn extend_info_reads_back() {
    let conf = config("c", "h\"\u{1}", &["/a b", "\\c"]);
    let text = registering(&conf, &conf).request.extend_info;
    let value: serde_json::Value = serde_json::from_str(&text).unwrap();
    let extend = node_extend(&conf);
    assert_eq!(value["data_fold"][0], "/a b");
    assert_eq!(value["data_fold"][1], "\\c");
    assert_eq!(value["tcp_addr"], extend.tcp_addr.as_str());
    assert_eq!(value["tcps_addr"], extend.tcps_addr.as_str());
}

/// An error of a placement center, of which the handlers know nothing.
#[derive(Debug, PartialEq)]
enum Refusal {
    Unreachable(u16),
    Denied,
}

#[test]
fn register_and_unregister_hand_failures_on() {
    let conf = config("c", "h", &[]);
    let done = register_journal_node::<Refusal>(
        &conf,
        &conf,
        CallState::Calling,
        CallEvent::Called(Ok(())),
    );
    assert!(matches!(done, Step::Answer(Ok(()))));
    let failed = register_journal_node(
        &conf,
        &conf,
        CallState::Calling,
        CallEvent::Called(Err(Refusal::Unreachable(503))),
    );
    assert!(matches!(failed, Step::Answer(Err(CommonError::Call(Refusal::Unreachable(503))))));
    let done =
        unregister_journal_node::<Refusal>(&conf, CallState::Calling, CallEvent::Called(Ok(())));
    assert!(matches!(done, Step::Answer(Ok(()))));
    let failed = unregister_journal_node(
        &conf,
        CallState::Calling,
        CallEvent::Called(Err(Refusal::Denied)),
    );
    assert!(matches!(failed, Step::Answer(Err(CommonError::Call(Refusal::Denied)))));
    let wrong =
        register_journal_node::<Refusal>(&conf, &conf, CallState::Calling, CallEvent::Begin);
    assert!(matches!(wrong, Step::Mismatch));
    let wrong =
        unregister_journal_node::<Refusal>(&conf, CallState::Start, CallEvent::Called(Ok(())));
    assert!(matches!(wrong, Step::Mismatch));
}

#[test]
fn unregister_names_the_node() {
    let conf = config("c", "h", &[]);
    match unregister_journal_node::<Refusal>(&conf, CallState::Start, CallEvent::Begin) {
        Step::Ask(CallState::Calling, action) => {
            assert_eq!(action.placement_center, conf.placement_center);
            assert_eq!(
                action.request,
                UnRegisterNodeRequest {
                    cluster_type: ClusterType::JournalServer,
                    cluster_name: "c".to_string(),
                    node_id: 12,
                }
            );
        }
        _ => panic!("no call"),
    }
}

fn round(config: &JournalServerConfig, events: Vec<RoundEvent>) -> (Vec<RoundAction>, bool) {
    let mut state = RoundState::Start;
    let mut actions = Vec::new();
    for event in events {
        match report_report0(config, state, event) {
            Step::Ask(next, action) => {
                state = next;
                actions.push(action);
            }
            Step::Answer(()) => return (actions, true),
            Step::Mismatch => panic!("the event does not fit"),
        }
    }
    (actions, false)
}

fn sign_of_life(config: &JournalServerConfig) -> RoundAction {
    RoundAction::Heartbeat {
        placement_center: config.placement_center.clone(),
        request: HeartbeatRequest {
            cluster_name: config.cluster_name.clone(),
            cluster_type: ClusterType::JournalServer,
            node_id: 12,
        },
    }
}

#[test]
fn round_reports_and_pauses() {
    let conf = config("c", "h", &[]);
    for reported in [Ok(()), Err("connection refused".to_string())] {
        let (actions, over) = round(
            &conf,
            vec![RoundEvent::Begin, RoundEvent::Reported(reported), RoundEvent::Slept],
        );
        assert_eq!(actions, vec![sign_of_life(&conf), RoundAction::Sleep { seconds: 1 }]);
        assert!(over);
    }
}

#[test]
fn round_registers_an_unknown_node_again() {
    let conf = config("c", "h", &["/d"]);
    for registered in [Ok(()), Err("down".to_string())] {
        let (actions, over) = round(
            &conf,
            vec![
                RoundEvent::Begin,
                RoundEvent::Reported(Err("Node 12 does not exist".to_string())),
                RoundEvent::Registered(registered),
                RoundEvent::Slept,
            ],
        );
        assert_eq!(
            actions,
            vec![
                sign_of_life(&conf),
                RoundAction::Register(registering(&conf, &conf)),
                RoundAction::Sleep { seconds: 1 },
            ]
        );
        assert!(over);
    }
    assert_eq!(report_report0(&conf, RoundState::Start, RoundEvent::Slept), Step::Mismatch);
}

#[test]
fn heartbeat_loop_stops_on_the_stop_signal_only() {
    let first = report_heartbeat(WatchState::Start, WatchEvent::Begin);
    assert_eq!(first, Step::Ask(WatchState::Sleeping, WatchAction::Sleep { seconds: 10 }));
    let again = Step::Ask(WatchState::Racing, WatchAction::Race);
    assert_eq!(report_heartbeat(WatchState::Sleeping, WatchEvent::Slept), again);
    for event in
        [WatchEvent::RoundDone, WatchEvent::Signal(Some(false)), WatchEvent::Signal(None)]
    {
        assert_eq!(report_heartbeat(WatchState::Racing, event), again);
        assert_eq!(report_monitor(WatchState::Racing, event), again);
    }
    let stop = WatchEvent::Signal(Some(true));
    assert_eq!(report_heartbeat(WatchState::Racing, stop), Step::Answer(()));
    assert_eq!(report_monitor(WatchState::Racing, stop), Step::Answer(()));
    assert_eq!(report_heartbeat(WatchState::Sleeping, stop), Step::Mismatch);
}

#[test]
fn monitor_loop_starts_at_once() {
    assert_eq!(
        report_monitor(WatchState::Start, WatchEvent::Begin),
        Step::Ask(WatchState::Racing, WatchAction::Race)
    );
    assert_eq!(
        report_monitor0(WatchState::Start, WatchEvent::Begin),
        Step::Ask(WatchState::Sleeping, WatchAction::Sleep { seconds: 1 })
    );
    assert_eq!(report_monitor0(WatchState::Sleeping, WatchEvent::Slept), Step::Answer(()));
    assert_eq!(report_monitor0(WatchState::Racing, WatchEvent::Slept), Step::Mismatch);
}
