use hugill::bindings::{BindingStore, WorkspaceBinding};
use hugill::labels::Labels;
use hugill::pods::{ContainerReport, RawPod, ReportedState, RunState};
use hugill::watcher::{
    setup_failure_message, ConnectStep, Phase, Watcher, WatcherAction, WatcherEvent,
};

fn labels_of(pairs: &[(&str, &str)]) -> Labels {
    let mut labels = Labels::new();
    for (key, value) in pairs {
        labels.insert(key.to_string(), value.to_string());
    }
    labels
}

fn running_pod(name: &str, container: &str, labels: &[(&str, &str)]) -> RawPod {
    RawPod {
        name: name.to_string(),
        labels: Some(labels_of(labels)),
        containers: Some(vec![container.to_string()]),
        container_statuses: Some(vec![ContainerReport {
            state: Some(ReportedState { running: true, waiting: false, terminated: false }),
        }]),
    }
}

fn listing_watcher(namespace: Option<&str>, msec: u64) -> Watcher {
    let mut watcher = Watcher::new(namespace.map(|n| n.to_string()), msec);
    let action =
        watcher.step(WatcherEvent::ConfigRead { current_context: Some("ctx".to_string()) });
    assert!(matches!(action, WatcherAction::Connect { ref context } if context == "ctx"));
    let action =
        watcher.step(WatcherEvent::Connected { default_namespace: "default".to_string() });
    assert!(matches!(action, WatcherAction::ListPods { .. }));
    watcher
}

#[test]
fn new_watcher_is_starting() {
    let watcher = Watcher::new(None, 5000);
    assert_eq!(watcher.phase(), Phase::Starting);
    assert_eq!(watcher.poll_interval_msec(), 5000);
    assert_eq!(watcher.context(), "");
    assert_eq!(watcher.namespace(), "");
}

#[test]
fn start_connect_and_first_list() {
    let mut watcher = Watcher::new(None, 250);
    let action =
        watcher.step(WatcherEvent::ConfigRead { current_context: Some("ctx".to_string()) });
    match action {
        WatcherAction::Connect { context } => assert_eq!(context, "ctx"),
        other => panic!("unexpected action {:?}", other),
    }
    assert_eq!(watcher.phase(), Phase::Connecting);
    assert_eq!(watcher.context(), "ctx");
    let action =
        watcher.step(WatcherEvent::Connected { default_namespace: "default".to_string() });
    match action {
        WatcherAction::ListPods { namespace } => assert_eq!(namespace, "default"),
        other => panic!("unexpected action {:?}", other),
    }
    assert_eq!(watcher.phase(), Phase::Listing);
    assert_eq!(watcher.namespace(), "default");
}

#[test]
fn configured_namespace_wins_over_the_default() {
    let watcher = listing_watcher(Some("dev"), 100);
    assert_eq!(watcher.namespace(), "dev");
}

#[test]
fn missing_current_context_is_fatal() {
    let mut watcher = Watcher::new(None, 5000);
    match watcher.step(WatcherEvent::ConfigRead { current_context: None }) {
        WatcherAction::Fail { message } => assert_eq!(message, "no current context"),
        other => panic!("unexpected action {:?}", other),
    }
    assert_eq!(watcher.phase(), Phase::Failed);
}

#[test]
fn unreadable_config_is_fatal_with_its_message() {
    let mut watcher = Watcher::new(None, 5000);
    match watcher.step(WatcherEvent::ConfigUnreadable { message: "no such file".to_string() }) {
        WatcherAction::Fail { message } => assert_eq!(message, "no such file"),
        other => panic!("unexpected action {:?}", other),
    }
    assert_eq!(watcher.phase(), Phase::Failed);
}

#[test]
fn connect_failures_are_fatal() {
    for (step, expected) in [
        (ConnectStep::Credentials, "failed to load kubeconfig"),
        (ConnectStep::Client, "failed to load config for k8s"),
    ] {
        let mut watcher = Watcher::new(None, 5000);
        watcher.step(WatcherEvent::ConfigRead { current_context: Some("ctx".to_string()) });
        match watcher.step(WatcherEvent::ConnectFailed { step }) {
            WatcherAction::Fail { message } => assert_eq!(message, expected),
            other => panic!("unexpected action {:?}", other),
        }
        assert_eq!(watcher.phase(), Phase::Failed);
    }
}

#[test]
fn failed_watcher_never_polls() {
    let mut watcher = Watcher::new(None, 5000);
    watcher.step(WatcherEvent::ConfigRead { current_context: None });
    let events = vec![
        WatcherEvent::Connected { default_namespace: "default".to_string() },
        WatcherEvent::Listed { pods: vec![], store: BindingStore::new() },
        WatcherEvent::ListFailed { message: "x".to_string() },
        WatcherEvent::Slept,
        WatcherEvent::ConfigRead { current_context: Some("ctx".to_string()) },
        WatcherEvent::Cancelled,
    ];
    for event in events {
        assert!(matches!(watcher.step(event), WatcherAction::Nothing));
        assert_eq!(watcher.phase(), Phase::Failed);
    }
}

#[test]
fn setup_failure_message_has_the_prefix() {
    assert_eq!(
        setup_failure_message("no current context"),
        "Failed to setup containers watcher: no current context"
    );
    assert_eq!(setup_failure_message(""), "Failed to setup containers watcher: ");
}

#[test]
fn successful_tick_emits_status_then_sleeps() {
    let mut watcher = listing_watcher(None, 750);
    let store = BindingStore::load(Some(vec![WorkspaceBinding {
        context: "ctx".to_string(),
        namespace: "default".to_string(),
        container_name: "c1".to_string(),
        workspace_folder: "/ws/proj".to_string(),
        labels: labels_of(&[("app", "x")]),
    }]));
    let pods = vec![
        running_pod("p1", "c1", &[("app", "x"), ("pod-template-hash", "abc")]),
        running_pod("p2", "c2", &[("app", "x")]),
    ];
    match watcher.step(WatcherEvent::Listed { pods, store }) {
        WatcherAction::EmitStatus { status, sleep_msec } => {
            assert_eq!(sleep_msec, 750);
            assert_eq!(status.context, "ctx");
            assert_eq!(status.namespace, "default");
            assert_eq!(status.pods.len(), 2);
            assert_eq!(status.pods[0].name, "p1");
            assert_eq!(status.pods[0].status, RunState::Running);
            assert_eq!(status.pods[0].workspace_folder, Some("/ws/proj".to_string()));
            assert_eq!(status.pods[1].name, "p2");
            assert_eq!(status.pods[1].workspace_folder, None);
        }
        other => panic!("unexpected action {:?}", other),
    }
    assert_eq!(watcher.phase(), Phase::Sleeping);
    match watcher.step(WatcherEvent::Slept) {
        WatcherAction::ListPods { namespace } => assert_eq!(namespace, "default"),
        other => panic!("unexpected action {:?}", other),
    }
    assert_eq!(watcher.phase(), Phase::Listing);
}

#[test]
fn unchanged_listing_is_emitted_every_tick() {
    let mut watcher = listing_watcher(None, 10);
    for _ in 0..3 {
        let pods = vec![running_pod("p1", "c1", &[])];
        let action = watcher.step(WatcherEvent::Listed { pods, store: BindingStore::new() });
        assert!(matches!(action, WatcherAction::EmitStatus { sleep_msec: 10, .. }));
        assert!(matches!(watcher.step(WatcherEvent::Slept), WatcherAction::ListPods { .. }));
    }
}

#[test]
fn failed_list_call_emits_only_an_error() {
    let mut watcher = listing_watcher(None, 5000);
    match watcher.step(WatcherEvent::ListFailed { message: "ApiError: forbidden".to_string() }) {
        WatcherAction::EmitError { message, sleep_msec } => {
            assert_eq!(message, "ApiError: forbidden");
            assert_eq!(sleep_msec, 5000);
        }
        other => panic!("unexpected action {:?}", other),
    }
    assert_eq!(watcher.phase(), Phase::Sleeping);
}

#[test]
fn consecutive_failures_emit_one_error_each_and_keep_polling() {
    let n = 7;
    let mut watcher = listing_watcher(Some("dev"), 1234);
    let mut errors = 0;
    let mut statuses = 0;
    let mut list_calls = 1;
    for i in 0..n {
        match watcher.step(WatcherEvent::ListFailed { message: format!("failure {}", i) }) {
            WatcherAction::EmitError { message, sleep_msec } => {
                assert_eq!(message, format!("failure {}", i));
                assert_eq!(sleep_msec, 1234);
                errors += 1;
            }
            WatcherAction::EmitStatus { .. } => statuses += 1,
            other => panic!("unexpected action {:?}", other),
        }
        match watcher.step(WatcherEvent::Slept) {
            WatcherAction::ListPods { namespace } => {
                assert_eq!(namespace, "dev");
                list_calls += 1;
            }
            other => panic!("unexpected action {:?}", other),
        }
    }
    assert_eq!(errors, n);
    assert_eq!(statuses, 0);
    assert_eq!(list_calls, n + 1);
    assert_eq!(watcher.phase(), Phase::Listing);
}

#[test]
fn polling_recovers_after_a_failure() {
    let mut watcher = listing_watcher(None, 5);
    watcher.step(WatcherEvent::ListFailed { message: "down".to_string() });
    watcher.step(WatcherEvent::Slept);
    let action = watcher.step(WatcherEvent::Listed { pods: vec![], store: BindingStore::new() });
    match action {
        WatcherAction::EmitStatus { status, .. } => assert_eq!(status.pods.len(), 0),
        other => panic!("unexpected action {:?}", other),
    }
}

#[test]
fn cancelled_watcher_emits_nothing_more() {
    let mut watcher = listing_watcher(None, 5);
    assert!(matches!(watcher.step(WatcherEvent::Cancelled), WatcherAction::Nothing));
    assert_eq!(watcher.phase(), Phase::Stopped);
    let events = vec![
        WatcherEvent::Listed { pods: vec![running_pod("p", "c", &[])], store: BindingStore::new() },
        WatcherEvent::ListFailed { message: "x".to_string() },
        WatcherEvent::Slept,
        WatcherEvent::Cancelled,
    ];
    for event in events {
        assert!(matches!(watcher.step(event), WatcherAction::Nothing));
        assert_eq!(watcher.phase(), Phase::Stopped);
    }
}

#[test]
fn cancel_works_in_every_live_phase() {
    let mut starting = Watcher::new(None, 5);
    starting.step(WatcherEvent::Cancelled);
    assert_eq!(starting.phase(), Phase::Stopped);

    let mut connecting = Watcher::new(None, 5);
    connecting.step(WatcherEvent::ConfigRead { current_context: Some("ctx".to_string()) });
    connecting.step(WatcherEvent::Cancelled);
    assert_eq!(connecting.phase(), Phase::Stopped);

    let mut sleeping = listing_watcher(None, 5);
    sleeping.step(WatcherEvent::ListFailed { message: "x".to_string() });
    sleeping.step(WatcherEvent::Cancelled);
    assert_eq!(sleeping.phase(), Phase::Stopped);
}

#[test]
fn unexpected_events_change_nothing() {
    let mut watcher = Watcher::new(None, 5);
    assert!(matches!(watcher.step(WatcherEvent::Slept), WatcherAction::Nothing));
    assert_eq!(watcher.phase(), Phase::Starting);
    assert!(matches!(
        watcher.step(WatcherEvent::Listed { pods: vec![], store: BindingStore::new() }),
        WatcherAction::Nothing
    ));
    assert_eq!(watcher.phase(), Phase::Starting);

    let mut listing = listing_watcher(None, 5);
    assert!(matches!(listing.step(WatcherEvent::Slept), WatcherAction::Nothing));
    assert_eq!(listing.phase(), Phase::Listing);
    listing.step(WatcherEvent::ListFailed { message: "x".to_string() });
    assert!(matches!(
        listing.step(WatcherEvent::ListFailed { message: "y".to_string() }),
        WatcherAction::Nothing
    ));
    assert_eq!(listing.phase(), Phase::Sleeping);
}
