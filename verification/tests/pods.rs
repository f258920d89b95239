use hugill::bindings::{BindingStore, WorkspaceBinding};
use hugill::labels::Labels;
use hugill::pods::{ClusterStatus, ContainerReport, PodStatus, RawPod, ReportedState, RunState};

fn labels_of(pairs: &[(&str, &str)]) -> Labels {
    let mut labels = Labels::new();
    for (key, value) in pairs {
        labels.insert(key.to_string(), value.to_string());
    }
    labels
}

fn report(running: bool, waiting: bool, terminated: bool) -> ContainerReport {
    ContainerReport { state: Some(ReportedState { running, waiting, terminated }) }
}

fn raw_pod(name: &str, containers: &[&str], labels: &[(&str, &str)]) -> RawPod {
    RawPod {
        name: name.to_string(),
        labels: Some(labels_of(labels)),
        containers: Some(containers.iter().map(|c| c.to_string()).collect()),
        container_statuses: Some(vec![report(true, false, false)]),
    }
}

#[test]
fn snapshot_takes_the_first_container() {
    let pod = raw_pod("p1", &["main", "sidecar"], &[("app", "x")]);
    let status = PodStatus::from_raw(&pod);
    assert_eq!(status.name, "p1");
    assert_eq!(status.container_name, Some("main".to_string()));
    assert_eq!(status.status, RunState::Running);
    assert_eq!(status.labels.len(), 1);
    assert_eq!(status.labels.get("app"), Some(&"x".to_string()));
    assert_eq!(status.workspace_folder, None);
}

#[test]
fn pod_without_spec_has_no_container_name() {
    let pod = RawPod {
        name: "p".to_string(),
        labels: None,
        containers: None,
        container_statuses: None,
    };
    let status = PodStatus::from_raw(&pod);
    assert_eq!(status.container_name, None);
    assert_eq!(status.status, RunState::Unknown);
    assert_eq!(status.labels.len(), 0);
}

#[test]
fn pod_with_empty_container_list_has_no_container_name() {
    let pod = raw_pod("p", &[], &[]);
    assert_eq!(pod.first_container(), None);
    assert_eq!(PodStatus::from_raw(&pod).container_name, None);
}

#[test]
fn state_follows_the_first_status_only() {
    let mut pod = raw_pod("p", &["c"], &[]);
    pod.container_statuses = Some(vec![report(false, true, false), report(true, false, false)]);
    assert_eq!(pod.state(), RunState::Waiting);
    pod.container_statuses = Some(vec![report(false, false, true), report(true, false, false)]);
    assert_eq!(pod.state(), RunState::Terminated);
    pod.container_statuses = Some(vec![report(false, false, false), report(true, false, false)]);
    assert_eq!(pod.state(), RunState::Unknown);
}

#[test]
fn state_precedence_is_running_waiting_terminated() {
    assert_eq!(
        RunState::from_reported(&ReportedState { running: true, waiting: true, terminated: true }),
        RunState::Running
    );
    assert_eq!(
        RunState::from_reported(&ReportedState { running: false, waiting: true, terminated: true }),
        RunState::Waiting
    );
    assert_eq!(
        RunState::from_reported(&ReportedState {
            running: false,
            waiting: false,
            terminated: true
        }),
        RunState::Terminated
    );
    assert_eq!(
        RunState::from_reported(&ReportedState {
            running: false,
            waiting: false,
            terminated: false
        }),
        RunState::Unknown
    );
}

#[test]
fn missing_status_or_state_is_unknown() {
    let mut pod = raw_pod("p", &["c"], &[]);
    pod.container_statuses = None;
    assert_eq!(pod.state(), RunState::Unknown);
    pod.container_statuses = Some(vec![]);
    assert_eq!(pod.state(), RunState::Unknown);
    pod.container_statuses = Some(vec![ContainerReport { state: None }]);
    assert_eq!(pod.state(), RunState::Unknown);
}

#[test]
fn state_names_round_trip() {
    for state in [RunState::Running, RunState::Waiting, RunState::Terminated, RunState::Unknown] {
        assert_eq!(RunState::from_name(state.as_str()), state);
    }
    assert_eq!(RunState::Running.as_str(), "Running");
    assert_eq!(RunState::Waiting.as_str(), "Waiting");
    assert_eq!(RunState::Terminated.as_str(), "Terminated");
    assert_eq!(RunState::Unknown.as_str(), "Unknown");
    assert_eq!(RunState::from_name("running"), RunState::Unknown);
    assert_eq!(RunState::from_name(""), RunState::Unknown);
}

#[test]
fn resolve_fills_the_folder_of_a_matching_binding() {
    let store = BindingStore::load(Some(vec![WorkspaceBinding {
        context: "ctx".to_string(),
        namespace: "ns".to_string(),
        container_name: "main".to_string(),
        workspace_folder: "/ws/proj".to_string(),
        labels: labels_of(&[("app", "x")]),
    }]));
    let hit = PodStatus::from_raw(&raw_pod("p1", &["main"], &[("app", "x"), ("v", "1")]))
        .resolve(&store, "ctx", "ns");
    assert_eq!(hit.workspace_folder, Some("/ws/proj".to_string()));
    assert_eq!(hit.name, "p1");
    assert_eq!(hit.container_name, Some("main".to_string()));
    assert_eq!(hit.labels.len(), 2);
    let miss = PodStatus::from_raw(&raw_pod("p2", &["main"], &[("app", "y")]))
        .resolve(&store, "ctx", "ns");
    assert_eq!(miss.workspace_folder, None);
    let elsewhere = PodStatus::from_raw(&raw_pod("p1", &["main"], &[("app", "x")]))
        .resolve(&store, "ctx", "other");
    assert_eq!(elsewhere.workspace_folder, None);
}

#[test]
fn pod_without_container_name_never_resolves() {
    let store = BindingStore::load(Some(vec![WorkspaceBinding {
        context: "ctx".to_string(),
        namespace: "ns".to_string(),
        container_name: "".to_string(),
        workspace_folder: "/ws/proj".to_string(),
        labels: Labels::new(),
    }]));
    let pod = PodStatus::from_raw(&raw_pod("p", &[], &[])).resolve(&store, "ctx", "ns");
    assert_eq!(pod.workspace_folder, None);
}

#[test]
fn resolving_twice_gives_the_same_folder() {
    let store = BindingStore::load(Some(vec![WorkspaceBinding {
        context: "ctx".to_string(),
        namespace: "ns".to_string(),
        container_name: "main".to_string(),
        workspace_folder: "/ws/proj".to_string(),
        labels: Labels::new(),
    }]));
    let raw = raw_pod("p1", &["main"], &[("app", "x")]);
    let first = PodStatus::from_raw(&raw).resolve(&store, "ctx", "ns");
    let second = PodStatus::from_raw(&raw).resolve(&store, "ctx", "ns");
    assert_eq!(first.workspace_folder, Some("/ws/proj".to_string()));
    assert_eq!(first.workspace_folder, second.workspace_folder);
}

#[test]
fn assemble_keeps_listing_order() {
    let store = BindingStore::load(Some(vec![WorkspaceBinding {
        context: "ctx".to_string(),
        namespace: "ns".to_string(),
        container_name: "b".to_string(),
        workspace_folder: "/ws/b".to_string(),
        labels: Labels::new(),
    }]));
    let pods = vec![raw_pod("z", &["a"], &[]), raw_pod("y", &["b"], &[]), raw_pod("x", &[], &[])];
    let status = ClusterStatus::assemble("ctx", "ns", &pods, &store);
    assert_eq!(status.context, "ctx");
    assert_eq!(status.namespace, "ns");
    let names: Vec<&str> = status.pods.iter().map(|p| p.name.as_str()).collect();
    assert_eq!(names, vec!["z", "y", "x"]);
    assert_eq!(status.pods[0].workspace_folder, None);
    assert_eq!(status.pods[1].workspace_folder, Some("/ws/b".to_string()));
    assert_eq!(status.pods[2].workspace_folder, None);
    assert_eq!(status.pods[2].container_name, None);
}

#[test]
fn assemble_of_no_pods_is_an_empty_status() {
    let status = ClusterStatus::assemble("ctx", "ns", &vec![], &BindingStore::new());
    assert_eq!(status.pods.len(), 0);
    assert_eq!(status.context, "ctx");
}

#[test]
fn status_clone_holds_the_same_pods() {
    let pods = vec![raw_pod("z", &["a"], &[("app", "x")]), raw_pod("y", &["b"], &[])];
    let status = ClusterStatus::assemble("ctx", "ns", &pods, &BindingStore::new());
    let copy = status.clone();
    assert_eq!(copy.context, "ctx");
    assert_eq!(copy.namespace, "ns");
    assert_eq!(copy.pods.len(), 2);
    assert_eq!(copy.pods[0].name, "z");
    assert_eq!(copy.pods[0].labels.get("app"), Some(&"x".to_string()));
    assert_eq!(copy.pods[1].container_name, Some("b".to_string()));
}
