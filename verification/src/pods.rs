//! Pods as the cluster reports them, and the snapshot that is kept of each.
//!
//! A pod is reduced to its first container: the snapshot carries the name of
//! the first container of the pod's spec and the state of the first entry of
//! its container statuses.

use crate::bindings::{resolved_folder, BindingStore, BindingView};
use crate::labels::Labels;
use crate::text::{option_text, str_eq, texts};
use vstd::prelude::*;

verus! {

/// What a snapshot says of a pod's first container.
#[derive(Clone, Copy, Debug, PartialEq, Eq, Structural)]
pub enum RunState {
    Running,
    Waiting,
    Terminated,
    Unknown,
}

/// Which of the three states a container status reports. The cluster may set
/// none of them.
#[derive(Clone, Copy, Debug, PartialEq, Eq, Structural)]
pub struct ReportedState {
    pub running: bool,
    pub waiting: bool,
    pub terminated: bool,
}

/// One entry of a pod's container statuses.
#[derive(Clone, Copy, Debug, PartialEq, Eq, Structural)]
pub struct ContainerReport {
    pub state: Option<ReportedState>,
}

/// A pod as the cluster lists it.
#[derive(Debug)]
pub struct RawPod {
    pub name: String,
    pub labels: Option<Labels>,
    /// The names of the containers of the pod's spec, in order; `None` for a
    /// pod without a spec.
    pub containers: Option<Vec<String>>,
    pub container_statuses: Option<Vec<ContainerReport>>,
}

/// What a [`RawPod`] holds.
pub struct RawPodView {
    pub name: Seq<char>,
    pub labels: Option<Map<Seq<char>, Seq<char>>>,
    pub containers: Option<Seq<Seq<char>>>,
    pub container_statuses: Option<Seq<ContainerReport>>,
}

impl View for RawPod {
    type V = RawPodView;

    open spec fn view(&self) -> RawPodView {
        RawPodView {
            name: self.name@,
            labels: match self.labels {
                Some(labels) => Some(labels@),
                None => None,
            },
            containers: match self.containers {
                Some(names) => Some(texts(names@)),
                None => None,
            },
            container_statuses: match self.container_statuses {
                Some(reports) => Some(reports@),
                None => None,
            },
        }
    }
}

/// The snapshot of one pod.
#[derive(Debug)]
pub struct PodStatus {
    pub name: String,
    pub container_name: Option<String>,
    pub status: RunState,
    pub labels: Labels,
    pub workspace_folder: Option<String>,
}

/// What a [`PodStatus`] holds.
pub struct PodStatusView {
    pub name: Seq<char>,
    pub container_name: Option<Seq<char>>,
    pub status: RunState,
    pub labels: Map<Seq<char>, Seq<char>>,
    pub workspace_folder: Option<Seq<char>>,
}

impl View for PodStatus {
    type V = PodStatusView;

    open spec fn view(&self) -> PodStatusView {
        PodStatusView {
            name: self.name@,
            container_name: option_text(self.container_name),
            status: self.status,
            labels: self.labels@,
            workspace_folder: option_text(self.workspace_folder),
        }
    }
}

/// The state that a report stands for: running before waiting before
/// terminated, and unknown where none of them is set.
pub open spec fn state_of(reported: ReportedState) -> RunState {
    if reported.running {
        RunState::Running
    } else if reported.waiting {
        RunState::Waiting
    } else if reported.terminated {
        RunState::Terminated
    } else {
        RunState::Unknown
    }
}

/// The state of a pod: that of the first container status, and unknown where
/// there is no status, or no state in it.
pub open spec fn pod_state(reports: Option<Seq<ContainerReport>>) -> RunState {
    match reports {
        Some(reports) => if reports.len() > 0 {
            match reports[0].state {
                Some(reported) => state_of(reported),
                None => RunState::Unknown,
            }
        } else {
            RunState::Unknown
        },
        None => RunState::Unknown,
    }
}

/// The name of the first container, where the pod has a spec with a container.
pub open spec fn first_container(containers: Option<Seq<Seq<char>>>) -> Option<Seq<char>> {
    match containers {
        Some(names) => if names.len() > 0 {
            Some(names[0])
        } else {
            None
        },
        None => None,
    }
}

/// The snapshot of a pod before any binding is looked up.
pub open spec fn snapshot(pod: RawPodView) -> PodStatusView {
    PodStatusView {
        name: pod.name,
        container_name: first_container(pod.containers),
        status: pod_state(pod.container_statuses),
        labels: match pod.labels {
            Some(labels) => labels,
            None => Map::empty(),
        },
        workspace_folder: None,
    }
}

/// The snapshot with the workspace folder that the bindings remember for its
/// container. A pod without a container name gets none.
pub open spec fn resolved(
    pod: PodStatusView,
    bindings: Seq<BindingView>,
    context: Seq<char>,
    namespace: Seq<char>,
) -> PodStatusView {
    PodStatusView {
        workspace_folder: match pod.container_name {
            Some(container_name) => resolved_folder(
                bindings,
                context,
                namespace,
                container_name,
                pod.labels,
            ),
            None => None,
        },
        ..pod
    }
}

/// What a list of pods holds, in listing order.
pub open spec fn raw_pod_views(pods: Seq<RawPod>) -> Seq<RawPodView> {
    Seq::new(pods.len(), |i: int| pods[i]@)
}

/// What a list of snapshots holds, in order.
pub open spec fn pod_views(pods: Seq<PodStatus>) -> Seq<PodStatusView> {
    Seq::new(pods.len(), |i: int| pods[i]@)
}

/// The state of a namespace at one poll.
#[derive(Debug)]
pub struct ClusterStatus {
    pub context: String,
    pub namespace: String,
    pub pods: Vec<PodStatus>,
}

/// What a [`ClusterStatus`] holds.
pub struct ClusterStatusView {
    pub context: Seq<char>,
    pub namespace: Seq<char>,
    pub pods: Seq<PodStatusView>,
}

impl View for ClusterStatus {
    type V = ClusterStatusView;

    open spec fn view(&self) -> ClusterStatusView {
        ClusterStatusView {
            context: self.context@,
            namespace: self.namespace@,
            pods: pod_views(self.pods@),
        }
    }
}

/// The status of a namespace whose pods are `pods`: one resolved snapshot for
/// each pod, in listing order.
pub open spec fn cluster_status(
    context: Seq<char>,
    namespace: Seq<char>,
    pods: Seq<RawPodView>,
    bindings: Seq<BindingView>,
) -> ClusterStatusView {
    ClusterStatusView {
        context,
        namespace,
        pods: Seq::new(
            pods.len(),
            |i: int| resolved(snapshot(pods[i]), bindings, context, namespace),
        ),
    }
}

impl RunState {
    /// The name under which the state is shown and stored.
    pub open spec fn name(self) -> Seq<char> {
        match self {
            RunState::Running => "Running"@,
            RunState::Waiting => "Waiting"@,
            RunState::Terminated => "Terminated"@,
            RunState::Unknown => "Unknown"@,
        }
    }

    /// The state with the given name; any other text stands for an unknown
    /// state.
    pub open spec fn named(name: Seq<char>) -> RunState {
        if name == "Running"@ {
            RunState::Running
        } else if name == "Waiting"@ {
            RunState::Waiting
        } else if name == "Terminated"@ {
            RunState::Terminated
        } else {
            RunState::Unknown
        }
    }

    /// A state is found again by its name.
    pub proof fn lemma_named_name(self)
        ensures
            RunState::named(self.name()) == self,
    {
        reveal_strlit("Running");
        reveal_strlit("Waiting");
        reveal_strlit("Terminated");
        reveal_strlit("Unknown");
        assert("Running"@.len() == 7);
        assert("Unknown"@.len() == 7);
        assert("Waiting"@.len() == 7);
        assert("Terminated"@.len() == 10);
        assert("Running"@[0] == 'R');
        assert("Waiting"@[0] == 'W');
        assert("Unknown"@[0] == 'U');
    }

    /// The name of the state.
    pub fn as_str(&self) -> (name: &'static str)
        ensures
            name@ == self.name(),
    {
        match self {
            RunState::Running => "Running",
            RunState::Waiting => "Waiting",
            RunState::Terminated => "Terminated",
            RunState::Unknown => "Unknown",
        }
    }

    /// The state with the given name, or `Unknown` for any other text.
    pub fn from_name(name: &str) -> (state: RunState)
        ensures
            state == RunState::named(name@),
    {
        if str_eq(name, "Running") {
            RunState::Running
        } else if str_eq(name, "Waiting") {
            RunState::Waiting
        } else if str_eq(name, "Terminated") {
            RunState::Terminated
        } else {
            RunState::Unknown
        }
    }

    /// The state that a container status reports.
    pub fn from_reported(reported: &ReportedState) -> (state: RunState)
        ensures
            state == state_of(*reported),
    {
        if reported.running {
            RunState::Running
        } else if reported.waiting {
            RunState::Waiting
        } else if reported.terminated {
            RunState::Terminated
        } else {
            RunState::Unknown
        }
    }
}

impl RawPod {
    /// The name of the pod's first container.
    pub fn first_container(&self) -> (name: Option<String>)
        ensures
            option_text(name) == first_container(self@.containers),
    {
        match &self.containers {
            Some(names) => if names.len() > 0 {
                Some(names[0].clone())
            } else {
                None
            },
            None => None,
        }
    }

    /// The state of the pod's first container.
    pub fn state(&self) -> (state: RunState)
        ensures
            state == pod_state(self@.container_statuses),
    {
        match &self.container_statuses {
            Some(reports) => if reports.len() > 0 {
                match &reports[0].state {
                    Some(reported) => RunState::from_reported(reported),
                    None => RunState::Unknown,
                }
            } else {
                RunState::Unknown
            },
            None => RunState::Unknown,
        }
    }
}

impl PodStatus {
    /// The snapshot of `pod`, with no workspace folder yet.
    pub fn from_raw(pod: &RawPod) -> (status: PodStatus)
        ensures
            status@ == snapshot(pod@),
    {
        PodStatus {
            name: pod.name.clone(),
            container_name: pod.first_container(),
            status: pod.state(),
            labels: match &pod.labels {
                Some(labels) => labels.clone(),
                None => Labels::new(),
            },
            workspace_folder: None,
        }
    }

    /// Looks up the workspace folder that `store` remembers for the pod's
    /// container in the given context and namespace.
    pub fn resolve(self, store: &BindingStore, context: &str, namespace: &str) -> (status:
        PodStatus)
        ensures
            status@ == resolved(self@, store@, context@, namespace@),
    {
        let workspace_folder = match &self.container_name {
            Some(container_name) => store.resolve_workspace_folder(
                context,
                namespace,
                container_name.as_str(),
                &self.labels,
            ),
            None => None,
        };
        PodStatus {
            name: self.name,
            container_name: self.container_name,
            status: self.status,
            labels: self.labels,
            workspace_folder,
        }
    }
}

impl ClusterStatus {
    /// The status of the namespace from the pods that were listed and the
    /// bindings that are remembered.
    pub fn assemble(context: &str, namespace: &str, pods: &Vec<RawPod>, store: &BindingStore) -> (status:
        ClusterStatus)
        ensures
            status@ == cluster_status(context@, namespace@, raw_pod_views(pods@), store@),
    {
        let mut snapshots: Vec<PodStatus> = Vec::new();
        let mut i: usize = 0;
        while i < pods.len()
            invariant
                i <= pods@.len(),
                snapshots@.len() == i,
                forall|j: int|
                    0 <= j < i ==> (#[trigger] snapshots@[j])@ == resolved(
                        snapshot(pods@[j]@),
                        store@,
                        context@,
                        namespace@,
                    ),
            decreases pods@.len() - i,
        {
            snapshots.push(PodStatus::from_raw(&pods[i]).resolve(store, context, namespace));
            i += 1;
        }
        let status = ClusterStatus {
            context: context.to_owned(),
            namespace: namespace.to_owned(),
            pods: snapshots,
        };
        assert(status@.pods =~= cluster_status(
            context@,
            namespace@,
            raw_pod_views(pods@),
            store@,
        ).pods);
        status
    }
}

impl Clone for PodStatus {
    fn clone(&self) -> (copy: Self)
        ensures
            copy@ == self@,
    {
        PodStatus {
            name: self.name.clone(),
            container_name: match &self.container_name {
                Some(name) => Some(name.clone()),
                None => None,
            },
            status: self.status,
            labels: self.labels.clone(),
            workspace_folder: match &self.workspace_folder {
                Some(folder) => Some(folder.clone()),
                None => None,
            },
        }
    }
}

impl Clone for ClusterStatus {
    fn clone(&self) -> (copy: Self)
        ensures
            copy@ == self@,
    {
        let mut pods: Vec<PodStatus> = Vec::new();
        let mut i: usize = 0;
        while i < self.pods.len()
            invariant
                i <= self.pods@.len(),
                pods@.len() == i,
                forall|j: int| 0 <= j < i ==> (#[trigger] pods@[j])@ == self.pods@[j]@,
            decreases self.pods@.len() - i,
        {
            pods.push(self.pods[i].clone());
            i += 1;
        }
        let copy = ClusterStatus {
            context: self.context.clone(),
            namespace: self.namespace.clone(),
            pods,
        };
        assert(copy@.pods =~= self@.pods);
        copy
    }
}

} // verus!
