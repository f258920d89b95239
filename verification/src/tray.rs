//! What the tray menu shows, and what a click on one of its items means.
//!
//! The menu lists the pods that have a workspace folder, each with an icon
//! for its state, then a separator and the item that quits. Drawing the menu
//! is left to the caller.

use crate::pods::{
    pod_views, ClusterStatus, ClusterStatusView, PodStatus, PodStatusView, RunState,
};
use crate::remote::OpenRequest;
use crate::text::str_eq;
use vstd::prelude::*;

verus! {

/// The icon beside a pod.
#[derive(Clone, Copy, Debug, PartialEq, Eq, Structural)]
pub enum StatusIcon {
    Available,
    PartiallyAvailable,
    Unavailable,
    Blank,
}

/// One line of the tray menu.
#[derive(Debug)]
pub enum MenuEntry {
    /// A pod; its name is also the identifier of the item.
    Pod { name: String, icon: StatusIcon },
    Separator,
    Quit,
}

/// What a [`MenuEntry`] holds.
pub enum MenuEntryView {
    Pod { name: Seq<char>, icon: StatusIcon },
    Separator,
    Quit,
}

impl View for MenuEntry {
    type V = MenuEntryView;

    open spec fn view(&self) -> MenuEntryView {
        match *self {
            MenuEntry::Pod { name, icon } => MenuEntryView::Pod { name: name@, icon },
            MenuEntry::Separator => MenuEntryView::Separator,
            MenuEntry::Quit => MenuEntryView::Quit,
        }
    }
}

/// What a list of menu entries holds, in order.
pub open spec fn menu_views(entries: Seq<MenuEntry>) -> Seq<MenuEntryView> {
    Seq::new(entries.len(), |i: int| entries[i]@)
}

/// What a click on a menu item asks for.
#[derive(Debug)]
pub enum MenuCommand {
    Quit,
    /// Open the remembered workspace folder of a pod.
    Open { request: OpenRequest },
    Nothing,
}

/// The icon for a state.
pub open spec fn icon_for(state: RunState) -> StatusIcon {
    match state {
        RunState::Running => StatusIcon::Available,
        RunState::Waiting => StatusIcon::PartiallyAvailable,
        RunState::Terminated => StatusIcon::Unavailable,
        RunState::Unknown => StatusIcon::Blank,
    }
}

/// The menu for `pods`: one entry for each pod, in order, then a separator
/// and the item that quits. Where no pods are known the menu only quits.
pub open spec fn tray_menu(pods: Option<Seq<PodStatusView>>) -> Seq<MenuEntryView> {
    match pods {
        Some(pods) => Seq::new(
            pods.len(),
            |i: int| MenuEntryView::Pod { name: pods[i].name, icon: icon_for(pods[i].status) },
        ).push(MenuEntryView::Separator).push(MenuEntryView::Quit),
        None => seq![MenuEntryView::Quit],
    }
}

/// The pods that have a workspace folder, in order.
pub open spec fn openable(pods: Seq<PodStatusView>) -> Seq<PodStatusView> {
    pods.filter(|pod: PodStatusView| pod.workspace_folder is Some)
}

/// The identifier of the item that quits.
pub open spec fn quit_id() -> Seq<char> {
    "quit"@
}

/// The index of the first pod named `name`, or the number of pods where
/// there is none.
pub open spec fn position_of_pod(pods: Seq<PodStatusView>, name: Seq<char>) -> int
    decreases pods.len(),
{
    if pods.len() == 0 {
        0
    } else if pods[0].name == name {
        0
    } else {
        1 + position_of_pod(pods.drop_first(), name)
    }
}

/// What a click on the item `id` asks for.
#[derive(PartialEq, Eq)]
pub enum SelectionView {
    Quit,
    Open { pod: int },
    Nothing,
}

/// What a click on the item `id` means: the item that quits is found first;
/// any other identifier stands for the first pod of that name, which is
/// opened if it has both a container name and a workspace folder.
pub open spec fn selection(cluster: ClusterStatusView, id: Seq<char>) -> SelectionView {
    if id == quit_id() {
        SelectionView::Quit
    } else {
        let at = position_of_pod(cluster.pods, id);
        if at < cluster.pods.len() && cluster.pods[at].workspace_folder is Some
            && cluster.pods[at].container_name is Some {
            SelectionView::Open { pod: at }
        } else {
            SelectionView::Nothing
        }
    }
}

/// `position_of_pod` is the least index of a pod with the name.
pub proof fn lemma_position_of_pod(pods: Seq<PodStatusView>, name: Seq<char>)
    ensures
        0 <= position_of_pod(pods, name) <= pods.len(),
        position_of_pod(pods, name) < pods.len() ==> pods[position_of_pod(pods, name)].name == name,
        forall|i: int| 0 <= i < position_of_pod(pods, name) ==> (#[trigger] pods[i]).name != name,
    decreases pods.len(),
{
    if pods.len() > 0 && pods[0].name != name {
        let rest = pods.drop_first();
        lemma_position_of_pod(rest, name);
        assert forall|i: int| 0 <= i < position_of_pod(pods, name) implies (#[trigger] pods[i]).name
            != name by {
            if i > 0 {
                assert(rest[i - 1] == pods[i]);
            }
        }
    }
}

impl StatusIcon {
    /// The icon for a state.
    pub fn for_state(state: RunState) -> (icon: StatusIcon)
        ensures
            icon == icon_for(state),
    {
        match state {
            RunState::Running => StatusIcon::Available,
            RunState::Waiting => StatusIcon::PartiallyAvailable,
            RunState::Terminated => StatusIcon::Unavailable,
            RunState::Unknown => StatusIcon::Blank,
        }
    }
}

/// The entries of the tray menu for `pods`.
pub fn get_tray_menu(pods: Option<&Vec<PodStatus>>) -> (menu: Vec<MenuEntry>)
    ensures
        menu_views(menu@) == tray_menu(
            match pods {
                Some(pods) => Some(pod_views(pods@)),
                None => None,
            },
        ),
{
    let mut menu: Vec<MenuEntry> = Vec::new();
    match pods {
        Some(pods) => {
            let mut i: usize = 0;
            while i < pods.len()
                invariant
                    i <= pods@.len(),
                    menu@.len() == i,
                    forall|j: int|
                        0 <= j < i ==> (#[trigger] menu@[j])@ == (MenuEntryView::Pod {
                            name: pods@[j]@.name,
                            icon: icon_for(pods@[j]@.status),
                        }),
                decreases pods@.len() - i,
            {
                menu.push(
                    MenuEntry::Pod {
                        name: pods[i].name.clone(),
                        icon: StatusIcon::for_state(pods[i].status),
                    },
                );
                i += 1;
            }
            menu.push(MenuEntry::Separator);
            menu.push(MenuEntry::Quit);
            assert(menu_views(menu@) =~= tray_menu(Some(pod_views(pods@))));
        },
        None => {
            menu.push(MenuEntry::Quit);
            assert(menu_views(menu@) =~= tray_menu(None));
        },
    }
    menu
}

impl ClusterStatus {
    /// The pods that have a workspace folder, in order.
    pub fn openable_pods(&self) -> (pods: Vec<PodStatus>)
        ensures
            pod_views(pods@) == openable(self@.pods),
    {
        let ghost keep = |pod: PodStatusView| pod.workspace_folder is Some;
        let mut pods: Vec<PodStatus> = Vec::new();
        let mut i: usize = 0;
        proof {
            reveal(Seq::filter);
            assert(pod_views(self.pods@).take(0) =~= Seq::<PodStatusView>::empty());
            assert(pod_views(pods@) =~= pod_views(self.pods@).take(0).filter(keep));
        }
        while i < self.pods.len()
            invariant
                i <= self.pods@.len(),
                keep == (|pod: PodStatusView| pod.workspace_folder is Some),
                pod_views(pods@) == pod_views(self.pods@).take(i as int).filter(keep),
            decreases self.pods@.len() - i,
        {
            let ghost before = pod_views(pods@);
            let pod = &self.pods[i];
            let kept = pod.workspace_folder.is_some();
            if kept {
                pods.push(pod.clone());
            }
            proof {
                reveal(Seq::filter);
                let all = pod_views(self.pods@);
                assert(all.take(i + 1).drop_last() =~= all.take(i as int));
                assert(all.take(i + 1).last() == self.pods@[i as int]@);
                if kept {
                    assert(pod_views(pods@) =~= before.push(self.pods@[i as int]@));
                }
            }
            i += 1;
        }
        proof {
            assert(pod_views(self.pods@).take(i as int) =~= pod_views(self.pods@));
        }
        pods
    }

    /// The index of the first pod named `name`, or the number of pods where
    /// there is none.
    pub fn position_of_pod(&self, name: &str) -> (at: usize)
        ensures
            at == position_of_pod(self@.pods, name@),
            at <= self.pods@.len(),
    {
        let mut i: usize = 0;
        proof {
            assert(pod_views(self.pods@).skip(0) =~= pod_views(self.pods@));
        }
        while i < self.pods.len()
            invariant
                i <= self.pods@.len(),
                position_of_pod(self@.pods, name@) == i + position_of_pod(
                    self@.pods.skip(i as int),
                    name@,
                ),
            decreases self.pods@.len() - i,
        {
            proof {
                let rest = self@.pods.skip(i as int);
                assert(rest[0] == self.pods@[i as int]@);
                assert(rest.drop_first() =~= self@.pods.skip(i + 1));
            }
            if str_eq(self.pods[i].name.as_str(), name) {
                return i;
            }
            i += 1;
        }
        i
    }

    /// What a click on the menu item `id` asks for.
    pub fn menu_command(&self, id: &str) -> (command: MenuCommand)
        ensures
            match command {
                MenuCommand::Quit => selection(self@, id@) == SelectionView::Quit,
                MenuCommand::Nothing => selection(self@, id@) == SelectionView::Nothing,
                MenuCommand::Open { request } => {
                    &&& selection(self@, id@) is Open
                    &&& request.context@ == self@.context
                    &&& request.namespace@ == self@.namespace
                    &&& request.pod_name@ == self@.pods[selection(self@, id@)->pod].name
                    &&& Some(request.container_name@) == self@.pods[selection(
                        self@,
                        id@,
                    )->pod].container_name
                    &&& request.labels@ == self@.pods[selection(self@, id@)->pod].labels
                    &&& Some(request.workspace_folder@) == self@.pods[selection(
                        self@,
                        id@,
                    )->pod].workspace_folder
                },
            },
    {
        if str_eq(id, "quit") {
            return MenuCommand::Quit;
        }
        let at = self.position_of_pod(id);
        if at >= self.pods.len() {
            return MenuCommand::Nothing;
        }
        let pod = &self.pods[at];
        match (&pod.workspace_folder, &pod.container_name) {
            (Some(workspace_folder), Some(container_name)) => MenuCommand::Open {
                request: OpenRequest {
                    context: self.context.clone(),
                    namespace: self.namespace.clone(),
                    pod_name: pod.name.clone(),
                    container_name: container_name.clone(),
                    labels: pod.labels.clone(),
                    workspace_folder: workspace_folder.clone(),
                },
            },
            _ => MenuCommand::Nothing,
        }
    }
}

} // verus!
