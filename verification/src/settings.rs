//! The settings of the application as they are read from the settings store.

use crate::bindings::{binding_views, BindingStore, BindingView, WorkspaceBinding};
use crate::text::option_text;
use crate::watcher::{initial, Watcher};
use vstd::prelude::*;

verus! {

/// The interval between two polls where none is stored.
pub const DEFAULT_POLL_INTERVAL_MSEC: u64 = 5000;

/// The settings that the watcher and the session opener work with.
#[derive(Debug)]
pub struct AppSettings {
    /// The namespace to watch; without one the client's default is watched.
    pub namespace: Option<String>,
    pub poll_interval_msec: u64,
    pub workspaces: BindingStore,
}

/// What an [`AppSettings`] value holds.
pub struct AppSettingsView {
    pub namespace: Option<Seq<char>>,
    pub poll_interval_msec: u64,
    pub workspaces: Seq<BindingView>,
}

impl View for AppSettings {
    type V = AppSettingsView;

    open spec fn view(&self) -> AppSettingsView {
        AppSettingsView {
            namespace: option_text(self.namespace),
            poll_interval_msec: self.poll_interval_msec,
            workspaces: self.workspaces@,
        }
    }
}

/// The settings for what the store holds. An entry that is missing, or that
/// could not be read as what it should be, is `None`: the poll interval is
/// then five seconds and the list of bindings empty.
pub open spec fn settings_from(
    namespace: Option<Seq<char>>,
    poll_interval_msec: Option<u64>,
    workspaces: Option<Seq<BindingView>>,
) -> AppSettingsView {
    AppSettingsView {
        namespace,
        poll_interval_msec: match poll_interval_msec {
            Some(msec) => msec,
            None => DEFAULT_POLL_INTERVAL_MSEC,
        },
        workspaces: match workspaces {
            Some(bindings) => bindings,
            None => Seq::empty(),
        },
    }
}

impl AppSettings {
    /// The settings for what was read from the store.
    pub fn from_stored(
        namespace: Option<String>,
        poll_interval_msec: Option<u64>,
        workspaces: Option<Vec<WorkspaceBinding>>,
    ) -> (settings: AppSettings)
        ensures
            settings@ == settings_from(
                option_text(namespace),
                poll_interval_msec,
                match workspaces {
                    Some(bindings) => Some(binding_views(bindings@)),
                    None => None,
                },
            ),
    {
        AppSettings {
            namespace,
            poll_interval_msec: match poll_interval_msec {
                Some(msec) => msec,
                None => DEFAULT_POLL_INTERVAL_MSEC,
            },
            workspaces: BindingStore::load(workspaces),
        }
    }

    /// A watcher for the namespace and the poll interval of these settings.
    pub fn watcher(&self) -> (watcher: Watcher)
        ensures
            watcher@ == initial(self@.namespace, self@.poll_interval_msec),
    {
        let namespace = match &self.namespace {
            Some(namespace) => Some(namespace.clone()),
            None => None,
        };
        Watcher::new(namespace, self.poll_interval_msec)
    }
}

} // verus!
