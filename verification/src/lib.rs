//! Watches the pods of a Kubernetes namespace and remembers which workspace
//! folder belongs to which container.
//!
//! The library decides; it does no I/O. [`watcher`] is the poll loop as a state
//! machine, [`pods`] turns listed pods into snapshots, [`bindings`] holds the
//! remembered workspace folders and the rule by which a pod finds its own,
//! [`remote`] builds the command that opens an editor in a container and says
//! what follows from its outcome, [`settings`] reads the stored settings, and
//! [`tray`] lays out the tray menu.

pub mod bindings;
pub mod labels;
pub mod pods;
pub mod remote;
pub mod settings;
pub mod text;
pub mod tray;
pub mod watcher;

pub use bindings::{BindingStore, WorkspaceBinding};
pub use labels::{Label, Labels};
pub use pods::{ClusterStatus, PodStatus, RawPod, RunState};
pub use remote::{OpenError, OpenRequest, ProcessOutcome};
pub use settings::AppSettings;
pub use watcher::{Watcher, WatcherAction, WatcherEvent};
