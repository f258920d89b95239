//! The cluster watcher as a state machine.
//!
//! The watcher itself performs no work on the cluster. Whoever drives it reads
//! the configuration, connects, lists pods and sleeps, and reports each
//! outcome as a [`WatcherEvent`]; [`Watcher::step`] answers with the next thing
//! to do. A watcher starts in [`Phase::Starting`], where the driver is expected
//! to read the cluster configuration.

use crate::bindings::{BindingStore, BindingView};
use crate::pods::{
    cluster_status, raw_pod_views, ClusterStatus, ClusterStatusView, RawPod, RawPodView,
};
use crate::text::option_text;
use vstd::prelude::*;

verus! {

/// Where a watcher is in its life.
#[derive(Clone, Copy, Debug, PartialEq, Eq, Structural)]
pub enum Phase {
    /// The cluster configuration is being read.
    Starting,
    /// The client for the current context is being set up.
    Connecting,
    /// A list call is under way.
    Listing,
    /// The watcher waits for the next poll.
    Sleeping,
    /// Start-up failed; the watcher never polls.
    Failed,
    /// The watcher was cancelled.
    Stopped,
}

/// The step of connecting that failed.
#[derive(Clone, Copy, Debug, PartialEq, Eq, Structural)]
pub enum ConnectStep {
    /// The credentials of the current context could not be loaded.
    Credentials,
    /// No client could be made from the credentials.
    Client,
}

/// What the driver reports to the watcher.
#[derive(Debug)]
pub enum WatcherEvent {
    /// The cluster configuration was read; it may name no current context.
    ConfigRead { current_context: Option<String> },
    ConfigUnreadable { message: String },
    /// The client stands; `default_namespace` is the namespace it would use.
    Connected { default_namespace: String },
    ConnectFailed { step: ConnectStep },
    /// The list call returned `pods`; `store` holds the bindings as they are
    /// remembered now.
    Listed { pods: Vec<RawPod>, store: BindingStore },
    ListFailed { message: String },
    /// The interval has passed.
    Slept,
    Cancelled,
}

/// What the driver is to do next.
#[derive(Debug)]
pub enum WatcherAction {
    /// Set up the client for `context`.
    Connect { context: String },
    /// List the pods of `namespace`.
    ListPods { namespace: String },
    /// Hand `status` to the status sink, then sleep.
    EmitStatus { status: ClusterStatus, sleep_msec: u64 },
    /// Hand `message` to the error sink, then sleep.
    EmitError { message: String, sleep_msec: u64 },
    /// Report to the caller that the watcher could not start.
    Fail { message: String },
    Nothing,
}

/// A watcher for one namespace.
#[derive(Debug)]
pub struct Watcher {
    phase: Phase,
    /// The namespace that was asked for; without one the client's default is
    /// watched.
    configured_namespace: Option<String>,
    poll_interval_msec: u64,
    /// The current context, known once the configuration was read.
    context: String,
    /// The namespace that is watched, known once the client stands.
    namespace: String,
}

/// What a [`Watcher`] holds.
pub struct WatcherView {
    pub phase: Phase,
    pub configured_namespace: Option<Seq<char>>,
    pub poll_interval_msec: u64,
    pub context: Seq<char>,
    pub namespace: Seq<char>,
}

/// What a [`WatcherEvent`] holds.
pub enum EventView {
    ConfigRead { current_context: Option<Seq<char>> },
    ConfigUnreadable { message: Seq<char> },
    Connected { default_namespace: Seq<char> },
    ConnectFailed { step: ConnectStep },
    Listed { pods: Seq<RawPodView>, bindings: Seq<BindingView> },
    ListFailed { message: Seq<char> },
    Slept,
    Cancelled,
}

/// What a [`WatcherAction`] holds.
pub enum ActionView {
    Connect { context: Seq<char> },
    ListPods { namespace: Seq<char> },
    EmitStatus { status: ClusterStatusView, sleep_msec: u64 },
    EmitError { message: Seq<char>, sleep_msec: u64 },
    Fail { message: Seq<char> },
    Nothing,
}

impl View for Watcher {
    type V = WatcherView;

    closed spec fn view(&self) -> WatcherView {
        WatcherView {
            phase: self.phase,
            configured_namespace: option_text(self.configured_namespace),
            poll_interval_msec: self.poll_interval_msec,
            context: self.context@,
            namespace: self.namespace@,
        }
    }
}

impl View for WatcherEvent {
    type V = EventView;

    open spec fn view(&self) -> EventView {
        match *self {
            WatcherEvent::ConfigRead { current_context } => EventView::ConfigRead {
                current_context: option_text(current_context),
            },
            WatcherEvent::ConfigUnreadable { message } => EventView::ConfigUnreadable {
                message: message@,
            },
            WatcherEvent::Connected { default_namespace } => EventView::Connected {
                default_namespace: default_namespace@,
            },
            WatcherEvent::ConnectFailed { step } => EventView::ConnectFailed { step },
            WatcherEvent::Listed { pods, store } => EventView::Listed {
                pods: raw_pod_views(pods@),
                bindings: store@,
            },
            WatcherEvent::ListFailed { message } => EventView::ListFailed { message: message@ },
            WatcherEvent::Slept => EventView::Slept,
            WatcherEvent::Cancelled => EventView::Cancelled,
        }
    }
}

impl View for WatcherAction {
    type V = ActionView;

    open spec fn view(&self) -> ActionView {
        match *self {
            WatcherAction::Connect { context } => ActionView::Connect { context: context@ },
            WatcherAction::ListPods { namespace } => ActionView::ListPods { namespace: namespace@ },
            WatcherAction::EmitStatus { status, sleep_msec } => ActionView::EmitStatus {
                status: status@,
                sleep_msec,
            },
            WatcherAction::EmitError { message, sleep_msec } => ActionView::EmitError {
                message: message@,
                sleep_msec,
            },
            WatcherAction::Fail { message } => ActionView::Fail { message: message@ },
            WatcherAction::Nothing => ActionView::Nothing,
        }
    }
}

/// What is reported where the configuration names no current context.
pub open spec fn no_context_message() -> Seq<char> {
    "no current context"@
}

/// What is reported for a failed step of connecting.
pub open spec fn connect_failure_message(step: ConnectStep) -> Seq<char> {
    match step {
        ConnectStep::Credentials => "failed to load kubeconfig"@,
        ConnectStep::Client => "failed to load config for k8s"@,
    }
}

/// The watcher as it is made: nothing is known of the cluster yet.
pub open spec fn initial(
    configured_namespace: Option<Seq<char>>,
    poll_interval_msec: u64,
) -> WatcherView {
    WatcherView {
        phase: Phase::Starting,
        configured_namespace,
        poll_interval_msec,
        context: Seq::empty(),
        namespace: Seq::empty(),
    }
}

impl WatcherView {
    /// The watcher in another phase.
    pub open spec fn in_phase(self, phase: Phase) -> WatcherView {
        WatcherView { phase, ..self }
    }

    /// The watcher can do nothing more.
    pub open spec fn is_terminal(self) -> bool {
        self.phase == Phase::Failed || self.phase == Phase::Stopped
    }
}

/// The watcher after `event`, and what the driver is to do.
///
/// A failure before the first poll is final. A failed list call is reported
/// and polling goes on. An event that the phase does not wait for changes
/// nothing; after a cancellation nothing is emitted any more.
pub open spec fn step(watcher: WatcherView, event: EventView) -> (WatcherView, ActionView) {
    if watcher.is_terminal() {
        (watcher, ActionView::Nothing)
    } else if event is Cancelled {
        (watcher.in_phase(Phase::Stopped), ActionView::Nothing)
    } else {
        match (watcher.phase, event) {
            (Phase::Starting, EventView::ConfigRead { current_context: Some(context) }) => (
                WatcherView { phase: Phase::Connecting, context, ..watcher },
                ActionView::Connect { context },
            ),
            (Phase::Starting, EventView::ConfigRead { current_context: None }) => (
                watcher.in_phase(Phase::Failed),
                ActionView::Fail { message: no_context_message() },
            ),
            (Phase::Starting, EventView::ConfigUnreadable { message }) => (
                watcher.in_phase(Phase::Failed),
                ActionView::Fail { message },
            ),
            (Phase::Connecting, EventView::Connected { default_namespace }) => {
                let namespace = match watcher.configured_namespace {
                    Some(namespace) => namespace,
                    None => default_namespace,
                };
                (
                    WatcherView { phase: Phase::Listing, namespace, ..watcher },
                    ActionView::ListPods { namespace },
                )
            },
            (Phase::Connecting, EventView::ConnectFailed { step }) => (
                watcher.in_phase(Phase::Failed),
                ActionView::Fail { message: connect_failure_message(step) },
            ),
            (Phase::Listing, EventView::Listed { pods, bindings }) => (
                watcher.in_phase(Phase::Sleeping),
                ActionView::EmitStatus {
                    status: cluster_status(watcher.context, watcher.namespace, pods, bindings),
                    sleep_msec: watcher.poll_interval_msec,
                },
            ),
            (Phase::Listing, EventView::ListFailed { message }) => (
                watcher.in_phase(Phase::Sleeping),
                ActionView::EmitError { message, sleep_msec: watcher.poll_interval_msec },
            ),
            (Phase::Sleeping, EventView::Slept) => (
                watcher.in_phase(Phase::Listing),
                ActionView::ListPods { namespace: watcher.namespace },
            ),
            _ => (watcher, ActionView::Nothing),
        }
    }
}

/// The watcher after a run of events, and the actions that it asked for, one
/// for each event.
pub open spec fn run(watcher: WatcherView, events: Seq<EventView>) -> (WatcherView, Seq<ActionView>)
    decreases events.len(),
{
    if events.len() == 0 {
        (watcher, Seq::empty())
    } else {
        let (before, actions) = run(watcher, events.drop_last());
        let (after, action) = step(before, events.last());
        (after, actions.push(action))
    }
}

/// The events of polls that fail one after the other, one for each of
/// `messages`: the list call fails with the message, then the interval passes.
pub open spec fn failed_polls(messages: Seq<Seq<char>>) -> Seq<EventView>
    decreases messages.len(),
{
    if messages.len() == 0 {
        Seq::empty()
    } else {
        failed_polls(messages.drop_last()).push(
            EventView::ListFailed { message: messages.last() },
        ).push(EventView::Slept)
    }
}

/// How many of `actions` hand a message to the error sink.
pub open spec fn errors_emitted(actions: Seq<ActionView>) -> nat
    decreases actions.len(),
{
    if actions.len() == 0 {
        0
    } else {
        errors_emitted(actions.drop_last()) + if actions.last() is EmitError {
            1nat
        } else {
            0nat
        }
    }
}

/// How many of `actions` hand a status to the status sink.
pub open spec fn statuses_emitted(actions: Seq<ActionView>) -> nat
    decreases actions.len(),
{
    if actions.len() == 0 {
        0
    } else {
        statuses_emitted(actions.drop_last()) + if actions.last() is EmitStatus {
            1nat
        } else {
            0nat
        }
    }
}

/// How many of `actions` ask for a list call.
pub open spec fn lists_asked(actions: Seq<ActionView>) -> nat
    decreases actions.len(),
{
    if actions.len() == 0 {
        0
    } else {
        lists_asked(actions.drop_last()) + if actions.last() is ListPods {
            1nat
        } else {
            0nat
        }
    }
}

/// A watcher whose list calls fail `messages.len()` times in a row emits
/// that many errors, each with its message and followed by a sleep of the
/// configured interval, emits no status, and asks for a list call after each
/// sleep: at the end the next list call is under way.
pub proof fn lemma_failed_polls(watcher: WatcherView, messages: Seq<Seq<char>>)
    requires
        watcher.phase == Phase::Listing,
    ensures
        ({
            let (after, actions) = run(watcher, failed_polls(messages));
            &&& after == watcher
            &&& actions.len() == 2 * messages.len()
            &&& forall|i: int|
                0 <= i < actions.len() ==> #[trigger] actions[i] == if i % 2 == 0 {
                    ActionView::EmitError {
                        message: messages[i / 2],
                        sleep_msec: watcher.poll_interval_msec,
                    }
                } else {
                    ActionView::ListPods { namespace: watcher.namespace }
                }
            &&& errors_emitted(actions) == messages.len()
            &&& statuses_emitted(actions) == 0
            &&& lists_asked(actions) == messages.len()
        }),
    decreases messages.len(),
{
    if messages.len() > 0 {
        let earlier = messages.drop_last();
        lemma_failed_polls(watcher, earlier);
        let failed = EventView::ListFailed { message: messages.last() };
        let events = failed_polls(messages);
        let (_, before) = run(watcher, failed_polls(earlier));
        assert(events.drop_last() =~= failed_polls(earlier).push(failed));
        assert(events.drop_last().drop_last() =~= failed_polls(earlier));
        let (_, between) = run(watcher, events.drop_last());
        let (_, actions) = run(watcher, events);
        assert(between.drop_last() =~= before);
        assert(actions.drop_last() =~= between);
        assert(errors_emitted(between) == errors_emitted(before) + 1);
        assert(statuses_emitted(between) == statuses_emitted(before));
        assert(lists_asked(between) == lists_asked(before));
        assert forall|i: int| 0 <= i < actions.len() implies #[trigger] actions[i] == if i % 2 == 0 {
            ActionView::EmitError {
                message: messages[i / 2],
                sleep_msec: watcher.poll_interval_msec,
            }
        } else {
            ActionView::ListPods { namespace: watcher.namespace }
        } by {
            if i < before.len() {
                assert(actions[i] == before[i]);
                assert(earlier[i / 2] == messages[i / 2]);
            }
        }
    }
}

/// A watcher that failed to start or was cancelled stays as it is and asks
/// for nothing, whatever is reported to it: it emits nothing and lists
/// nothing.
pub proof fn lemma_terminal_is_silent(watcher: WatcherView, events: Seq<EventView>)
    requires
        watcher.is_terminal(),
    ensures
        ({
            let (after, actions) = run(watcher, events);
            &&& after == watcher
            &&& actions.len() == events.len()
            &&& forall|i: int| 0 <= i < actions.len() ==> #[trigger] actions[i] == ActionView::Nothing
        }),
    decreases events.len(),
{
    if events.len() > 0 {
        lemma_terminal_is_silent(watcher, events.drop_last());
    }
}

/// Cancelling ends a watcher.
pub proof fn lemma_cancel_is_final(watcher: WatcherView)
    ensures
        step(watcher, EventView::Cancelled).0.is_terminal(),
        step(watcher, EventView::Cancelled).1 == ActionView::Nothing,
{
}

/// Only a watcher whose client stands lists pods or emits anything: a
/// failure while starting or connecting ends it.
pub proof fn lemma_startup_failure_is_final(watcher: WatcherView, event: EventView)
    requires
        watcher.phase == Phase::Starting || watcher.phase == Phase::Connecting,
        event is ConfigUnreadable || event is ConnectFailed || event == (EventView::ConfigRead {
            current_context: None,
        }),
    ensures
        step(watcher, event).0.is_terminal() || step(watcher, event).0 == watcher,
        !(step(watcher, event).1 is ListPods),
        !(step(watcher, event).1 is EmitStatus),
        !(step(watcher, event).1 is EmitError),
{
}

/// What the caller of a watcher that could not start is told.
pub open spec fn setup_failure(cause: Seq<char>) -> Seq<char> {
    "Failed to setup containers watcher: "@ + cause
}

/// What the caller of a watcher that could not start is told.
pub fn setup_failure_message(cause: &str) -> (message: String)
    ensures
        message@ == setup_failure(cause@),
{
    let mut message = "Failed to setup containers watcher: ".to_owned();
    message.append(cause);
    message
}

impl Watcher {
    /// A watcher for `namespace`, or for the client's default namespace where
    /// none is given, that polls every `poll_interval_msec` milliseconds.
    pub fn new(namespace: Option<String>, poll_interval_msec: u64) -> (watcher: Watcher)
        ensures
            watcher@ == initial(option_text(namespace), poll_interval_msec),
    {
        Watcher {
            phase: Phase::Starting,
            configured_namespace: namespace,
            poll_interval_msec,
            context: String::new(),
            namespace: String::new(),
        }
    }

    /// Where the watcher is in its life.
    pub fn phase(&self) -> (phase: Phase)
        ensures
            phase == self@.phase,
    {
        self.phase
    }

    /// The time to sleep between two polls, in milliseconds.
    pub fn poll_interval_msec(&self) -> (msec: u64)
        ensures
            msec == self@.poll_interval_msec,
    {
        self.poll_interval_msec
    }

    /// The current context; empty until the configuration was read.
    pub fn context(&self) -> (context: &String)
        ensures
            context@ == self@.context,
    {
        &self.context
    }

    /// The namespace that is watched; empty until the client stands.
    pub fn namespace(&self) -> (namespace: &String)
        ensures
            namespace@ == self@.namespace,
    {
        &self.namespace
    }

    /// Takes `event` in and says what to do next.
    pub fn step(&mut self, event: WatcherEvent) -> (action: WatcherAction)
        ensures
            (final(self)@, action@) == step(old(self)@, event@),
    {
        match self.phase {
            Phase::Failed | Phase::Stopped => WatcherAction::Nothing,
            Phase::Starting => match event {
                WatcherEvent::Cancelled => {
                    self.phase = Phase::Stopped;
                    WatcherAction::Nothing
                },
                WatcherEvent::ConfigRead { current_context: Some(context) } => {
                    self.phase = Phase::Connecting;
                    self.context = context.clone();
                    WatcherAction::Connect { context }
                },
                WatcherEvent::ConfigRead { current_context: None } => {
                    self.phase = Phase::Failed;
                    WatcherAction::Fail { message: "no current context".to_owned() }
                },
                WatcherEvent::ConfigUnreadable { message } => {
                    self.phase = Phase::Failed;
                    WatcherAction::Fail { message }
                },
                _ => WatcherAction::Nothing,
            },
            Phase::Connecting => match event {
                WatcherEvent::Cancelled => {
                    self.phase = Phase::Stopped;
                    WatcherAction::Nothing
                },
                WatcherEvent::Connected { default_namespace } => {
                    let namespace = match &self.configured_namespace {
                        Some(namespace) => namespace.clone(),
                        None => default_namespace,
                    };
                    self.phase = Phase::Listing;
                    self.namespace = namespace.clone();
                    WatcherAction::ListPods { namespace }
                },
                WatcherEvent::ConnectFailed { step } => {
                    self.phase = Phase::Failed;
                    let message = match step {
                        ConnectStep::Credentials => "failed to load kubeconfig".to_owned(),
                        ConnectStep::Client => "failed to load config for k8s".to_owned(),
                    };
                    WatcherAction::Fail { message }
                },
                _ => WatcherAction::Nothing,
            },
            Phase::Listing => match event {
                WatcherEvent::Cancelled => {
                    self.phase = Phase::Stopped;
                    WatcherAction::Nothing
                },
                WatcherEvent::Listed { pods, store } => {
                    self.phase = Phase::Sleeping;
                    let status = ClusterStatus::assemble(
                        self.context.as_str(),
                        self.namespace.as_str(),
                        &pods,
                        &store,
                    );
                    WatcherAction::EmitStatus { status, sleep_msec: self.poll_interval_msec }
                },
                WatcherEvent::ListFailed { message } => {
                    self.phase = Phase::Sleeping;
                    WatcherAction::EmitError { message, sleep_msec: self.poll_interval_msec }
                },
                _ => WatcherAction::Nothing,
            },
            Phase::Sleeping => match event {
                WatcherEvent::Cancelled => {
                    self.phase = Phase::Stopped;
                    WatcherAction::Nothing
                },
                WatcherEvent::Slept => {
                    self.phase = Phase::Listing;
                    WatcherAction::ListPods { namespace: self.namespace.clone() }
                },
                _ => WatcherAction::Nothing,
            },
        }
    }
}

} // verus!
