use crate::messages::{
    adding_action, conflict_message, conflict_text, pkg_version_text, removing_action,
    updating_action, FollowerMessage, FollowerMessageKind, FollowerRequest, LeaderMessageKind,
    LeaderReply,
};
use crate::registry::{
    distinct_keys, has_key, has_name, is_first_named, is_place_of_key, keys_of, sorted_by_key,
    EntryView, SubgraphRegistry,
};
use crate::router::{after_install, after_kill, after_spawn, RouterState, RouterSupervisor};
use crate::types::{entries_view, CompositionResult, SubgraphEntry, SubgraphKey};
use crate::version::{
    env_contribution, get_federation_version, resolved_version, FederationVersion,
    FederationVersionView,
};
use vstd::prelude::*;
use vstd::string::*;

verus! {

/// A change to the registry that waits for the composer's verdict.
#[derive(Debug, PartialEq, Eq)]
pub enum PendingChange {
    Add { name: String, first: bool },
    Update { name: String },
    Remove { name: String },
}

/// The mathematical content of a pending change.
pub enum PendingChangeView {
    Add { name: Seq<char>, first: bool },
    Update { name: Seq<char> },
    Remove { name: Seq<char> },
}

impl View for PendingChange {
    type V = PendingChangeView;

    open spec fn view(&self) -> PendingChangeView {
        match *self {
            PendingChange::Add { name, first } => PendingChangeView::Add { name: name@, first },
            PendingChange::Update { name } => PendingChangeView::Update { name: name@ },
            PendingChange::Remove { name } => PendingChangeView::Remove { name: name@ },
        }
    }
}

/// What the leader does next with a request: answer at once, recompose and
/// answer by the outcome, or shut down.
#[derive(Debug, PartialEq, Eq)]
pub enum LeaderStep {
    Reply(LeaderMessageKind),
    Compose(PendingChange),
    Shutdown,
}

/// The mathematical content of a leader's step.
pub enum LeaderStepView {
    Reply(LeaderReply),
    Compose(PendingChangeView),
    Shutdown,
}

impl View for LeaderStep {
    type V = LeaderStepView;

    open spec fn view(&self) -> LeaderStepView {
        match *self {
            LeaderStep::Reply(reply) => LeaderStepView::Reply(reply@),
            LeaderStep::Compose(pending) => LeaderStepView::Compose(pending@),
            LeaderStep::Shutdown => LeaderStepView::Shutdown,
        }
    }
}

/// A composition outcome as a mathematical value.
pub type CompositionView = Result<Option<Seq<char>>, Seq<char>>;

/// The content of a composition outcome.
pub open spec fn composition_view(result: CompositionResult) -> CompositionView {
    match result {
        Ok(Some(schema)) => Ok(Some(schema@)),
        Ok(None) => Ok(None),
        Err(error) => Err(error@),
    }
}

/// The registry and the step that an add request leads to.
pub open spec fn add_step(registry: Seq<EntryView>, entry: EntryView) -> (
    Seq<EntryView>,
    LeaderStepView,
) {
    if has_key(registry, entry.0) {
        (
            registry,
            LeaderStepView::Reply(LeaderReply::ErrorNotification { error: conflict_text(entry.0) }),
        )
    } else {
        (
            registry.push(entry),
            LeaderStepView::Compose(
                PendingChangeView::Add { name: entry.0.0, first: registry.len() == 0 },
            ),
        )
    }
}

/// The registry and the step that an update request leads to.
pub open spec fn update_step(registry: Seq<EntryView>, entry: EntryView) -> (
    Seq<EntryView>,
    LeaderStepView,
) {
    if has_key(registry, entry.0) {
        let at = choose|at: int| is_place_of_key(registry, entry.0, at);
        if registry[at].1 == entry.1 {
            (registry, LeaderStepView::Reply(LeaderReply::MessageReceived))
        } else {
            (
                registry.update(at, entry),
                LeaderStepView::Compose(PendingChangeView::Update { name: entry.0.0 }),
            )
        }
    } else {
        add_step(registry, entry)
    }
}

/// The registry and the step that a remove request leads to: the earliest
/// entry of that name leaves, whatever its routing URL.
pub open spec fn remove_step(registry: Seq<EntryView>, name: Seq<char>) -> (
    Seq<EntryView>,
    LeaderStepView,
) {
    if has_name(registry, name) {
        let at = choose|at: int| is_first_named(registry, name, at);
        (registry.remove(at), LeaderStepView::Compose(PendingChangeView::Remove { name }))
    } else {
        (registry, LeaderStepView::Reply(LeaderReply::MessageReceived))
    }
}

/// The registry and the step that any request leads to.
pub open spec fn message_step(registry: Seq<EntryView>, message: FollowerRequest) -> (
    Seq<EntryView>,
    LeaderStepView,
) {
    match message {
        FollowerRequest::AddSubgraph { subgraph_entry } => add_step(registry, subgraph_entry),
        FollowerRequest::UpdateSubgraph { subgraph_entry } => update_step(registry, subgraph_entry),
        FollowerRequest::RemoveSubgraph { subgraph_name } => remove_step(registry, subgraph_name),
        FollowerRequest::GetSubgraphs => (
            registry,
            LeaderStepView::Reply(LeaderReply::LeaderSessionInfo { subgraphs: keys_of(registry) }),
        ),
        FollowerRequest::Shutdown => (registry, LeaderStepView::Shutdown),
        FollowerRequest::HealthCheck => (
            registry,
            LeaderStepView::Reply(LeaderReply::MessageReceived),
        ),
        FollowerRequest::GetVersion { follower_version } => (
            registry,
            LeaderStepView::Reply(
                LeaderReply::GetVersion { follower_version, leader_version: pkg_version_text() },
            ),
        ),
    }
}

/// The reply that closes a pending change, given the composition outcome. A
/// new schema is announced unless the change was the add of the very first
/// subgraph.
pub open spec fn reply_for(pending: PendingChangeView, outcome: CompositionView) -> LeaderReply {
    match outcome {
        Err(error) => LeaderReply::ErrorNotification { error },
        Ok(None) => LeaderReply::MessageReceived,
        Ok(Some(_)) => match pending {
            PendingChangeView::Add { name, first } => if first {
                LeaderReply::MessageReceived
            } else {
                LeaderReply::CompositionSuccess { action: adding_action(name) }
            },
            PendingChangeView::Update { name } => LeaderReply::CompositionSuccess {
                action: updating_action(name),
            },
            PendingChangeView::Remove { name } => LeaderReply::CompositionSuccess {
                action: removing_action(name),
            },
        },
    }
}

/// Builds the reply that closes a pending change.
pub fn compose_reply(pending: &PendingChange, outcome: &CompositionResult) -> (reply:
    LeaderMessageKind)
    ensures
        reply@ == reply_for(pending@, composition_view(*outcome)),
{
    match outcome {
        Err(error) => LeaderMessageKind::error(error.clone()),
        Ok(None) => LeaderMessageKind::message_received(),
        Ok(Some(_)) => match pending {
            PendingChange::Add { name, first } => {
                if *first {
                    LeaderMessageKind::message_received()
                } else {
                    LeaderMessageKind::add_subgraph_composition_success(name)
                }
            },
            PendingChange::Update { name } => {
                LeaderMessageKind::update_subgraph_composition_success(name)
            },
            PendingChange::Remove { name } => {
                LeaderMessageKind::remove_subgraph_composition_success(name)
            },
        },
    }
}

/// How the last composition that brought a new schema or an error ended.
/// It counts as succeeded once the router runs on the new schema.
#[derive(Debug, Clone, Copy, PartialEq, Eq, Structural)]
pub enum CompositionStatus {
    NotYet,
    Succeeded,
    Failed,
}

/// What the composition driver does next.
#[derive(Debug, PartialEq, Eq)]
pub enum DriverStep {
    /// Composition is over with this outcome; the router is left alone.
    Done(CompositionResult),
    /// A new schema came: write it to the schema path, then (re)start the
    /// router and report how that went.
    Spawn(String),
    /// Composition failed with this error: kill the router, ignoring any
    /// error of the kill.
    Failed(String),
}

/// The mathematical content of a driver step.
pub enum DriverStepView {
    Done(CompositionView),
    Spawn(Seq<char>),
    Failed(Seq<char>),
}

impl View for DriverStep {
    type V = DriverStepView;

    open spec fn view(&self) -> DriverStepView {
        match *self {
            DriverStep::Done(outcome) => DriverStepView::Done(composition_view(outcome)),
            DriverStep::Spawn(schema) => DriverStepView::Spawn(schema@),
            DriverStep::Failed(error) => DriverStepView::Failed(error@),
        }
    }
}

impl DriverStep {
    /// The composition outcome that a closing step stands for; `None` while
    /// the router still has to be spawned.
    pub fn outcome(self) -> (outcome: Option<CompositionResult>)
        ensures
            match self {
                DriverStep::Done(result) => outcome == Some(result),
                DriverStep::Spawn(_) => outcome.is_none(),
                DriverStep::Failed(error) => outcome == Some(
                    Err::<Option<String>, String>(error),
                ),
            },
    {
        match self {
            DriverStep::Done(result) => Some(result),
            DriverStep::Spawn(_) => None,
            DriverStep::Failed(error) => Some(Err(error)),
        }
    }
}

/// Why a leader could not start.
#[derive(Debug, PartialEq, Eq)]
pub enum StartupError {
    /// The router's listen address is taken.
    AddressInUse { message: String, suggestion: String },
    /// No leader answers on the rendezvous, and no listener can be made
    /// there either.
    RendezvousUnavailable { message: String, suggestion: String },
}

/// The error text for a router address that cannot be bound.
pub open spec fn address_in_use_text(address: Seq<char>) -> Seq<char> {
    "You cannot bind the router to '"@ + address
        + "' because that address is already in use by another process on this machine."@
}

/// The advice that goes with `address_in_use_text`.
pub open spec fn address_in_use_advice(address: Seq<char>) -> Seq<char> {
    "Try setting a different port for the router to bind to with the `--supergraph-port` argument, or shut down the process bound to '"@
        + address + "'."@
}

/// What the composer is run on: the subgraphs in the order of their keys,
/// and the federation version to compose with.
#[derive(Debug, PartialEq, Eq)]
pub struct ComposerInput {
    pub subgraphs: Vec<SubgraphEntry>,
    pub federation_version: FederationVersion,
}

/// The error text for a rendezvous on which no listener can be made.
pub open spec fn rendezvous_unavailable_text(raw_socket_name: Seq<char>) -> Seq<char> {
    "could not start local socket server at '"@ + raw_socket_name + "'"@
}

/// The advice that goes with `rendezvous_unavailable_text`.
pub open spec fn rendezvous_unavailable_advice(raw_socket_name: Seq<char>) -> Seq<char> {
    "Try removing the stale socket file '"@ + raw_socket_name + "' and starting again."@
}

/// The status with which a leader's process ends after a shutdown.
pub const SHUTDOWN_EXIT_CODE: i32 = 1;

/// What the leader knows of the router and of composition.
pub struct Control {
    pub router: RouterState,
    pub last_composition: CompositionStatus,
    pub shutting_down: bool,
}

/// What can happen to a leader's router and composition status.
pub enum ControlEvent {
    /// The router runtime was installed, or could not be.
    RouterInstalled { ok: bool },
    /// The composer reported an error: the router is killed.
    ComposerFailed,
    /// The router was spawned on a new schema, or could not be.
    RouterSpawned { ok: bool },
    /// The router process was found dead.
    RouterCrashed,
    /// A shutdown was asked for: the router is killed.
    Shutdown,
}

/// The state that an event leads to.
pub open spec fn control_step(control: Control, event: ControlEvent) -> Control {
    match event {
        ControlEvent::RouterInstalled { ok } => Control {
            router: after_install(control.router, ok),
            ..control
        },
        ControlEvent::ComposerFailed => Control {
            router: after_kill(control.router),
            last_composition: CompositionStatus::Failed,
            ..control
        },
        ControlEvent::RouterSpawned { ok } => Control {
            router: after_spawn(control.router, ok),
            last_composition: if ok {
                CompositionStatus::Succeeded
            } else {
                CompositionStatus::Failed
            },
            ..control
        },
        ControlEvent::RouterCrashed => Control {
            router: after_kill(control.router),
            last_composition: if control.router == RouterState::Running {
                CompositionStatus::Failed
            } else {
                control.last_composition
            },
            ..control
        },
        ControlEvent::Shutdown => Control {
            router: after_kill(control.router),
            shutting_down: true,
            ..control
        },
    }
}

/// A router process is alive exactly when the last composition that
/// brought a new schema or an error succeeded and no shutdown was asked
/// for.
pub open spec fn lifecycle_holds(control: Control) -> bool {
    control.router == RouterState::Running <==> control.last_composition
        == CompositionStatus::Succeeded && !control.shutting_down
}

/// The leader's state: the registry, the federation version it composes
/// with, and what it knows of the router.
#[derive(Debug, PartialEq, Eq)]
pub struct LeaderSession {
    subgraphs: SubgraphRegistry,
    raw_socket_name: String,
    federation_version: FederationVersion,
    router: RouterSupervisor,
    last_composition: CompositionStatus,
    shutting_down: bool,
}

impl LeaderSession {
    /// The registered subgraphs.
    pub closed spec fn subgraphs(&self) -> Seq<EntryView> {
        self.subgraphs@
    }

    /// The router's state.
    pub closed spec fn router_state(&self) -> RouterState {
        self.router.state()
    }

    /// How the last composition ended.
    pub closed spec fn last_composition(&self) -> CompositionStatus {
        self.last_composition
    }

    /// Whether a shutdown was asked for.
    pub closed spec fn is_shutting_down(&self) -> bool {
        self.shutting_down
    }

    /// The federation version and the rendezvous name, fixed at start.
    pub closed spec fn settings(&self) -> (FederationVersionView, Seq<char>) {
        (self.federation_version@, self.raw_socket_name@)
    }

    /// What the session knows of the router and of composition.
    pub open spec fn control(&self) -> Control {
        Control {
            router: self.router_state(),
            last_composition: self.last_composition(),
            shutting_down: self.is_shutting_down(),
        }
    }

    /// The session's invariant: no key is registered twice, and a router
    /// process is alive exactly when the last composition that brought a
    /// new schema or an error succeeded and no shutdown was asked for.
    pub open spec fn wf(&self) -> bool {
        &&& distinct_keys(self.subgraphs())
        &&& lifecycle_holds(self.control())
    }

    /// Everything but the registry is as in `other`.
    pub open spec fn same_control(&self, other: &LeaderSession) -> bool {
        &&& self.control() == other.control()
        &&& self.settings() == other.settings()
    }

    /// Starts a session, or tells that this process attaches to a leader
    /// that already answers on the rendezvous. `address_bindable` is only
    /// looked at where no leader answered.
    pub fn new(
        raw_socket_name: String,
        router_address: &str,
        leader_answered: bool,
        address_bindable: bool,
        supergraph_config_version: Option<FederationVersion>,
        env_override: Option<String>,
    ) -> (started: Result<Option<LeaderSession>, StartupError>)
        ensures
            leader_answered ==> started == Ok::<Option<LeaderSession>, StartupError>(None),
            !leader_answered && !address_bindable ==> (started matches Err(
                StartupError::AddressInUse { message, suggestion },
            ) && message@ == address_in_use_text(router_address@) && suggestion@
                == address_in_use_advice(router_address@)),
            !leader_answered && address_bindable ==> (started matches Ok(Some(session))
                && session.wf() && session.subgraphs() == Seq::<EntryView>::empty()
                && session.control() == (Control {
                router: RouterState::Uninstalled,
                last_composition: CompositionStatus::NotYet,
                shutting_down: false,
            }) && session.settings() == (
                resolved_version(
                    env_contribution(
                        match env_override {
                            Some(v) => Some(v@),
                            None => None,
                        },
                    ),
                    match supergraph_config_version {
                        Some(v) => Some(v@),
                        None => None,
                    },
                ),
                raw_socket_name@,
            )),
    {
        if leader_answered {
            return Ok(None);
        }
        if !address_bindable {
            let mut message = String::from_str("You cannot bind the router to '");
            message.append(router_address);
            message.append(
                "' because that address is already in use by another process on this machine.",
            );
            let mut suggestion = String::from_str(
                "Try setting a different port for the router to bind to with the `--supergraph-port` argument, or shut down the process bound to '",
            );
            suggestion.append(router_address);
            suggestion.append("'.");
            return Err(StartupError::AddressInUse { message, suggestion });
        }
        let federation_version = get_federation_version(supergraph_config_version, env_override);
        Ok(
            Some(
                LeaderSession {
                    subgraphs: SubgraphRegistry::new(),
                    raw_socket_name,
                    federation_version,
                    router: RouterSupervisor::new(),
                    last_composition: CompositionStatus::NotYet,
                    shutting_down: false,
                },
            ),
        )
    }

    /// Takes the outcome of making the listener on the rendezvous, which
    /// the caller tries once the session stands. Where it was made, the
    /// caller serves the followers' connections on one worker; where not,
    /// the leader cannot start.
    pub fn receive_messages_from_attached_sessions(&self, listener_created: bool) -> (armed: Result<
        (),
        StartupError,
    >)
        ensures
            listener_created ==> armed is Ok,
            !listener_created ==> (armed matches Err(
                StartupError::RendezvousUnavailable { message, suggestion },
            ) && message@ == rendezvous_unavailable_text(self.settings().1) && suggestion@
                == rendezvous_unavailable_advice(self.settings().1)),
    {
        if listener_created {
            Ok(())
        } else {
            let mut message = String::from_str("could not start local socket server at '");
            message.append(self.raw_socket_name.as_str());
            message.append("'");
            let mut suggestion = String::from_str("Try removing the stale socket file '");
            suggestion.append(self.raw_socket_name.as_str());
            suggestion.append("' and starting again.");
            Err(StartupError::RendezvousUnavailable { message, suggestion })
        }
    }

    /// The rendezvous name.
    pub fn raw_socket_name(&self) -> (name: &String)
        ensures
            name@ == self.settings().1,
    {
        &self.raw_socket_name
    }

    /// The federation version that compositions are stamped with.
    pub fn federation_version(&self) -> (version: &FederationVersion)
        ensures
            version@ == self.settings().0,
    {
        &self.federation_version
    }

    /// True while a router process is alive.
    pub fn router_is_running(&self) -> (running: bool)
        ensures
            running == (self.router_state() == RouterState::Running),
    {
        self.router.is_running()
    }

    /// Where the router stands.
    pub fn router_status(&self) -> (state: RouterState)
        ensures
            state == self.router_state(),
    {
        self.router.current()
    }

    /// How the last composition that brought a new schema or an error
    /// ended.
    pub fn last_composition_status(&self) -> (status: CompositionStatus)
        ensures
            status == self.last_composition(),
    {
        self.last_composition
    }

    /// True once a shutdown was asked for.
    pub fn shutdown_requested(&self) -> (requested: bool)
        ensures
            requested == self.is_shutting_down(),
    {
        self.shutting_down
    }

    /// The number of registered subgraphs.
    pub fn subgraph_count(&self) -> (n: usize)
        ensures
            n == self.subgraphs().len(),
    {
        self.subgraphs.len()
    }

    /// Records the outcome of installing the router runtime.
    pub fn router_installed(&mut self, ok: bool)
        requires
            old(self).wf(),
        ensures
            final(self).wf(),
            final(self).subgraphs() == old(self).subgraphs(),
            final(self).control() == control_step(
                old(self).control(),
                ControlEvent::RouterInstalled { ok },
            ),
            final(self).settings() == old(self).settings(),
    {
        self.router.installed(ok);
    }

    /// Adds a subgraph whose exact key is not yet registered and asks for a
    /// recomposition; a registered key is answered with an error and changes
    /// nothing.
    pub fn add_subgraph(&mut self, subgraph_entry: &SubgraphEntry) -> (step: LeaderStep)
        requires
            old(self).wf(),
        ensures
            final(self).wf(),
            final(self).same_control(old(self)),
            (final(self).subgraphs(), step@) == add_step(old(self).subgraphs(), subgraph_entry@),
    {
        let is_first_subgraph = self.subgraphs.is_empty();
        if self.subgraphs.insert(subgraph_entry.clone()) {
            LeaderStep::Compose(
                PendingChange::Add {
                    name: subgraph_entry.key.name.clone(),
                    first: is_first_subgraph,
                },
            )
        } else {
            LeaderStep::Reply(LeaderMessageKind::error(conflict_message(&subgraph_entry.key)))
        }
    }

    /// Replaces the SDL of a registered subgraph and asks for a
    /// recomposition; the same SDL again changes nothing, and an unknown key
    /// is added.
    pub fn update_subgraph(&mut self, subgraph_entry: &SubgraphEntry) -> (step: LeaderStep)
        requires
            old(self).wf(),
        ensures
            final(self).wf(),
            final(self).same_control(old(self)),
            (final(self).subgraphs(), step@) == update_step(
                old(self).subgraphs(),
                subgraph_entry@,
            ),
    {
        match self.subgraphs.position(&subgraph_entry.key) {
            Some(at) => {
                proof {
                    let chosen = choose|c: int|
                        is_place_of_key(self.subgraphs(), subgraph_entry@.0, c);
                    assert(is_place_of_key(self.subgraphs(), subgraph_entry@.0, at as int));
                    assert(chosen == at as int);
                }
                if self.subgraphs.entry(at).sdl == subgraph_entry.sdl {
                    LeaderStep::Reply(LeaderMessageKind::message_received())
                } else {
                    self.subgraphs.set_sdl(at, subgraph_entry.sdl.clone());
                    LeaderStep::Compose(
                        PendingChange::Update { name: subgraph_entry.key.name.clone() },
                    )
                }
            },
            None => self.add_subgraph(subgraph_entry),
        }
    }

    /// Takes the earliest subgraph of this name out and asks for a
    /// recomposition; an unknown name changes nothing.
    pub fn remove_subgraph(&mut self, subgraph_name: &String) -> (step: LeaderStep)
        requires
            old(self).wf(),
        ensures
            final(self).wf(),
            final(self).same_control(old(self)),
            (final(self).subgraphs(), step@) == remove_step(old(self).subgraphs(), subgraph_name@),
    {
        match self.subgraphs.position_of_name(subgraph_name) {
            Some(at) => {
                proof {
                    let chosen = choose|c: int|
                        is_first_named(self.subgraphs(), subgraph_name@, c);
                    assert(is_first_named(self.subgraphs(), subgraph_name@, at as int));
                    assert(chosen == at as int);
                }
                let removed = self.subgraphs.remove_at(at);
                LeaderStep::Compose(PendingChange::Remove { name: removed.key.name })
            },
            None => LeaderStep::Reply(LeaderMessageKind::message_received()),
        }
    }

    /// The keys of the registered subgraphs.
    pub fn get_subgraphs(&self) -> (keys: Vec<SubgraphKey>)
        ensures
            crate::types::keys_view(keys@) == keys_of(self.subgraphs()),
    {
        self.subgraphs.list()
    }

    /// The composer's input for the current registry. Its order depends on
    /// the keys alone, not on the order in which the subgraphs came.
    pub fn supergraph_config(&self) -> (config: ComposerInput)
        ensures
            sorted_by_key(entries_view(config.subgraphs@)),
            entries_view(config.subgraphs@).to_multiset() == self.subgraphs().to_multiset(),
            config.federation_version@ == self.settings().0,
    {
        ComposerInput {
            subgraphs: self.subgraphs.sorted(),
            federation_version: self.federation_version.clone(),
        }
    }

    /// Marks the session as shutting down; from then on no router process
    /// counts as alive. The caller kills the router, removes the rendezvous
    /// file and ends the process with `SHUTDOWN_EXIT_CODE`.
    pub fn shutdown(&mut self)
        requires
            old(self).wf(),
        ensures
            final(self).wf(),
            final(self).control() == control_step(old(self).control(), ControlEvent::Shutdown),
            final(self).router_state() != RouterState::Running,
            final(self).subgraphs() == old(self).subgraphs(),
            final(self).settings() == old(self).settings(),
    {
        self.router.killed();
        self.shutting_down = true;
    }

    /// Decides what a request leads to and brings the registry up to date.
    /// A shutdown request marks the session as `shutdown` does; every other
    /// request leaves all but the registry as it was.
    pub fn handle_follower_message_kind(&mut self, follower_message: &FollowerMessageKind) -> (step:
        LeaderStep)
        requires
            old(self).wf(),
        ensures
            final(self).wf(),
            (final(self).subgraphs(), step@) == message_step(
                old(self).subgraphs(),
                follower_message@,
            ),
            final(self).settings() == old(self).settings(),
            final(self).control() == if follower_message is Shutdown {
                control_step(old(self).control(), ControlEvent::Shutdown)
            } else {
                old(self).control()
            },
    {
        match follower_message {
            FollowerMessageKind::AddSubgraph { subgraph_entry } => self.add_subgraph(
                subgraph_entry,
            ),
            FollowerMessageKind::UpdateSubgraph { subgraph_entry } => self.update_subgraph(
                subgraph_entry,
            ),
            FollowerMessageKind::RemoveSubgraph { subgraph_name } => self.remove_subgraph(
                subgraph_name,
            ),
            FollowerMessageKind::GetSubgraphs => LeaderStep::Reply(
                LeaderMessageKind::current_subgraphs(self.get_subgraphs()),
            ),
            FollowerMessageKind::Shutdown => {
                self.shutdown();
                LeaderStep::Shutdown
            },
            FollowerMessageKind::HealthCheck => LeaderStep::Reply(
                LeaderMessageKind::message_received(),
            ),
            FollowerMessageKind::GetVersion { follower_version } => LeaderStep::Reply(
                LeaderMessageKind::get_version(follower_version.as_str()),
            ),
        }
    }
}

/// The step that follows the composer's answer.
pub open spec fn driver_step(composed: CompositionView) -> DriverStepView {
    match composed {
        Err(error) => DriverStepView::Failed(error),
        Ok(None) => DriverStepView::Done(Ok(None)),
        Ok(Some(schema)) => DriverStepView::Spawn(schema),
    }
}

/// The step that follows the router's answer to a spawn.
pub open spec fn spawn_step(schema: Seq<char>, spawn_error: Option<Seq<char>>) -> DriverStepView {
    match spawn_error {
        Some(error) => DriverStepView::Failed(error),
        None => DriverStepView::Done(Ok(Some(schema))),
    }
}

impl LeaderSession {
    /// Takes the composer's answer on the current registry. An error means
    /// that no router process may stay alive; no new schema leaves the
    /// router alone; a new schema asks for a spawn, whose outcome goes to
    /// `router_spawned`.
    pub fn compose(&mut self, composed: CompositionResult) -> (step: DriverStep)
        requires
            old(self).wf(),
        ensures
            final(self).wf(),
            step@ == driver_step(composition_view(composed)),
            final(self).subgraphs() == old(self).subgraphs(),
            final(self).settings() == old(self).settings(),
            final(self).control() == if composed is Err {
                control_step(old(self).control(), ControlEvent::ComposerFailed)
            } else {
                old(self).control()
            },
    {
        match composed {
            Err(error) => {
                self.router.killed();
                self.last_composition = CompositionStatus::Failed;
                DriverStep::Failed(error)
            },
            Ok(None) => DriverStep::Done(Ok(None)),
            Ok(Some(schema)) => DriverStep::Spawn(schema),
        }
    }

    /// Takes the router's answer to the spawn that `compose` asked for:
    /// `None` where the router runs on the new schema, else the error. A
    /// failed spawn counts as a failed composition.
    pub fn router_spawned(&mut self, schema: String, spawn_error: Option<String>) -> (step:
        DriverStep)
        requires
            old(self).wf(),
            old(self).router_state() != RouterState::Uninstalled,
            !old(self).is_shutting_down(),
        ensures
            final(self).wf(),
            step@ == spawn_step(
                schema@,
                match spawn_error {
                    Some(e) => Some(e@),
                    None => None,
                },
            ),
            final(self).subgraphs() == old(self).subgraphs(),
            final(self).settings() == old(self).settings(),
            final(self).control() == control_step(
                old(self).control(),
                ControlEvent::RouterSpawned { ok: spawn_error.is_none() },
            ),
    {
        match spawn_error {
            Some(error) => {
                self.router.spawned(false);
                self.last_composition = CompositionStatus::Failed;
                DriverStep::Failed(error)
            },
            None => {
                self.router.spawned(true);
                self.last_composition = CompositionStatus::Succeeded;
                DriverStep::Done(Ok(Some(schema)))
            },
        }
    }

    /// Records that the router process was found dead. The caller reports
    /// it as an error where `was_running` holds.
    pub fn router_crashed(&mut self) -> (was_running: bool)
        requires
            old(self).wf(),
        ensures
            final(self).wf(),
            was_running == (old(self).router_state() == RouterState::Running),
            final(self).control() == control_step(old(self).control(), ControlEvent::RouterCrashed),
            final(self).subgraphs() == old(self).subgraphs(),
            final(self).settings() == old(self).settings(),
    {
        let was_running = self.router.crashed();
        if was_running {
            self.last_composition = CompositionStatus::Failed;
        }
        was_running
    }
}

/// Whether the leader shows a reply to its own user: only replies to
/// requests that came in over the socket are shown.
pub fn prints_reply(follower_message: &FollowerMessage) -> (shown: bool)
    ensures
        shown == !follower_message.spec_is_from_main_session(),
{
    !follower_message.is_from_main_session()
}

} // verus!
