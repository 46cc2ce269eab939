use crate::messages::{FollowerMessageKind, FollowerRequest};
use crate::registry::EntryView;
use crate::text::{decimal, decimal_text};
use crate::types::{SubgraphEntry, SubgraphKey};
use vstd::prelude::*;
use vstd::string::*;

verus! {

/// The introspection dialect that an endpoint answers to. It is unknown
/// until the first fetch that succeeds.
#[derive(Debug, Clone, Copy, PartialEq, Eq, Structural)]
pub enum IntrospectDialect {
    Unknown,
    Subgraph,
    Graph,
}

/// What stands for an introspection runner: the endpoint it asks and the
/// dialect it asks in.
#[derive(Debug, PartialEq, Eq)]
pub struct IntrospectRunnerKind {
    pub dialect: IntrospectDialect,
    pub endpoint: String,
}

/// Where a watcher takes its subgraph's SDL from.
#[derive(Debug, PartialEq, Eq)]
pub enum SubgraphSchemaWatcherKind {
    /// Poll an endpoint by introspection, every so many seconds.
    Introspect(IntrospectRunnerKind, u64),
    /// Watch a file.
    File(String),
    /// A fixed SDL that is sent once.
    Once(String),
}

/// The mathematical content of a watcher's source.
pub enum WatcherKindView {
    Introspect { dialect: IntrospectDialect, endpoint: Seq<char>, polling_interval: u64 },
    File { path: Seq<char> },
    Once { sdl: Seq<char> },
}

impl View for SubgraphSchemaWatcherKind {
    type V = WatcherKindView;

    open spec fn view(&self) -> WatcherKindView {
        match *self {
            SubgraphSchemaWatcherKind::Introspect(runner, polling_interval) => {
                WatcherKindView::Introspect {
                    dialect: runner.dialect,
                    endpoint: runner.endpoint@,
                    polling_interval,
                }
            },
            SubgraphSchemaWatcherKind::File(path) => WatcherKindView::File { path: path@ },
            SubgraphSchemaWatcherKind::Once(sdl) => WatcherKindView::Once { sdl: sdl@ },
        }
    }
}

impl Clone for SubgraphSchemaWatcherKind {
    fn clone(&self) -> (copy: SubgraphSchemaWatcherKind)
        ensures
            copy@ == self@,
    {
        match self {
            SubgraphSchemaWatcherKind::Introspect(runner, polling_interval) => {
                SubgraphSchemaWatcherKind::Introspect(
                    IntrospectRunnerKind {
                        dialect: runner.dialect,
                        endpoint: runner.endpoint.clone(),
                    },
                    *polling_interval,
                )
            },
            SubgraphSchemaWatcherKind::File(path) => SubgraphSchemaWatcherKind::File(path.clone()),
            SubgraphSchemaWatcherKind::Once(sdl) => SubgraphSchemaWatcherKind::Once(sdl.clone()),
        }
    }
}

/// What a fetch brought: the SDL and, from an endpoint, the dialect that
/// answered.
#[derive(Debug, PartialEq, Eq)]
pub struct Fetched {
    pub sdl: String,
    pub dialect: IntrospectDialect,
}

/// The outcome of a fetch as a mathematical value: the SDL and the dialect,
/// or the error's text.
pub type FetchView = Result<(Seq<char>, IntrospectDialect), Seq<char>>;

/// The content of a fetch's outcome.
pub open spec fn fetch_view(fetched: Result<Fetched, String>) -> FetchView {
    match fetched {
        Ok(f) => Ok((f.sdl@, f.dialect)),
        Err(e) => Err(e@),
    }
}

/// What the caller has to fetch for a watcher.
#[derive(Debug, PartialEq, Eq)]
pub enum FetchPlan {
    /// Introspect this endpoint in this dialect.
    Introspect { endpoint: String, dialect: IntrospectDialect },
    /// Read this file.
    ReadFile { path: String },
    /// Nothing: the SDL is known.
    Nothing,
}

/// What a watcher tells its user.
#[derive(Debug, PartialEq, Eq)]
pub enum WatcherNotice {
    /// A fetch succeeded again after failures.
    ConnectivityRestored,
    /// A fetch failed with this error; the last SDL is kept and the fetch
    /// will be tried again.
    RetryWarning { error: String },
    /// A fetch failed and no retry is left: the subgraph is detached.
    RetriesExhausted,
}

/// The mathematical content of a notice.
pub enum NoticeView {
    ConnectivityRestored,
    RetryWarning { error: Seq<char> },
    RetriesExhausted,
}

impl View for WatcherNotice {
    type V = NoticeView;

    open spec fn view(&self) -> NoticeView {
        match *self {
            WatcherNotice::ConnectivityRestored => NoticeView::ConnectivityRestored,
            WatcherNotice::RetryWarning { error } => NoticeView::RetryWarning { error: error@ },
            WatcherNotice::RetriesExhausted => NoticeView::RetriesExhausted,
        }
    }
}

/// The words in which a notice is told of the subgraph of this name.
pub open spec fn notice_text(notice: NoticeView, name: Seq<char>) -> Seq<char> {
    match notice {
        NoticeView::ConnectivityRestored => "subgraph connectivity restored for "@ + name,
        NoticeView::RetryWarning { error } => "error detected communicating with subgraph '"@ + name
            + "', schema changes will not be reflected.\nWill retry but subgraph logs should be inspected\nError: "@
            + error,
        NoticeView::RetriesExhausted => "retries exhausted for subgraph "@ + name
            + ". To add more run `rover dev` with the --subgraph-retries flag."@,
    }
}

/// The words that announce the polling of an endpoint.
pub open spec fn polling_text(endpoint: Seq<char>, polling_interval: u64) -> Seq<char> {
    "polling "@ + endpoint + " every "@ + decimal(polling_interval as nat) + if polling_interval
        == 1 {
        " second"@
    } else {
        " seconds"@
    }
}

impl WatcherNotice {
    /// The words in which this notice is told of the subgraph of this name.
    pub fn text(&self, name: &str) -> (text: String)
        ensures
            text@ == notice_text(self@, name@),
    {
        match self {
            WatcherNotice::ConnectivityRestored => {
                let mut text = String::from_str("subgraph connectivity restored for ");
                text.append(name);
                text
            },
            WatcherNotice::RetryWarning { error } => {
                let mut text = String::from_str("error detected communicating with subgraph '");
                text.append(name);
                text.append(
                    "', schema changes will not be reflected.\nWill retry but subgraph logs should be inspected\nError: ",
                );
                text.append(error.as_str());
                text
            },
            WatcherNotice::RetriesExhausted => {
                let mut text = String::from_str("retries exhausted for subgraph ");
                text.append(name);
                text.append(". To add more run `rover dev` with the --subgraph-retries flag.");
                text
            },
        }
    }
}

/// What a watcher waits for before its next fetch.
#[derive(Debug, Clone, Copy, PartialEq, Eq, Structural)]
pub enum WatcherWait {
    /// Sleep for so many seconds.
    Sleep(u64),
    /// Wait until the watched file changes.
    FileChange,
    /// The watcher is done.
    Stop,
}

/// The outcome of one round of a watcher: the request to send to the
/// leader, the notice to show, and what to wait for.
#[derive(Debug, PartialEq, Eq)]
pub struct WatcherStep {
    pub message: Option<FollowerMessageKind>,
    pub notice: Option<WatcherNotice>,
    pub wait: WatcherWait,
}

/// The mathematical content of a round's outcome.
pub struct StepView {
    pub message: Option<FollowerRequest>,
    pub notice: Option<NoticeView>,
    pub wait: WatcherWait,
}

impl View for WatcherStep {
    type V = StepView;

    open spec fn view(&self) -> StepView {
        StepView {
            message: match self.message {
                Some(m) => Some(m@),
                None => None,
            },
            notice: match self.notice {
                Some(n) => Some(n@),
                None => None,
            },
            wait: self.wait,
        }
    }
}

/// The mathematical content of a watcher.
pub struct WatcherView {
    pub kind: WatcherKindView,
    pub key: (Seq<char>, Seq<char>),
    pub last_sdl: Option<Seq<char>>,
    pub retries: u64,
    pub countdown: u64,
    pub stopped: bool,
}

/// The source that follows a successful fetch: an endpoint of unknown
/// dialect goes on in the dialect that answered.
pub open spec fn refreshed_kind(kind: WatcherKindView, answered: IntrospectDialect) -> Option<
    WatcherKindView,
> {
    match kind {
        WatcherKindView::Introspect { dialect, endpoint, polling_interval } => {
            if dialect == IntrospectDialect::Unknown && answered != IntrospectDialect::Unknown {
                Some(WatcherKindView::Introspect { dialect: answered, endpoint, polling_interval })
            } else {
                None
            }
        },
        _ => None,
    }
}

/// The subgraph definition that a fetch leads to, with the source to go on
/// with where it changes. A fixed SDL needs no fetch and never fails.
pub open spec fn definition_of(watcher: WatcherView, fetched: FetchView) -> Result<
    (EntryView, Option<WatcherKindView>),
    Seq<char>,
> {
    match watcher.kind {
        WatcherKindView::Once { sdl } => Ok(((watcher.key, sdl), None)),
        _ => match fetched {
            Ok((sdl, answered)) => Ok(((watcher.key, sdl), refreshed_kind(watcher.kind, answered))),
            Err(e) => Err(e),
        },
    }
}

/// What a watcher waits for after a round.
pub open spec fn wait_of(kind: WatcherKindView, stopped: bool) -> WatcherWait {
    if stopped {
        WatcherWait::Stop
    } else {
        match kind {
            WatcherKindView::Introspect { polling_interval, .. } => WatcherWait::Sleep(
                polling_interval,
            ),
            WatcherKindView::File { .. } => WatcherWait::FileChange,
            WatcherKindView::Once { .. } => WatcherWait::Stop,
        }
    }
}

/// One round of a watcher: the state and the outcome that a fetch leads to.
///
/// A success sends an add where nothing was sent before and an update where
/// the SDL differs from the last one sent, and sets the countdown back to
/// the budget. A failure uses up one retry and keeps the last SDL; with no
/// retry left it sends a remove and stops the watcher. A stopped watcher
/// does nothing.
pub open spec fn after_fetch(watcher: WatcherView, fetched: FetchView) -> (WatcherView, StepView) {
    if watcher.stopped {
        (watcher, StepView { message: None, notice: None, wait: WatcherWait::Stop })
    } else {
        match definition_of(watcher, fetched) {
            Ok((entry, refreshed)) => {
                let kind = match refreshed {
                    Some(k) => k,
                    None => watcher.kind,
                };
                let stopped = kind is Once;
                (
                    WatcherView {
                        kind,
                        last_sdl: Some(entry.1),
                        countdown: watcher.retries,
                        stopped,
                        ..watcher
                    },
                    StepView {
                        message: match watcher.last_sdl {
                            None => Some(FollowerRequest::AddSubgraph { subgraph_entry: entry }),
                            Some(last) => if last != entry.1 {
                                Some(FollowerRequest::UpdateSubgraph { subgraph_entry: entry })
                            } else {
                                None
                            },
                        },
                        notice: if watcher.last_sdl is Some && watcher.countdown
                            < watcher.retries {
                            Some(NoticeView::ConnectivityRestored)
                        } else {
                            None
                        },
                        wait: wait_of(kind, stopped),
                    },
                )
            },
            Err(error) => {
                if watcher.countdown > 0 {
                    (
                        WatcherView { countdown: (watcher.countdown - 1) as u64, ..watcher },
                        StepView {
                            message: None,
                            notice: Some(NoticeView::RetryWarning { error }),
                            wait: wait_of(watcher.kind, false),
                        },
                    )
                } else {
                    (
                        WatcherView { stopped: true, ..watcher },
                        StepView {
                            message: Some(
                                FollowerRequest::RemoveSubgraph { subgraph_name: watcher.key.0 },
                            ),
                            notice: Some(NoticeView::RetriesExhausted),
                            wait: WatcherWait::Stop,
                        },
                    )
                }
            },
        }
    }
}

#[verifier::external_type_specification]
#[verifier::external_body]
pub struct ExUrlParseError(url::ParseError);

/// What `url::Url::parse` makes of a text: the serialization of the URL it
/// accepts, or `None` where it rejects the text.
pub uninterp spec fn parsed_url(input: Seq<char>) -> Option<Seq<char>>;

/// Calls `url::Url::parse`. Trusted: the result is the named parse of
/// `input`, the URL given as its serialization, and the crate's error where
/// it rejects the text.
#[verifier::external_body]
fn parse_url(input: &str) -> (parsed: Result<String, url::ParseError>)
    ensures
        match parsed {
            Ok(url) => parsed_url(input@) == Some(url@),
            Err(_) => parsed_url(input@).is_none(),
        },
{
    match url::Url::parse(input) {
        Ok(url) => Ok(String::from(url)),
        Err(e) => Err(e),
    }
}

/// Why a watcher of a subgraph from the graph registry cannot be made.
#[derive(Debug, PartialEq, Eq)]
pub enum WatcherError {
    /// The registry's routing URL is no URL.
    InvalidRoutingUrl { message: String },
    /// Neither the caller nor the registry gives a routing URL.
    MissingRoutingUrl { message: String, subgraph_name: String, graph_ref: String },
}

/// The mathematical content of a watcher error.
pub enum WatcherErrorView {
    InvalidRoutingUrl { message: Seq<char> },
    MissingRoutingUrl { message: Seq<char>, subgraph_name: Seq<char>, graph_ref: Seq<char> },
}

impl View for WatcherError {
    type V = WatcherErrorView;

    open spec fn view(&self) -> WatcherErrorView {
        match *self {
            WatcherError::InvalidRoutingUrl { message } => WatcherErrorView::InvalidRoutingUrl {
                message: message@,
            },
            WatcherError::MissingRoutingUrl { message, subgraph_name, graph_ref } => {
                WatcherErrorView::MissingRoutingUrl {
                    message: message@,
                    subgraph_name: subgraph_name@,
                    graph_ref: graph_ref@,
                }
            },
        }
    }
}

/// The error text for a registry routing URL that is no URL.
pub open spec fn invalid_routing_url_text(url: Seq<char>) -> Seq<char> {
    "Could not parse graph registry routing url "@ + url
}

/// The error text for a subgraph without any routing URL.
pub open spec fn missing_routing_url_text(graphos_subgraph_name: Seq<char>) -> Seq<char> {
    "Could not find routing URL in GraphOS for subgraph "@ + graphos_subgraph_name
}

/// The routing URL of a subgraph from the graph registry: the caller's own
/// where there is one, else the registry's where it parses (`parsed` is
/// what the parse of the registry's URL gave).
pub open spec fn chosen_routing_url(
    routing_url: Option<Seq<char>>,
    registry_routing_url: Option<Seq<char>>,
    parsed: Option<Seq<char>>,
    graph_ref: Seq<char>,
    graphos_subgraph_name: Seq<char>,
    yaml_subgraph_name: Seq<char>,
) -> Result<Seq<char>, WatcherErrorView> {
    match routing_url {
        Some(url) => Ok(url),
        None => match registry_routing_url {
            Some(registered) => match parsed {
                Some(url) => Ok(url),
                None => Err(
                    WatcherErrorView::InvalidRoutingUrl {
                        message: invalid_routing_url_text(registered),
                    },
                ),
            },
            None => Err(
                WatcherErrorView::MissingRoutingUrl {
                    message: missing_routing_url_text(graphos_subgraph_name),
                    subgraph_name: yaml_subgraph_name,
                    graph_ref,
                },
            ),
        },
    }
}

/// Chooses the routing URL of a subgraph from the graph registry, given
/// what the parse of the registry's URL gave.
pub fn choose_routing_url(
    routing_url: Option<String>,
    registry_routing_url: Option<String>,
    parsed: Option<String>,
    graph_ref: &str,
    graphos_subgraph_name: &str,
    yaml_subgraph_name: &str,
) -> (chosen: Result<String, WatcherError>)
    ensures
        match chosen_routing_url(
            match routing_url {
                Some(u) => Some(u@),
                None => None,
            },
            match registry_routing_url {
                Some(u) => Some(u@),
                None => None,
            },
            match parsed {
                Some(u) => Some(u@),
                None => None,
            },
            graph_ref@,
            graphos_subgraph_name@,
            yaml_subgraph_name@,
        ) {
            Ok(url) => chosen matches Ok(u) && u@ == url,
            Err(error) => chosen matches Err(e) && e@ == error,
        },
{
    match routing_url {
        Some(url) => Ok(url),
        None => match registry_routing_url {
            Some(registered) => match parsed {
                Some(url) => Ok(url),
                None => {
                    let mut message = String::from_str(
                        "Could not parse graph registry routing url ",
                    );
                    message.append(registered.as_str());
                    Err(WatcherError::InvalidRoutingUrl { message })
                },
            },
            None => {
                let mut message = String::from_str(
                    "Could not find routing URL in GraphOS for subgraph ",
                );
                message.append(graphos_subgraph_name);
                Err(
                    WatcherError::MissingRoutingUrl {
                        message,
                        subgraph_name: String::from_str(yaml_subgraph_name),
                        graph_ref: String::from_str(graph_ref),
                    },
                )
            },
        },
    }
}

/// What the parse of the registry's routing URL contributes: nothing where
/// the registry gives none.
pub open spec fn registry_url_parse(registry_routing_url: Option<Seq<char>>) -> Option<Seq<char>> {
    match registry_routing_url {
        Some(registered) => parsed_url(registered),
        None => None,
    }
}

/// The state machine of one subgraph's source: it turns the outcome of each
/// fetch into the request for the leader.
#[derive(Debug, PartialEq, Eq)]
pub struct SubgraphSchemaWatcher {
    schema_watcher_kind: SubgraphSchemaWatcherKind,
    subgraph_key: SubgraphKey,
    last_sdl: Option<String>,
    subgraph_retries: u64,
    subgraph_retry_countdown: u64,
    stopped: bool,
}

impl View for SubgraphSchemaWatcher {
    type V = WatcherView;

    closed spec fn view(&self) -> WatcherView {
        WatcherView {
            kind: self.schema_watcher_kind@,
            key: self.subgraph_key@,
            last_sdl: match self.last_sdl {
                Some(s) => Some(s@),
                None => None,
            },
            retries: self.subgraph_retries,
            countdown: self.subgraph_retry_countdown,
            stopped: self.stopped,
        }
    }
}

/// A watcher that has fetched nothing yet.
pub open spec fn fresh_watcher(
    kind: WatcherKindView,
    key: (Seq<char>, Seq<char>),
    retries: u64,
) -> WatcherView {
    WatcherView { kind, key, last_sdl: None, retries, countdown: 0, stopped: false }
}

impl SubgraphSchemaWatcher {
    /// A watcher of a file.
    pub fn new_from_file_path(subgraph_key: SubgraphKey, path: String, subgraph_retries: u64) -> (watcher:
        SubgraphSchemaWatcher)
        ensures
            watcher@ == fresh_watcher(
                WatcherKindView::File { path: path@ },
                subgraph_key@,
                subgraph_retries,
            ),
    {
        SubgraphSchemaWatcher {
            schema_watcher_kind: SubgraphSchemaWatcherKind::File(path),
            subgraph_key,
            last_sdl: None,
            subgraph_retries,
            subgraph_retry_countdown: 0,
            stopped: false,
        }
    }

    /// A watcher of an endpoint whose dialect is not known yet.
    pub fn new_from_url(
        subgraph_key: SubgraphKey,
        polling_interval: u64,
        subgraph_retries: u64,
        subgraph_url: String,
    ) -> (watcher: SubgraphSchemaWatcher)
        ensures
            watcher@ == fresh_watcher(
                WatcherKindView::Introspect {
                    dialect: IntrospectDialect::Unknown,
                    endpoint: subgraph_url@,
                    polling_interval,
                },
                subgraph_key@,
                subgraph_retries,
            ),
    {
        let introspect_runner = IntrospectRunnerKind {
            dialect: IntrospectDialect::Unknown,
            endpoint: subgraph_url,
        };
        Self::new_from_introspect_runner(
            subgraph_key,
            introspect_runner,
            polling_interval,
            subgraph_retries,
        )
    }

    /// A watcher of a fixed SDL.
    pub fn new_from_sdl(subgraph_key: SubgraphKey, sdl: String, subgraph_retries: u64) -> (watcher:
        SubgraphSchemaWatcher)
        ensures
            watcher@ == fresh_watcher(
                WatcherKindView::Once { sdl: sdl@ },
                subgraph_key@,
                subgraph_retries,
            ),
    {
        SubgraphSchemaWatcher {
            schema_watcher_kind: SubgraphSchemaWatcherKind::Once(sdl),
            subgraph_key,
            last_sdl: None,
            subgraph_retries,
            subgraph_retry_countdown: 0,
            stopped: false,
        }
    }

    /// A watcher of a subgraph that was fetched from the graph registry:
    /// it sends the fetched SDL once. The routing URL is the caller's own
    /// where there is one, else the registry's, which has to parse.
    pub fn new_from_graph_ref(
        graph_ref: &str,
        graphos_subgraph_name: String,
        routing_url: Option<String>,
        yaml_subgraph_name: String,
        fetched_sdl: String,
        registry_routing_url: Option<String>,
        subgraph_retries: u64,
    ) -> (made: Result<SubgraphSchemaWatcher, WatcherError>)
        ensures
            match chosen_routing_url(
                match routing_url {
                    Some(u) => Some(u@),
                    None => None,
                },
                match registry_routing_url {
                    Some(u) => Some(u@),
                    None => None,
                },
                registry_url_parse(
                    match registry_routing_url {
                        Some(u) => Some(u@),
                        None => None,
                    },
                ),
                graph_ref@,
                graphos_subgraph_name@,
                yaml_subgraph_name@,
            ) {
                Ok(url) => made matches Ok(watcher) && watcher@ == fresh_watcher(
                    WatcherKindView::Once { sdl: fetched_sdl@ },
                    (yaml_subgraph_name@, url),
                    subgraph_retries,
                ),
                Err(error) => made matches Err(e) && e@ == error,
            },
    {
        let parsed = match (&routing_url, &registry_routing_url) {
            (None, Some(registered)) => match parse_url(registered.as_str()) {
                Ok(url) => Some(url),
                Err(_) => None,
            },
            _ => None,
        };
        match choose_routing_url(
            routing_url,
            registry_routing_url,
            parsed,
            graph_ref,
            graphos_subgraph_name.as_str(),
            yaml_subgraph_name.as_str(),
        ) {
            Ok(url) => Ok(
                Self::new_from_sdl(
                    SubgraphKey { name: yaml_subgraph_name, url },
                    fetched_sdl,
                    subgraph_retries,
                ),
            ),
            Err(e) => Err(e),
        }
    }

    /// A watcher of an endpoint with a given runner.
    pub fn new_from_introspect_runner(
        subgraph_key: SubgraphKey,
        introspect_runner: IntrospectRunnerKind,
        polling_interval: u64,
        subgraph_retries: u64,
    ) -> (watcher: SubgraphSchemaWatcher)
        ensures
            watcher@ == fresh_watcher(
                WatcherKindView::Introspect {
                    dialect: introspect_runner.dialect,
                    endpoint: introspect_runner.endpoint@,
                    polling_interval,
                },
                subgraph_key@,
                subgraph_retries,
            ),
    {
        SubgraphSchemaWatcher {
            schema_watcher_kind: SubgraphSchemaWatcherKind::Introspect(
                introspect_runner,
                polling_interval,
            ),
            subgraph_key,
            last_sdl: None,
            subgraph_retries,
            subgraph_retry_countdown: 0,
            stopped: false,
        }
    }

    /// The words that announce the polling, where the source is an
    /// endpoint.
    pub fn polling_banner(&self) -> (banner: Option<String>)
        ensures
            match self@.kind {
                WatcherKindView::Introspect { endpoint, polling_interval, .. } => banner matches Some(
                    text,
                ) && text@ == polling_text(endpoint, polling_interval),
                _ => banner.is_none(),
            },
    {
        match &self.schema_watcher_kind {
            SubgraphSchemaWatcherKind::Introspect(runner, polling_interval) => {
                let mut text = String::from_str("polling ");
                text.append(runner.endpoint.as_str());
                text.append(" every ");
                let count = decimal_text(*polling_interval);
                text.append(count.as_str());
                if *polling_interval == 1 {
                    text.append(" second");
                } else {
                    text.append(" seconds");
                }
                Some(text)
            },
            _ => None,
        }
    }

    /// What has to be fetched for the next round.
    pub fn fetch_plan(&self) -> (plan: FetchPlan)
        ensures
            match self@.kind {
                WatcherKindView::Introspect { dialect, endpoint, .. } => plan matches FetchPlan::Introspect {
                    endpoint: e,
                    dialect: d,
                } && e@ == endpoint && d == dialect,
                WatcherKindView::File { path } => plan matches FetchPlan::ReadFile { path: p }
                    && p@ == path,
                WatcherKindView::Once { .. } => plan is Nothing,
            },
    {
        match &self.schema_watcher_kind {
            SubgraphSchemaWatcherKind::Introspect(runner, _) => FetchPlan::Introspect {
                endpoint: runner.endpoint.clone(),
                dialect: runner.dialect,
            },
            SubgraphSchemaWatcherKind::File(path) => FetchPlan::ReadFile { path: path.clone() },
            SubgraphSchemaWatcherKind::Once(_) => FetchPlan::Nothing,
        }
    }

    /// Turns the outcome of a fetch into the subgraph's definition and,
    /// where the source changes with it, the source to go on with.
    pub fn get_subgraph_definition_and_maybe_new_runner(
        &self,
        fetched: Result<Fetched, String>,
    ) -> (definition: Result<(SubgraphEntry, Option<SubgraphSchemaWatcherKind>), String>)
        ensures
            match definition_of(self@, fetch_view(fetched)) {
                Ok((entry, refreshed)) => definition matches Ok((e, r)) && e@ == entry && (match r {
                    Some(k) => Some(k@),
                    None => None,
                }) == refreshed,
                Err(error) => definition matches Err(e) && e@ == error,
            },
    {
        let (sdl, refresher) = match &self.schema_watcher_kind {
            SubgraphSchemaWatcherKind::Once(sdl) => (sdl.clone(), None),
            SubgraphSchemaWatcherKind::File(_) => match fetched {
                Ok(f) => (f.sdl, None),
                Err(e) => {
                    return Err(e);
                },
            },
            SubgraphSchemaWatcherKind::Introspect(runner, polling_interval) => match fetched {
                Ok(f) => {
                    if runner.dialect == IntrospectDialect::Unknown && f.dialect
                        != IntrospectDialect::Unknown {
                        (
                            f.sdl,
                            Some(
                                SubgraphSchemaWatcherKind::Introspect(
                                    IntrospectRunnerKind {
                                        dialect: f.dialect,
                                        endpoint: runner.endpoint.clone(),
                                    },
                                    *polling_interval,
                                ),
                            ),
                        )
                    } else {
                        (f.sdl, None)
                    }
                },
                Err(e) => {
                    return Err(e);
                },
            },
        };
        let subgraph_definition = SubgraphEntry { key: self.subgraph_key.clone(), sdl };
        Ok((subgraph_definition, refresher))
    }

    /// One round: takes the outcome of the fetch that `fetch_plan` asked
    /// for and tells what to send, what to show and what to wait for.
    pub fn watch_subgraph_for_changes(&mut self, fetched: Result<Fetched, String>) -> (step:
        WatcherStep)
        ensures
            (final(self)@, step@) == after_fetch(old(self)@, fetch_view(fetched)),
    {
        if self.stopped {
            return WatcherStep { message: None, notice: None, wait: WatcherWait::Stop };
        }
        let (message, notice) = self.update_subgraph(fetched);
        let wait = self.next_wait();
        WatcherStep { message, notice, wait }
    }

    /// What the watcher waits for before its next round.
    pub fn next_wait(&self) -> (wait: WatcherWait)
        ensures
            wait == wait_of(self@.kind, self@.stopped),
    {
        if self.stopped {
            WatcherWait::Stop
        } else {
            match &self.schema_watcher_kind {
                SubgraphSchemaWatcherKind::Introspect(_, polling_interval) => WatcherWait::Sleep(
                    *polling_interval,
                ),
                SubgraphSchemaWatcherKind::File(_) => WatcherWait::FileChange,
                SubgraphSchemaWatcherKind::Once(_) => WatcherWait::Stop,
            }
        }
    }

    /// The state change of one round of a watcher that has not stopped,
    /// with the request and the notice that it leads to.
    fn update_subgraph(&mut self, fetched: Result<Fetched, String>) -> (outcome: (
        Option<FollowerMessageKind>,
        Option<WatcherNotice>,
    ))
        requires
            !old(self)@.stopped,
        ensures
            final(self)@ == after_fetch(old(self)@, fetch_view(fetched)).0,
            (match outcome.0 {
                Some(m) => Some(m@),
                None => None,
            }) == after_fetch(old(self)@, fetch_view(fetched)).1.message,
            (match outcome.1 {
                Some(n) => Some(n@),
                None => None,
            }) == after_fetch(old(self)@, fetch_view(fetched)).1.notice,
    {
        match self.get_subgraph_definition_and_maybe_new_runner(fetched) {
            Ok((subgraph_definition, maybe_new_refresher)) => {
                if let Some(new_refresher) = maybe_new_refresher {
                    self.set_schema_refresher(new_refresher);
                }
                let restored = self.last_sdl.is_some() && self.subgraph_retry_countdown
                    < self.subgraph_retries;
                let sdl = subgraph_definition.sdl.clone();
                let message = match &self.last_sdl {
                    Some(last) => {
                        if *last != subgraph_definition.sdl {
                            Some(
                                FollowerMessageKind::UpdateSubgraph {
                                    subgraph_entry: subgraph_definition,
                                },
                            )
                        } else {
                            None
                        }
                    },
                    None => Some(
                        FollowerMessageKind::AddSubgraph { subgraph_entry: subgraph_definition },
                    ),
                };
                self.subgraph_retry_countdown = self.subgraph_retries;
                self.last_sdl = Some(sdl);
                if let SubgraphSchemaWatcherKind::Once(_) = &self.schema_watcher_kind {
                    self.stopped = true;
                }
                let notice = if restored {
                    Some(WatcherNotice::ConnectivityRestored)
                } else {
                    None
                };
                (message, notice)
            },
            Err(error) => {
                if self.subgraph_retry_countdown > 0 {
                    self.subgraph_retry_countdown -= 1;
                    (None, Some(WatcherNotice::RetryWarning { error }))
                } else {
                    self.stopped = true;
                    (
                        Some(
                            FollowerMessageKind::RemoveSubgraph {
                                subgraph_name: self.subgraph_key.name.clone(),
                            },
                        ),
                        Some(WatcherNotice::RetriesExhausted),
                    )
                }
            },
        }
    }

    /// Replaces the source; all else stays.
    pub fn set_schema_refresher(&mut self, new_refresher: SubgraphSchemaWatcherKind)
        ensures
            final(self)@ == (WatcherView { kind: new_refresher@, ..old(self)@ }),
    {
        self.schema_watcher_kind = new_refresher;
    }

    /// The subgraph's name.
    pub fn get_name(&self) -> (name: String)
        ensures
            name@ == self@.key.0,
    {
        self.subgraph_key.name.clone()
    }

    /// The retries that are left before the subgraph is detached.
    pub fn retries_left(&self) -> (left: u64)
        ensures
            left == self@.countdown,
    {
        self.subgraph_retry_countdown
    }

    /// True once the watcher is done.
    pub fn is_stopped(&self) -> (stopped: bool)
        ensures
            stopped == self@.stopped,
    {
        self.stopped
    }
}

} // verus!
