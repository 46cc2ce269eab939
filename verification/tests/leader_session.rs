use rover_dev::leader::{
    compose_reply, prints_reply, CompositionStatus, DriverStep, LeaderSession, LeaderStep,
    PendingChange, StartupError, SHUTDOWN_EXIT_CODE,
};
use rover_dev::messages::{FollowerMessage, FollowerMessageKind, LeaderMessageKind};
use rover_dev::types::{CompositionResult, SubgraphEntry, SubgraphKey};
use rover_dev::version::FederationVersion;

fn entry(name: &str, url: &str, sdl: &str) -> SubgraphEntry {
    SubgraphEntry::new(name.to_string(), url.to_string(), sdl.to_string())
}

fn leader() -> LeaderSession {
    let mut session = LeaderSession::new(
        "/tmp/r.sock".to_string(),
        "127.0.0.1:4000",
        false,
        true,
        None,
        None,
    )
    .unwrap()
    .unwrap();
    session.router_installed(true);
    session
}

/// Runs one request to its reply, with a composer that answers `composed`
/// and a router whose spawn succeeds.
fn exchange(
    session: &mut LeaderSession,
    message: FollowerMessageKind,
    composed: CompositionResult,
) -> LeaderMessageKind {
    match session.handle_follower_message_kind(&message) {
        LeaderStep::Reply(reply) => reply,
        LeaderStep::Compose(pending) => {
            let outcome = match session.compose(composed) {
                DriverStep::Spawn(schema) => session.router_spawned(schema, None).outcome(),
                other => other.outcome(),
            }
            .unwrap();
            compose_reply(&pending, &outcome)
        }
        LeaderStep::Shutdown => panic!("no reply to a shutdown"),
    }
}

fn add(name: &str, url: &str, sdl: &str) -> FollowerMessageKind {
    FollowerMessageKind::AddSubgraph { subgraph_entry: entry(name, url, sdl) }
}

fn update(name: &str, url: &str, sdl: &str) -> FollowerMessageKind {
    FollowerMessageKind::UpdateSubgraph { subgraph_entry: entry(name, url, sdl) }
}

fn remove(name: &str) -> FollowerMessageKind {
    FollowerMessageKind::RemoveSubgraph { subgraph_name: name.to_string() }
}

fn schema(text: &str) -> CompositionResult {
    Ok(Some(text.to_string()))
}

#[test]
fn first_add_is_acknowledged_and_router_runs() {
    let mut session = leader();
    assert!(!session.router_is_running());
    let reply = exchange(
        &mut session,
        add("users", "http://u/", "type Query{ me: ID }"),
        schema("supergraph one"),
    );
    assert_eq!(reply, LeaderMessageKind::MessageReceived);
    assert!(session.router_is_running());
    assert_eq!(session.subgraph_count(), 1);
}

#[test]
fn second_add_announces_composition() {
    let mut session = leader();
    exchange(&mut session, add("users", "http://u/", "type Query{ me: ID }"), schema("one"));
    let reply = exchange(
        &mut session,
        add("posts", "http://p/", "type Query{ posts: [ID] }"),
        schema("two"),
    );
    assert_eq!(
        reply,
        LeaderMessageKind::CompositionSuccess { action: "adding 'posts'".to_string() }
    );
    assert_eq!(session.subgraph_count(), 2);
}

#[test]
fn identical_update_is_only_acknowledged() {
    let mut session = leader();
    exchange(&mut session, add("users", "http://u/", "type Query{ me: ID }"), schema("one"));
    exchange(&mut session, add("posts", "http://p/", "type Query{ posts: [ID] }"), schema("two"));
    let step = session
        .handle_follower_message_kind(&update("users", "http://u/", "type Query{ me: ID }"));
    assert_eq!(step, LeaderStep::Reply(LeaderMessageKind::MessageReceived));
    assert_eq!(session.subgraph_count(), 2);
    assert!(session.router_is_running());
}

#[test]
fn remove_announces_composition() {
    let mut session = leader();
    exchange(&mut session, add("users", "http://u/", "type Query{ me: ID }"), schema("one"));
    exchange(&mut session, add("posts", "http://p/", "type Query{ posts: [ID] }"), schema("two"));
    let reply = exchange(&mut session, remove("posts"), schema("three"));
    assert_eq!(
        reply,
        LeaderMessageKind::CompositionSuccess { action: "removing 'posts'".to_string() }
    );
    assert_eq!(session.subgraph_count(), 1);
    assert_eq!(
        session.get_subgraphs(),
        vec![SubgraphKey::new("users".to_string(), "http://u/".to_string())]
    );
}

#[test]
fn second_process_attaches_without_looking_at_the_port() {
    let started = LeaderSession::new(
        "/tmp/r.sock".to_string(),
        "127.0.0.1:4000",
        true,
        false,
        None,
        None,
    );
    assert_eq!(started, Ok(None));
}

#[test]
fn taken_router_address_fails_startup() {
    let started = LeaderSession::new(
        "/tmp/r.sock".to_string(),
        "127.0.0.1:4000",
        false,
        false,
        None,
        None,
    );
    assert_eq!(
        started,
        Err(StartupError::AddressInUse {
            message: "You cannot bind the router to '127.0.0.1:4000' because that address is already in use by another process on this machine.".to_string(),
            suggestion: "Try setting a different port for the router to bind to with the `--supergraph-port` argument, or shut down the process bound to '127.0.0.1:4000'.".to_string(),
        })
    );
}

#[test]
fn new_session_resolves_the_federation_version() {
    let session = LeaderSession::new(
        "/tmp/r.sock".to_string(),
        "127.0.0.1:4000",
        false,
        true,
        Some(FederationVersion::ExactFedTwo("2.3.5".to_string())),
        Some("0.50.0".to_string()),
    )
    .unwrap()
    .unwrap();
    assert_eq!(*session.federation_version(), FederationVersion::ExactFedOne("0.50.0".to_string()));
    assert_eq!(session.raw_socket_name(), "/tmp/r.sock");
    assert_eq!(session.subgraph_count(), 0);
    assert!(!session.router_is_running());
}

#[test]
fn duplicate_add_is_refused_and_changes_nothing() {
    let mut session = leader();
    exchange(&mut session, add("users", "http://u/", "a"), schema("one"));
    let step = session.handle_follower_message_kind(&add("users", "http://u/", "b"));
    assert_eq!(
        step,
        LeaderStep::Reply(LeaderMessageKind::ErrorNotification {
            error: "subgraph with name 'users' and url 'http://u/' already exists".to_string()
        })
    );
    assert_eq!(session.subgraph_count(), 1);
    assert_eq!(session.supergraph_config().subgraphs, vec![entry("users", "http://u/", "a")]);
}

#[test]
fn same_name_with_other_url_is_another_key() {
    let mut session = leader();
    exchange(&mut session, add("users", "http://u/", "a"), schema("one"));
    let reply = exchange(&mut session, add("users", "http://v/", "b"), schema("two"));
    assert_eq!(
        reply,
        LeaderMessageKind::CompositionSuccess { action: "adding 'users'".to_string() }
    );
    assert_eq!(session.subgraph_count(), 2);
}

#[test]
fn changed_update_announces_composition() {
    let mut session = leader();
    exchange(&mut session, add("users", "http://u/", "a"), schema("one"));
    let reply = exchange(&mut session, update("users", "http://u/", "b"), schema("two"));
    assert_eq!(
        reply,
        LeaderMessageKind::CompositionSuccess { action: "updating 'users'".to_string() }
    );
    assert_eq!(session.supergraph_config().subgraphs, vec![entry("users", "http://u/", "b")]);
}

#[test]
fn update_twice_composes_once() {
    let mut session = leader();
    exchange(&mut session, add("users", "http://u/", "a"), schema("one"));
    let first = session.handle_follower_message_kind(&update("users", "http://u/", "b"));
    assert_eq!(first, LeaderStep::Compose(PendingChange::Update { name: "users".to_string() }));
    let after_first = session.supergraph_config().subgraphs;
    let second = session.handle_follower_message_kind(&update("users", "http://u/", "b"));
    assert_eq!(second, LeaderStep::Reply(LeaderMessageKind::MessageReceived));
    assert_eq!(session.supergraph_config().subgraphs, after_first);
}

#[test]
fn update_of_unknown_key_adds_it() {
    let mut session = leader();
    let step = session.handle_follower_message_kind(&update("users", "http://u/", "a"));
    assert_eq!(
        step,
        LeaderStep::Compose(PendingChange::Add { name: "users".to_string(), first: true })
    );
    assert_eq!(session.subgraph_count(), 1);
}

#[test]
fn add_then_remove_leaves_the_registry_empty() {
    let mut session = leader();
    let added = exchange(&mut session, add("users", "http://u/", "a"), schema("one"));
    let removed = exchange(&mut session, remove("users"), schema("two"));
    assert_eq!(added, LeaderMessageKind::MessageReceived);
    assert_eq!(
        removed,
        LeaderMessageKind::CompositionSuccess { action: "removing 'users'".to_string() }
    );
    assert_eq!(session.subgraph_count(), 0);
}

#[test]
fn remove_takes_the_earliest_of_a_name() {
    let mut session = leader();
    exchange(&mut session, add("users", "http://v/", "a"), schema("one"));
    exchange(&mut session, add("posts", "http://p/", "b"), schema("two"));
    exchange(&mut session, add("users", "http://u/", "c"), schema("three"));
    exchange(&mut session, remove("users"), schema("four"));
    assert_eq!(
        session.get_subgraphs(),
        vec![
            SubgraphKey::new("posts".to_string(), "http://p/".to_string()),
            SubgraphKey::new("users".to_string(), "http://u/".to_string()),
        ]
    );
}

#[test]
fn remove_of_unknown_name_is_only_acknowledged() {
    let mut session = leader();
    let step = session.handle_follower_message_kind(&remove("nobody"));
    assert_eq!(step, LeaderStep::Reply(LeaderMessageKind::MessageReceived));
}

#[test]
fn composer_error_is_reported_and_stops_the_router() {
    let mut session = leader();
    exchange(&mut session, add("users", "http://u/", "a"), schema("one"));
    assert!(session.router_is_running());
    let reply = exchange(&mut session, add("posts", "http://p/", "b"), Err("boom".to_string()));
    assert_eq!(reply, LeaderMessageKind::ErrorNotification { error: "boom".to_string() });
    assert!(!session.router_is_running());
    assert_eq!(session.subgraph_count(), 2);
}

#[test]
fn unchanged_schema_is_only_acknowledged() {
    let mut session = leader();
    exchange(&mut session, add("users", "http://u/", "a"), schema("one"));
    let reply = exchange(&mut session, add("posts", "http://p/", "b"), Ok(None));
    assert_eq!(reply, LeaderMessageKind::MessageReceived);
    assert!(session.router_is_running());
}

#[test]
fn failed_spawn_counts_as_failed_composition() {
    let mut session = leader();
    exchange(&mut session, add("users", "http://u/", "a"), schema("one"));
    let pending = match session.handle_follower_message_kind(&add("posts", "http://p/", "b")) {
        LeaderStep::Compose(pending) => pending,
        other => panic!("unexpected step {:?}", other),
    };
    let step = session.compose(schema("two"));
    assert_eq!(step, DriverStep::Spawn("two".to_string()));
    let step = session.router_spawned("two".to_string(), Some("no router".to_string()));
    assert_eq!(step, DriverStep::Failed("no router".to_string()));
    assert!(!session.router_is_running());
    let reply = compose_reply(&pending, &step.outcome().unwrap());
    assert_eq!(reply, LeaderMessageKind::ErrorNotification { error: "no router".to_string() });
}

#[test]
fn crash_is_noticed_once() {
    let mut session = leader();
    exchange(&mut session, add("users", "http://u/", "a"), schema("one"));
    assert!(session.router_crashed());
    assert!(!session.router_is_running());
    assert!(!session.router_crashed());
}

#[test]
fn shutdown_request_stops_the_router() {
    let mut session = leader();
    exchange(&mut session, add("users", "http://u/", "a"), schema("one"));
    let step = session.handle_follower_message_kind(&FollowerMessageKind::Shutdown);
    assert_eq!(step, LeaderStep::Shutdown);
    assert!(!session.router_is_running());
    assert_eq!(session.subgraph_count(), 1);
    assert_eq!(SHUTDOWN_EXIT_CODE, 1);
}

#[test]
fn health_check_is_acknowledged() {
    let mut session = leader();
    let step = session.handle_follower_message_kind(&FollowerMessageKind::HealthCheck);
    assert_eq!(step, LeaderStep::Reply(LeaderMessageKind::MessageReceived));
}

#[test]
fn version_request_is_answered_with_both_versions() {
    let mut session = leader();
    let step = session.handle_follower_message_kind(&FollowerMessageKind::GetVersion {
        follower_version: "9.9.9".to_string(),
    });
    assert_eq!(
        step,
        LeaderStep::Reply(LeaderMessageKind::GetVersion {
            follower_version: "9.9.9".to_string(),
            leader_version: "0.1.0".to_string(),
        })
    );
}

#[test]
fn subgraphs_request_lists_the_keys() {
    let mut session = leader();
    exchange(&mut session, add("users", "http://u/", "a"), schema("one"));
    exchange(&mut session, add("posts", "http://p/", "b"), schema("two"));
    let step = session.handle_follower_message_kind(&FollowerMessageKind::GetSubgraphs);
    assert_eq!(
        step,
        LeaderStep::Reply(LeaderMessageKind::LeaderSessionInfo {
            subgraphs: vec![
                SubgraphKey::new("users".to_string(), "http://u/".to_string()),
                SubgraphKey::new("posts".to_string(), "http://p/".to_string()),
            ]
        })
    );
}

#[test]
fn composer_input_is_ordered_by_name_then_url() {
    let mut session = leader();
    exchange(&mut session, add("users", "http://u/", "a"), schema("1"));
    exchange(&mut session, add("posts", "http://q/", "b"), schema("2"));
    exchange(&mut session, add("posts", "http://p/", "c"), schema("3"));
    exchange(&mut session, add("post", "http://z/", "d"), schema("4"));
    let config = session.supergraph_config();
    assert_eq!(
        config.subgraphs,
        vec![
            entry("post", "http://z/", "d"),
            entry("posts", "http://p/", "c"),
            entry("posts", "http://q/", "b"),
            entry("users", "http://u/", "a"),
        ]
    );
    assert_eq!(config.federation_version, FederationVersion::LatestFedTwo);
}

#[test]
fn replies_to_the_main_session_are_not_shown() {
    assert!(!prints_reply(&FollowerMessage::health_check(true)));
    assert!(prints_reply(&FollowerMessage::health_check(false)));
    let message = FollowerMessage::new(FollowerMessageKind::GetSubgraphs, false);
    assert_eq!(*message.kind(), FollowerMessageKind::GetSubgraphs);
    assert!(!message.is_from_main_session());
}

#[test]
fn status_values_differ() {
    assert_ne!(CompositionStatus::Succeeded, CompositionStatus::Failed);
    assert_ne!(CompositionStatus::NotYet, CompositionStatus::Failed);
}

#[test]
fn missing_listener_fails_startup() {
    let session = leader();
    assert_eq!(session.receive_messages_from_attached_sessions(true), Ok(()));
    assert_eq!(
        session.receive_messages_from_attached_sessions(false),
        Err(StartupError::RendezvousUnavailable {
            message: "could not start local socket server at '/tmp/r.sock'".to_string(),
            suggestion: "Try removing the stale socket file '/tmp/r.sock' and starting again."
                .to_string(),
        })
    );
}

#[test]
fn session_tells_its_state() {
    let mut session = leader();
    assert_eq!(session.router_status(), rover_dev::router::RouterState::Installed);
    assert_eq!(session.last_composition_status(), CompositionStatus::NotYet);
    assert!(!session.shutdown_requested());
    exchange(&mut session, add("users", "http://u/", "a"), schema("one"));
    assert_eq!(session.last_composition_status(), CompositionStatus::Succeeded);
    exchange(&mut session, update("users", "http://u/", "b"), Err("bad".to_string()));
    assert_eq!(session.last_composition_status(), CompositionStatus::Failed);
    session.shutdown();
    assert!(session.shutdown_requested());
    assert!(!session.router_is_running());
}
