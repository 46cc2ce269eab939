use rover_dev::messages::FollowerMessageKind;
use rover_dev::types::{SubgraphEntry, SubgraphKey};
use rover_dev::watcher::{
    choose_routing_url, FetchPlan, Fetched, IntrospectDialect, IntrospectRunnerKind,
    SubgraphSchemaWatcher, SubgraphSchemaWatcherKind, WatcherError, WatcherNotice, WatcherStep,
    WatcherWait,
};

fn key(name: &str, url: &str) -> SubgraphKey {
    SubgraphKey::new(name.to_string(), url.to_string())
}

fn ok(sdl: &str) -> Result<Fetched, String> {
    Ok(Fetched { sdl: sdl.to_string(), dialect: IntrospectDialect::Subgraph })
}

fn err(text: &str) -> Result<Fetched, String> {
    Err(text.to_string())
}

fn flaky(retries: u64) -> SubgraphSchemaWatcher {
    SubgraphSchemaWatcher::new_from_url(
        key("flaky", "http://flaky/"),
        5,
        retries,
        "http://flaky/".to_string(),
    )
}

#[test]
fn three_failures_with_two_retries_detach_the_subgraph() {
    let mut watcher = flaky(2);
    let first = watcher.watch_subgraph_for_changes(ok("type Query { a: ID }"));
    assert_eq!(
        first,
        WatcherStep {
            message: Some(FollowerMessageKind::AddSubgraph {
                subgraph_entry: SubgraphEntry::new(
                    "flaky".to_string(),
                    "http://flaky/".to_string(),
                    "type Query { a: ID }".to_string()
                )
            }),
            notice: None,
            wait: WatcherWait::Sleep(5),
        }
    );
    assert_eq!(watcher.retries_left(), 2);

    let step = watcher.watch_subgraph_for_changes(err("down"));
    assert_eq!(
        step,
        WatcherStep {
            message: None,
            notice: Some(WatcherNotice::RetryWarning { error: "down".to_string() }),
            wait: WatcherWait::Sleep(5),
        }
    );
    assert_eq!(watcher.retries_left(), 1);

    let step = watcher.watch_subgraph_for_changes(err("still down"));
    assert_eq!(step.message, None);
    assert_eq!(step.notice, Some(WatcherNotice::RetryWarning { error: "still down".to_string() }));
    assert_eq!(watcher.retries_left(), 0);
    assert!(!watcher.is_stopped());

    let step = watcher.watch_subgraph_for_changes(err("gone"));
    assert_eq!(
        step,
        WatcherStep {
            message: Some(FollowerMessageKind::RemoveSubgraph {
                subgraph_name: "flaky".to_string()
            }),
            notice: Some(WatcherNotice::RetriesExhausted),
            wait: WatcherWait::Stop,
        }
    );
    assert!(watcher.is_stopped());

    let step = watcher.watch_subgraph_for_changes(ok("type Query { a: ID }"));
    assert_eq!(step, WatcherStep { message: None, notice: None, wait: WatcherWait::Stop });
    assert!(watcher.is_stopped());
}

#[test]
fn without_retries_the_first_failure_detaches() {
    let mut watcher = flaky(0);
    watcher.watch_subgraph_for_changes(ok("a"));
    let step = watcher.watch_subgraph_for_changes(err("down"));
    assert_eq!(
        step.message,
        Some(FollowerMessageKind::RemoveSubgraph { subgraph_name: "flaky".to_string() })
    );
    assert_eq!(step.wait, WatcherWait::Stop);
}

#[test]
fn fresh_watcher_has_no_retry_before_its_first_success() {
    let mut watcher = flaky(3);
    assert_eq!(watcher.retries_left(), 0);
    let step = watcher.watch_subgraph_for_changes(err("down"));
    assert_eq!(step.notice, Some(WatcherNotice::RetriesExhausted));
    assert!(watcher.is_stopped());
}

#[test]
fn success_resets_the_countdown_and_tells_of_it() {
    let mut watcher = flaky(2);
    watcher.watch_subgraph_for_changes(ok("a"));
    watcher.watch_subgraph_for_changes(err("down"));
    assert_eq!(watcher.retries_left(), 1);
    let step = watcher.watch_subgraph_for_changes(ok("a"));
    assert_eq!(
        step,
        WatcherStep {
            message: None,
            notice: Some(WatcherNotice::ConnectivityRestored),
            wait: WatcherWait::Sleep(5),
        }
    );
    assert_eq!(watcher.retries_left(), 2);
    let step = watcher.watch_subgraph_for_changes(ok("a"));
    assert_eq!(step.notice, None);
}

#[test]
fn changed_sdl_is_sent_as_update() {
    let mut watcher = SubgraphSchemaWatcher::new_from_file_path(
        key("films", "http://f/"),
        "films.graphql".to_string(),
        0,
    );
    assert_eq!(watcher.fetch_plan(), FetchPlan::ReadFile { path: "films.graphql".to_string() });
    let step = watcher.watch_subgraph_for_changes(ok("a"));
    assert_eq!(step.wait, WatcherWait::FileChange);
    let step = watcher.watch_subgraph_for_changes(ok("a"));
    assert_eq!(step.message, None);
    let step = watcher.watch_subgraph_for_changes(ok("b"));
    assert_eq!(
        step.message,
        Some(FollowerMessageKind::UpdateSubgraph {
            subgraph_entry: SubgraphEntry::new(
                "films".to_string(),
                "http://f/".to_string(),
                "b".to_string()
            )
        })
    );
    assert_eq!(watcher.get_name(), "films");
}

#[test]
fn fixed_sdl_is_sent_once() {
    let mut watcher =
        SubgraphSchemaWatcher::new_from_sdl(key("films", "http://f/"), "sdl".to_string(), 4);
    assert_eq!(watcher.fetch_plan(), FetchPlan::Nothing);
    let step = watcher.watch_subgraph_for_changes(err("not looked at"));
    assert_eq!(
        step,
        WatcherStep {
            message: Some(FollowerMessageKind::AddSubgraph {
                subgraph_entry: SubgraphEntry::new(
                    "films".to_string(),
                    "http://f/".to_string(),
                    "sdl".to_string()
                )
            }),
            notice: None,
            wait: WatcherWait::Stop,
        }
    );
    assert!(watcher.is_stopped());
}

#[test]
fn first_answer_settles_the_dialect() {
    let mut watcher = flaky(0);
    assert_eq!(
        watcher.fetch_plan(),
        FetchPlan::Introspect {
            endpoint: "http://flaky/".to_string(),
            dialect: IntrospectDialect::Unknown
        }
    );
    let fetched = Ok(Fetched { sdl: "a".to_string(), dialect: IntrospectDialect::Graph });
    let (definition, refreshed) =
        watcher.get_subgraph_definition_and_maybe_new_runner(fetched).unwrap();
    assert_eq!(
        definition,
        SubgraphEntry::new("flaky".to_string(), "http://flaky/".to_string(), "a".to_string())
    );
    assert_eq!(
        refreshed,
        Some(SubgraphSchemaWatcherKind::Introspect(
            IntrospectRunnerKind {
                dialect: IntrospectDialect::Graph,
                endpoint: "http://flaky/".to_string()
            },
            5
        ))
    );
    watcher.watch_subgraph_for_changes(Ok(Fetched {
        sdl: "a".to_string(),
        dialect: IntrospectDialect::Graph,
    }));
    assert_eq!(
        watcher.fetch_plan(),
        FetchPlan::Introspect {
            endpoint: "http://flaky/".to_string(),
            dialect: IntrospectDialect::Graph
        }
    );
    let later = watcher
        .get_subgraph_definition_and_maybe_new_runner(Ok(Fetched {
            sdl: "b".to_string(),
            dialect: IntrospectDialect::Subgraph,
        }))
        .unwrap();
    assert_eq!(later.1, None);
    assert_eq!(watcher.get_subgraph_definition_and_maybe_new_runner(err("x")), Err("x".to_string()));
}

#[test]
fn set_schema_refresher_swaps_the_source() {
    let mut watcher = flaky(1);
    watcher.set_schema_refresher(SubgraphSchemaWatcherKind::File("a.graphql".to_string()));
    assert_eq!(watcher.fetch_plan(), FetchPlan::ReadFile { path: "a.graphql".to_string() });
    assert_eq!(watcher.next_wait(), WatcherWait::FileChange);
}

#[test]
fn graph_ref_watcher_prefers_the_given_routing_url() {
    let mut watcher = SubgraphSchemaWatcher::new_from_graph_ref(
        "graph@current",
        "films".to_string(),
        Some("http://mine/".to_string()),
        "movies".to_string(),
        "sdl".to_string(),
        Some("http://registry.example".to_string()),
        0,
    )
    .unwrap();
    let step = watcher.watch_subgraph_for_changes(err("unused"));
    assert_eq!(
        step.message,
        Some(FollowerMessageKind::AddSubgraph {
            subgraph_entry: SubgraphEntry::new(
                "movies".to_string(),
                "http://mine/".to_string(),
                "sdl".to_string()
            )
        })
    );
}

#[test]
fn graph_ref_watcher_parses_the_registry_routing_url() {
    let mut watcher = SubgraphSchemaWatcher::new_from_graph_ref(
        "graph@current",
        "films".to_string(),
        None,
        "movies".to_string(),
        "sdl".to_string(),
        Some("HTTP://Registry.Example".to_string()),
        0,
    )
    .unwrap();
    let step = watcher.watch_subgraph_for_changes(err("unused"));
    assert_eq!(
        step.message,
        Some(FollowerMessageKind::AddSubgraph {
            subgraph_entry: SubgraphEntry::new(
                "movies".to_string(),
                "http://registry.example/".to_string(),
                "sdl".to_string()
            )
        })
    );
}

#[test]
fn graph_ref_watcher_rejects_a_bad_registry_url() {
    let made = SubgraphSchemaWatcher::new_from_graph_ref(
        "graph@current",
        "films".to_string(),
        None,
        "movies".to_string(),
        "sdl".to_string(),
        Some("not a url".to_string()),
        0,
    );
    assert_eq!(
        made,
        Err(WatcherError::InvalidRoutingUrl {
            message: "Could not parse graph registry routing url not a url".to_string()
        })
    );
}

#[test]
fn graph_ref_watcher_needs_some_routing_url() {
    let made = SubgraphSchemaWatcher::new_from_graph_ref(
        "graph@current",
        "films".to_string(),
        None,
        "movies".to_string(),
        "sdl".to_string(),
        None,
        0,
    );
    assert_eq!(
        made,
        Err(WatcherError::MissingRoutingUrl {
            message: "Could not find routing URL in GraphOS for subgraph films".to_string(),
            subgraph_name: "movies".to_string(),
            graph_ref: "graph@current".to_string(),
        })
    );
}

#[test]
fn routing_url_choice_on_given_parse() {
    assert_eq!(
        choose_routing_url(None, Some("x".to_string()), Some("http://x/".to_string()), "g", "a", "b"),
        Ok("http://x/".to_string())
    );
    assert_eq!(
        choose_routing_url(None, Some("x".to_string()), None, "g", "a", "b"),
        Err(WatcherError::InvalidRoutingUrl {
            message: "Could not parse graph registry routing url x".to_string()
        })
    );
}

#[test]
fn notices_are_told_in_their_words() {
    assert_eq!(
        WatcherNotice::ConnectivityRestored.text("films"),
        "subgraph connectivity restored for films"
    );
    assert_eq!(
        WatcherNotice::RetryWarning { error: "refused".to_string() }.text("films"),
        "error detected communicating with subgraph 'films', schema changes will not be reflected.\nWill retry but subgraph logs should be inspected\nError: refused"
    );
    assert_eq!(
        WatcherNotice::RetriesExhausted.text("films"),
        "retries exhausted for subgraph films. To add more run `rover dev` with the --subgraph-retries flag."
    );
}

#[test]
fn polling_is_announced_for_endpoints_only() {
    assert_eq!(flaky(0).polling_banner(), Some("polling http://flaky/ every 5 seconds".to_string()));
    let every_second = SubgraphSchemaWatcher::new_from_introspect_runner(
        key("a", "http://a/"),
        IntrospectRunnerKind { dialect: IntrospectDialect::Graph, endpoint: "http://a/".to_string() },
        1,
        0,
    );
    assert_eq!(every_second.polling_banner(), Some("polling http://a/ every 1 second".to_string()));
    let fixed = SubgraphSchemaWatcher::new_from_sdl(key("a", "http://a/"), "sdl".to_string(), 0);
    assert_eq!(fixed.polling_banner(), None);
}
