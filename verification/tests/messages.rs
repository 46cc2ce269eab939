use rover_dev::messages::{conflict_message, pkg_version, LeaderMessageKind};
use rover_dev::types::SubgraphKey;

#[test]
fn leader_message_can_get_version() {
    let follower_version = pkg_version();
    let message = LeaderMessageKind::get_version(&follower_version);
    assert_eq!(
        message,
        LeaderMessageKind::GetVersion {
            follower_version: follower_version.clone(),
            leader_version: follower_version,
        }
    );
}

#[test]
fn composition_success_names_the_change() {
    let name = "films".to_string();
    assert_eq!(
        LeaderMessageKind::add_subgraph_composition_success(&name),
        LeaderMessageKind::CompositionSuccess { action: "adding 'films'".to_string() }
    );
    assert_eq!(
        LeaderMessageKind::update_subgraph_composition_success(&name),
        LeaderMessageKind::CompositionSuccess { action: "updating 'films'".to_string() }
    );
    assert_eq!(
        LeaderMessageKind::remove_subgraph_composition_success(&name),
        LeaderMessageKind::CompositionSuccess { action: "removing 'films'".to_string() }
    );
}

#[test]
fn plain_replies() {
    assert_eq!(LeaderMessageKind::message_received(), LeaderMessageKind::MessageReceived);
    assert_eq!(
        LeaderMessageKind::error("bad".to_string()),
        LeaderMessageKind::ErrorNotification { error: "bad".to_string() }
    );
    let keys = vec![SubgraphKey::new("a".to_string(), "http://a/".to_string())];
    assert_eq!(
        LeaderMessageKind::current_subgraphs(keys.clone()),
        LeaderMessageKind::LeaderSessionInfo { subgraphs: keys }
    );
}

#[test]
fn conflict_text_names_key() {
    let key = SubgraphKey::new("a".to_string(), "http://a/".to_string());
    assert_eq!(conflict_message(&key), "subgraph with name 'a' and url 'http://a/' already exists");
    assert!(key.same_as(&key.clone()));
    assert!(!key.same_as(&SubgraphKey::new("a".to_string(), "http://b/".to_string())));
}
