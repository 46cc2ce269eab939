use crate::text::{decimal, decimal_text};
use crate::types::{keys_view, SubgraphEntry, SubgraphKey};
use vstd::prelude::*;
use vstd::string::*;

verus! {

/// The version that a leader reports in the version handshake.
pub open spec fn pkg_version_text() -> Seq<char> {
    "0.1.0"@
}

/// The version of this library, as the leader reports it.
pub fn pkg_version() -> (version: String)
    ensures
        version@ == pkg_version_text(),
{
    String::from_str("0.1.0")
}

/// A request that a follower sends to the leader.
#[derive(Debug, PartialEq, Eq)]
pub enum FollowerMessageKind {
    GetVersion { follower_version: String },
    GetSubgraphs,
    HealthCheck,
    Shutdown,
    AddSubgraph { subgraph_entry: SubgraphEntry },
    UpdateSubgraph { subgraph_entry: SubgraphEntry },
    RemoveSubgraph { subgraph_name: String },
}

/// The mathematical content of a follower's request.
pub enum FollowerRequest {
    GetVersion { follower_version: Seq<char> },
    GetSubgraphs,
    HealthCheck,
    Shutdown,
    AddSubgraph { subgraph_entry: ((Seq<char>, Seq<char>), Seq<char>) },
    UpdateSubgraph { subgraph_entry: ((Seq<char>, Seq<char>), Seq<char>) },
    RemoveSubgraph { subgraph_name: Seq<char> },
}

impl View for FollowerMessageKind {
    type V = FollowerRequest;

    open spec fn view(&self) -> FollowerRequest {
        match *self {
            FollowerMessageKind::GetVersion { follower_version } => FollowerRequest::GetVersion {
                follower_version: follower_version@,
            },
            FollowerMessageKind::GetSubgraphs => FollowerRequest::GetSubgraphs,
            FollowerMessageKind::HealthCheck => FollowerRequest::HealthCheck,
            FollowerMessageKind::Shutdown => FollowerRequest::Shutdown,
            FollowerMessageKind::AddSubgraph { subgraph_entry } => FollowerRequest::AddSubgraph {
                subgraph_entry: subgraph_entry@,
            },
            FollowerMessageKind::UpdateSubgraph { subgraph_entry } => {
                FollowerRequest::UpdateSubgraph { subgraph_entry: subgraph_entry@ }
            },
            FollowerMessageKind::RemoveSubgraph { subgraph_name } => {
                FollowerRequest::RemoveSubgraph { subgraph_name: subgraph_name@ }
            },
        }
    }
}

/// A request together with the mark that tells whether the leader's own
/// process sent it.
#[derive(Debug, PartialEq, Eq)]
pub struct FollowerMessage {
    kind: FollowerMessageKind,
    is_from_main_session: bool,
}

impl FollowerMessage {
    pub closed spec fn spec_kind(&self) -> FollowerMessageKind {
        self.kind
    }

    pub closed spec fn spec_is_from_main_session(&self) -> bool {
        self.is_from_main_session
    }

    /// Wraps a request with its origin mark.
    pub fn new(kind: FollowerMessageKind, is_from_main_session: bool) -> (message: FollowerMessage)
        ensures
            message.spec_kind() == kind,
            message.spec_is_from_main_session() == is_from_main_session,
    {
        FollowerMessage { kind, is_from_main_session }
    }

    /// A liveness probe.
    pub fn health_check(is_from_main_session: bool) -> (message: FollowerMessage)
        ensures
            message.spec_kind() == FollowerMessageKind::HealthCheck,
            message.spec_is_from_main_session() == is_from_main_session,
    {
        FollowerMessage { kind: FollowerMessageKind::HealthCheck, is_from_main_session }
    }

    /// The request itself.
    pub fn kind(&self) -> (kind: &FollowerMessageKind)
        ensures
            *kind == self.spec_kind(),
    {
        &self.kind
    }

    /// Whether the leader's own process sent the request.
    pub fn is_from_main_session(&self) -> (from_main: bool)
        ensures
            from_main == self.spec_is_from_main_session(),
    {
        self.is_from_main_session
    }
}

/// The mathematical content of a leader's reply.
pub enum LeaderReply {
    GetVersion { follower_version: Seq<char>, leader_version: Seq<char> },
    LeaderSessionInfo { subgraphs: Seq<(Seq<char>, Seq<char>)> },
    CompositionSuccess { action: Seq<char> },
    ErrorNotification { error: Seq<char> },
    MessageReceived,
}

/// The reply that the leader gives to one request.
#[derive(Debug, PartialEq, Eq)]
pub enum LeaderMessageKind {
    GetVersion { follower_version: String, leader_version: String },
    LeaderSessionInfo { subgraphs: Vec<SubgraphKey> },
    CompositionSuccess { action: String },
    ErrorNotification { error: String },
    MessageReceived,
}

impl View for LeaderMessageKind {
    type V = LeaderReply;

    open spec fn view(&self) -> LeaderReply {
        match *self {
            LeaderMessageKind::GetVersion { follower_version, leader_version } => {
                LeaderReply::GetVersion {
                    follower_version: follower_version@,
                    leader_version: leader_version@,
                }
            },
            LeaderMessageKind::LeaderSessionInfo { subgraphs } => LeaderReply::LeaderSessionInfo {
                subgraphs: keys_view(subgraphs@),
            },
            LeaderMessageKind::CompositionSuccess { action } => LeaderReply::CompositionSuccess {
                action: action@,
            },
            LeaderMessageKind::ErrorNotification { error } => LeaderReply::ErrorNotification {
                error: error@,
            },
            LeaderMessageKind::MessageReceived => LeaderReply::MessageReceived,
        }
    }
}

/// The action text of a successful composition after a subgraph was added.
pub open spec fn adding_action(name: Seq<char>) -> Seq<char> {
    "adding '"@ + name + "'"@
}

/// The action text of a successful composition after a subgraph was updated.
pub open spec fn updating_action(name: Seq<char>) -> Seq<char> {
    "updating '"@ + name + "'"@
}

/// The action text of a successful composition after a subgraph was removed.
pub open spec fn removing_action(name: Seq<char>) -> Seq<char> {
    "removing '"@ + name + "'"@
}

/// The error text for an add whose exact key is already registered.
pub open spec fn conflict_text(key: (Seq<char>, Seq<char>)) -> Seq<char> {
    "subgraph with name '"@ + key.0 + "' and url '"@ + key.1 + "' already exists"@
}

/// Builds the error text for an add whose exact key is already registered.
pub fn conflict_message(key: &SubgraphKey) -> (text: String)
    ensures
        text@ == conflict_text(key@),
{
    let mut text = String::from_str("subgraph with name '");
    text.append(key.name.as_str());
    text.append("' and url '");
    text.append(key.url.as_str());
    text.append("' already exists");
    text
}

/// A follower's and a leader's version differ: the reply to a version
/// handshake names two versions that are not the same.
pub open spec fn versions_differ(reply: LeaderReply) -> bool {
    reply matches LeaderReply::GetVersion { follower_version, leader_version } && follower_version
        != leader_version
}

/// Where the leader shows a reply to its own user.
#[derive(Debug, Clone, Copy, PartialEq, Eq, Structural)]
pub enum PrintChannel {
    /// On the error stream, for the user to read.
    Stderr,
    /// In the log, as information.
    Info,
    /// In the log, for debugging.
    Debug,
}

/// How a number of subgraphs is told.
pub open spec fn subgraph_count_text(n: nat) -> Seq<char> {
    if n == 0 {
        "no subgraphs"@
    } else if n == 1 {
        "1 subgraph"@
    } else {
        decimal(n) + " subgraphs"@
    }
}

/// Where and with what words the leader shows a reply.
pub open spec fn printed(reply: LeaderReply) -> (PrintChannel, Seq<char>) {
    match reply {
        LeaderReply::ErrorNotification { error } => (PrintChannel::Stderr, error),
        LeaderReply::CompositionSuccess { action } => (
            PrintChannel::Stderr,
            "successfully composed after "@ + action,
        ),
        LeaderReply::LeaderSessionInfo { subgraphs } => (
            PrintChannel::Info,
            "the main `rover dev` process currently has "@ + subgraph_count_text(subgraphs.len()),
        ),
        LeaderReply::GetVersion { leader_version, .. } => (
            PrintChannel::Debug,
            "the main `rover dev` process is running version "@ + leader_version,
        ),
        LeaderReply::MessageReceived => (
            PrintChannel::Debug,
            "the main `rover dev` process acknowledged the message, but did not take an action"@,
        ),
    }
}

impl LeaderMessageKind {
    /// Where and with what words the leader shows this reply; the caller
    /// does the printing.
    pub fn print(&self) -> (shown: (PrintChannel, String))
        ensures
            (shown.0, shown.1@) == printed(self@),
    {
        match self {
            LeaderMessageKind::ErrorNotification { error } => (PrintChannel::Stderr, error.clone()),
            LeaderMessageKind::CompositionSuccess { action } => {
                let mut text = String::from_str("successfully composed after ");
                text.append(action.as_str());
                (PrintChannel::Stderr, text)
            },
            LeaderMessageKind::LeaderSessionInfo { subgraphs } => {
                let mut text = String::from_str("the main `rover dev` process currently has ");
                let n = subgraphs.len();
                if n == 0 {
                    text.append("no subgraphs");
                } else if n == 1 {
                    text.append("1 subgraph");
                } else {
                    let mut count = decimal_text(n as u64);
                    count.append(" subgraphs");
                    text.append(count.as_str());
                }
                (PrintChannel::Info, text)
            },
            LeaderMessageKind::GetVersion { leader_version, follower_version: _ } => {
                let mut text = String::from_str(
                    "the main `rover dev` process is running version ",
                );
                text.append(leader_version.as_str());
                (PrintChannel::Debug, text)
            },
            LeaderMessageKind::MessageReceived => (
                PrintChannel::Debug,
                String::from_str(
                    "the main `rover dev` process acknowledged the message, but did not take an action",
                ),
            ),
        }
    }

    /// Whether a follower that got this reply to its version handshake
    /// owes its user a warning: the two versions differ. The follower goes
    /// on either way.
    pub fn version_mismatch(&self) -> (differ: bool)
        ensures
            differ == versions_differ(self@),
    {
        match self {
            LeaderMessageKind::GetVersion { follower_version, leader_version } => {
                !(*follower_version == *leader_version)
            },
            _ => false,
        }
    }

    /// Answers a version handshake with the follower's and the leader's version.
    pub fn get_version(follower_version: &str) -> (reply: LeaderMessageKind)
        ensures
            reply@ == (LeaderReply::GetVersion {
                follower_version: follower_version@,
                leader_version: pkg_version_text(),
            }),
    {
        LeaderMessageKind::GetVersion {
            follower_version: String::from_str(follower_version),
            leader_version: pkg_version(),
        }
    }

    /// Reports the keys that the leader currently holds.
    pub fn current_subgraphs(subgraphs: Vec<SubgraphKey>) -> (reply: LeaderMessageKind)
        ensures
            reply@ == (LeaderReply::LeaderSessionInfo { subgraphs: keys_view(subgraphs@) }),
    {
        LeaderMessageKind::LeaderSessionInfo { subgraphs }
    }

    /// Reports an error to the follower.
    pub fn error(error: String) -> (reply: LeaderMessageKind)
        ensures
            reply@ == (LeaderReply::ErrorNotification { error: error@ }),
    {
        LeaderMessageKind::ErrorNotification { error }
    }

    /// Reports a new supergraph schema after a subgraph was added.
    pub fn add_subgraph_composition_success(subgraph_name: &String) -> (reply: LeaderMessageKind)
        ensures
            reply@ == (LeaderReply::CompositionSuccess { action: adding_action(subgraph_name@) }),
    {
        let mut action = String::from_str("adding '");
        action.append(subgraph_name.as_str());
        action.append("'");
        LeaderMessageKind::CompositionSuccess { action }
    }

    /// Reports a new supergraph schema after a subgraph was updated.
    pub fn update_subgraph_composition_success(subgraph_name: &String) -> (reply:
        LeaderMessageKind)
        ensures
            reply@ == (LeaderReply::CompositionSuccess {
                action: updating_action(subgraph_name@),
            }),
    {
        let mut action = String::from_str("updating '");
        action.append(subgraph_name.as_str());
        action.append("'");
        LeaderMessageKind::CompositionSuccess { action }
    }

    /// Reports a new supergraph schema after a subgraph was removed.
    pub fn remove_subgraph_composition_success(subgraph_name: &String) -> (reply:
        LeaderMessageKind)
        ensures
            reply@ == (LeaderReply::CompositionSuccess {
                action: removing_action(subgraph_name@),
            }),
    {
        let mut action = String::from_str("removing '");
        action.append(subgraph_name.as_str());
        action.append("'");
        LeaderMessageKind::CompositionSuccess { action }
    }

    /// Acknowledges a request that led to no new schema.
    pub fn message_received() -> (reply: LeaderMessageKind)
        ensures
            reply@ == LeaderReply::MessageReceived,
    {
        LeaderMessageKind::MessageReceived
    }
}

} // verus!
