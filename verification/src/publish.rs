use vstd::prelude::*;
use vstd::string::*;

verus! {

/// What a command to publish persisted queries was given: a graph ref, or
/// a graph id and a list id, and the manifest and profile to use.
#[derive(Debug, PartialEq, Eq)]
pub struct Publish {
    /// The name of the graph ref's graph, where a graph ref was given.
    pub graph_ref_name: Option<String>,
    /// The graph id to publish operations to.
    pub graph_id: Option<String>,
    /// The list id to publish operations to.
    pub list_id: Option<String>,
    /// Where the manifest of operations is read from.
    pub manifest: String,
    /// The profile whose credentials are used.
    pub profile_name: String,
}

/// Where the operations go.
#[derive(Debug, PartialEq, Eq)]
pub enum PublishTarget {
    /// To the list that is linked to the graph ref: its id has to be
    /// looked up.
    LinkedList { graph_id: String },
    /// To this list of this graph.
    List { graph_id: String, list_id: String },
}

/// The mathematical content of a publish target.
pub enum PublishTargetView {
    LinkedList { graph_id: Seq<char> },
    List { graph_id: Seq<char>, list_id: Seq<char> },
}

impl View for PublishTarget {
    type V = PublishTargetView;

    open spec fn view(&self) -> PublishTargetView {
        match *self {
            PublishTarget::LinkedList { graph_id } => PublishTargetView::LinkedList {
                graph_id: graph_id@,
            },
            PublishTarget::List { graph_id, list_id } => PublishTargetView::List {
                graph_id: graph_id@,
                list_id: list_id@,
            },
        }
    }
}

/// The error text for a graph id without a list id.
pub open spec fn missing_list_id_text(graph_id: Seq<char>) -> Seq<char> {
    "You must specify a --list-id <LIST_ID> when publishing operations to --graph-id "@ + graph_id
        + ", or, if a list is linked to a specific variant, you can leave --graph-id unspecified, and pass a full graph ref as a positional argument."@
}

/// The error text for a list id without a graph id.
pub open spec fn missing_graph_id_text(list_id: Seq<char>) -> Seq<char> {
    "You must specify a --graph-id <GRAPH_ID> when publishing operations to --list-id "@ + list_id
        + ", or, if "@ + list_id
        + " is linked to a specific variant, you can leave --list-id unspecified, and pass a full graph ref as a positional argument."@
}

/// The error text where nothing says where to publish to.
pub open spec fn missing_target_text() -> Seq<char> {
    "You must either specify a <GRAPH_REF> that has a linked persisted query list OR both a --graph_id <GRAPH_ID> and --list_id <LIST_ID>"@
}

/// No graph id or list id stands beside a graph ref.
pub open spec fn arguments_agree(
    graph_ref_name: Option<Seq<char>>,
    graph_id: Option<Seq<char>>,
    list_id: Option<Seq<char>>,
) -> bool {
    graph_ref_name is Some ==> graph_id is None && list_id is None
}

/// The target that the arguments name, or the text of the error.
pub open spec fn target_of(
    graph_ref_name: Option<Seq<char>>,
    graph_id: Option<Seq<char>>,
    list_id: Option<Seq<char>>,
) -> Result<PublishTargetView, Seq<char>> {
    match (graph_ref_name, graph_id, list_id) {
        (Some(name), _, _) => Ok(PublishTargetView::LinkedList { graph_id: name }),
        (None, Some(graph_id), Some(list_id)) => Ok(PublishTargetView::List { graph_id, list_id }),
        (None, Some(graph_id), None) => Err(missing_list_id_text(graph_id)),
        (None, None, Some(list_id)) => Err(missing_graph_id_text(list_id)),
        (None, None, None) => Err(missing_target_text()),
    }
}

/// The content of an optional text.
pub open spec fn text_of(text: Option<String>) -> Option<Seq<char>> {
    match text {
        Some(t) => Some(t@),
        None => None,
    }
}

impl Publish {
    /// Works out where the operations go. The caller reads the manifest,
    /// looks the linked list up where that is asked for, and publishes.
    pub fn run(&self) -> (target: Result<PublishTarget, String>)
        requires
            arguments_agree(
                text_of(self.graph_ref_name),
                text_of(self.graph_id),
                text_of(self.list_id),
            ),
        ensures
            match target_of(
                text_of(self.graph_ref_name),
                text_of(self.graph_id),
                text_of(self.list_id),
            ) {
                Ok(expected) => target matches Ok(t) && t@ == expected,
                Err(text) => target matches Err(e) && e@ == text,
            },
    {
        match (&self.graph_ref_name, &self.graph_id, &self.list_id) {
            (Some(name), _, _) => Ok(PublishTarget::LinkedList { graph_id: name.clone() }),
            (None, Some(graph_id), Some(list_id)) => Ok(
                PublishTarget::List { graph_id: graph_id.clone(), list_id: list_id.clone() },
            ),
            (None, Some(graph_id), None) => {
                let mut text = String::from_str(
                    "You must specify a --list-id <LIST_ID> when publishing operations to --graph-id ",
                );
                text.append(graph_id.as_str());
                text.append(
                    ", or, if a list is linked to a specific variant, you can leave --graph-id unspecified, and pass a full graph ref as a positional argument.",
                );
                Err(text)
            },
            (None, None, Some(list_id)) => {
                let mut text = String::from_str(
                    "You must specify a --graph-id <GRAPH_ID> when publishing operations to --list-id ",
                );
                text.append(list_id.as_str());
                text.append(", or, if ");
                text.append(list_id.as_str());
                text.append(
                    " is linked to a specific variant, you can leave --list-id unspecified, and pass a full graph ref as a positional argument.",
                );
                Err(text)
            },
            (None, None, None) => Err(
                String::from_str(
                    "You must either specify a <GRAPH_REF> that has a linked persisted query list OR both a --graph_id <GRAPH_ID> and --list_id <LIST_ID>",
                ),
            ),
        }
    }

    /// Whether `run` may be called: no graph id or list id stands beside a
    /// graph ref.
    pub fn arguments_agree(&self) -> (agree: bool)
        ensures
            agree == arguments_agree(
                text_of(self.graph_ref_name),
                text_of(self.graph_id),
                text_of(self.list_id),
            ),
    {
        self.graph_ref_name.is_none() || (self.graph_id.is_none() && self.list_id.is_none())
    }
}

} // verus!
