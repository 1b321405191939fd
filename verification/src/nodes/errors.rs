use vstd::prelude::*;

verus! {

/// Everything that can go wrong in the node services.
#[derive(Debug)]
pub enum NodeServiceError {
    NotFound,
    NotInWorkspace,
    CircularParent,
    Database(String),
}

/// A `NodeServiceError` with its text taken as a character sequence.
pub enum NodeServiceErrorView {
    NotFound,
    NotInWorkspace,
    CircularParent,
    Database(Seq<char>),
}

impl View for NodeServiceError {
    type V = NodeServiceErrorView;

    open spec fn view(&self) -> NodeServiceErrorView {
        match self {
            NodeServiceError::NotFound => NodeServiceErrorView::NotFound,
            NodeServiceError::NotInWorkspace => NodeServiceErrorView::NotInWorkspace,
            NodeServiceError::CircularParent => NodeServiceErrorView::CircularParent,
            NodeServiceError::Database(m) => NodeServiceErrorView::Database(m@),
        }
    }
}

/// `res` is a refusal whose error is `e`.
pub open spec fn node_refused_with<T>(res: Result<T, NodeServiceError>, e: NodeServiceErrorView) -> bool {
    res matches Err(r) && r@ == e
}

} // verus!
