use vstd::prelude::*;

verus! {

/// Everything that can go wrong in the workspace services.
#[derive(Debug)]
pub enum WorkspaceServiceError {
    WorkspaceNotFound,
    NotOwner,
    Database(String),
}

/// A `WorkspaceServiceError` with its text taken as a character sequence.
pub enum WorkspaceServiceErrorView {
    WorkspaceNotFound,
    NotOwner,
    Database(Seq<char>),
}

impl View for WorkspaceServiceError {
    type V = WorkspaceServiceErrorView;

    open spec fn view(&self) -> WorkspaceServiceErrorView {
        match self {
            WorkspaceServiceError::WorkspaceNotFound => WorkspaceServiceErrorView::WorkspaceNotFound,
            WorkspaceServiceError::NotOwner => WorkspaceServiceErrorView::NotOwner,
            WorkspaceServiceError::Database(m) => WorkspaceServiceErrorView::Database(m@),
        }
    }
}

} // verus!
