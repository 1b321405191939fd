use vstd::prelude::*;

use super::errors::{WorkspaceServiceError, WorkspaceServiceErrorView};
use super::models::Workspace;

verus! {

/// `res` is a refusal whose error is `e`.
pub open spec fn workspace_refused_with<T>(
    res: Result<T, WorkspaceServiceError>,
    e: WorkspaceServiceErrorView,
) -> bool {
    res matches Err(r) && r@ == e
}

/// The workspace that a lookup by id found, or `WorkspaceNotFound`.
pub fn get_workspace_by_id(found: Option<Workspace>) -> (res: Result<Workspace, WorkspaceServiceError>)
    ensures
        match found {
            Some(w) => res == Ok::<Workspace, WorkspaceServiceError>(w),
            None => workspace_refused_with(res, WorkspaceServiceErrorView::WorkspaceNotFound),
        },
{
    match found {
        Some(w) => Ok(w),
        None => Err(WorkspaceServiceError::WorkspaceNotFound),
    }
}

/// The access rule of workspaces: the workspace must exist and belong to
/// `user_id`.
pub open spec fn workspace_access(found: Option<Workspace>, user_id: u128) -> Result<
    Workspace,
    WorkspaceServiceErrorView,
> {
    match found {
        None => Err(WorkspaceServiceErrorView::WorkspaceNotFound),
        Some(w) => if w.owner_id == user_id {
            Ok(w)
        } else {
            Err(WorkspaceServiceErrorView::NotOwner)
        },
    }
}

/// The owner always gets their workspace, whatever it holds (name,
/// description, times); everyone else is refused, and so is a missing one.
pub proof fn lemma_owner_gets_workspace(w: Workspace, user_id: u128)
    ensures
        workspace_access(Some(w), w.owner_id) == Ok::<Workspace, WorkspaceServiceErrorView>(w),
        user_id != w.owner_id ==> workspace_access(Some(w), user_id) is Err,
        workspace_access(None, user_id) is Err,
{
}

/// The workspace that a lookup by id found, where it belongs to `user_id`.
pub fn get_workspace_for_user(found: Option<Workspace>, user_id: u128) -> (res: Result<
    Workspace,
    WorkspaceServiceError,
>)
    ensures
        match workspace_access(found, user_id) {
            Ok(w) => res == Ok::<Workspace, WorkspaceServiceError>(w),
            Err(e) => workspace_refused_with(res, e),
        },
        res matches Ok(w) ==> w.owner_id == user_id,
        found matches Some(w) ==> (w.owner_id == user_id ==> res == Ok::<
            Workspace,
            WorkspaceServiceError,
        >(w)),
        found matches Some(w) ==> (w.owner_id != user_id ==> res is Err),
        found is None ==> res is Err,
{
    let workspace = get_workspace_by_id(found)?;
    if workspace.owner_id != user_id {
        return Err(WorkspaceServiceError::NotOwner);
    }
    Ok(workspace)
}

/// Renames a workspace and replaces its description, where it exists and
/// belongs to `owner_id`.
pub fn update_workspace(
    found: Option<Workspace>,
    owner_id: u128,
    name: String,
    description: Option<String>,
) -> (res: Result<Workspace, WorkspaceServiceError>)
    ensures
        match workspace_access(found, owner_id) {
            Ok(w) => res matches Ok(v) && v == (Workspace {
                name,
                description,
                updated_at: v.updated_at,
                ..w
            }),
            Err(e) => workspace_refused_with(res, e),
        },
        res matches Ok(w) ==> w.owner_id == owner_id,
        found matches Some(w) ==> (w.owner_id == owner_id ==> res is Ok),
        found matches Some(w) ==> (w.owner_id != owner_id ==> res is Err),
{
    let mut workspace = get_workspace_for_user(found, owner_id)?;
    workspace.set_name(name);
    workspace.set_description(description);
    Ok(workspace)
}

/// Whether a workspace may be deleted by `owner_id`: it must exist and belong
/// to them.
pub fn delete_workspace(found: Option<Workspace>, owner_id: u128) -> (res: Result<
    (),
    WorkspaceServiceError,
>)
    ensures
        match workspace_access(found, owner_id) {
            Ok(_) => res is Ok,
            Err(e) => workspace_refused_with(res, e),
        },
        found matches Some(w) ==> (w.owner_id == owner_id <==> res is Ok),
        found is None ==> res is Err,
{
    get_workspace_for_user(found, owner_id)?;
    Ok(())
}

/// The search text that a workspace listing uses: the query where one is
/// given and not empty; `None` lists all of the user's workspaces.
pub fn search_text(q: Option<String>) -> (res: Option<String>)
    ensures
        match q {
            Some(t) => if t@.len() > 0 { res == Some(t) } else { res is None },
            None => res is None,
        },
{
    match q {
        Some(t) => if t.as_str().is_empty() {
            None
        } else {
            Some(t)
        },
        None => None,
    }
}

/// The `ILIKE` pattern with which workspaces are searched: the query with a
/// `%` on each side, so that it matches anywhere in a name or description.
pub fn search_pattern(query: &str) -> (res: String)
    ensures
        res@ == "%"@ + query@ + "%"@,
{
    let mut pattern = String::from_str("%");
    pattern.append(query);
    pattern.append("%");
    pattern
}

} // verus!
