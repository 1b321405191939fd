use vstd::prelude::*;

use super::errors::{node_refused_with, NodeServiceError, NodeServiceErrorView};
use super::models::Node;
use super::tree::{acyclic, is_descendant, lemma_reparent_keeps_acyclic, ParentMap};

verus! {

/// The access rule of nodes: the node must exist and lie in `workspace_id`.
pub open spec fn node_access(found: Option<Node>, workspace_id: u128) -> Result<
    Node,
    NodeServiceErrorView,
> {
    match found {
        None => Err(NodeServiceErrorView::NotFound),
        Some(n) => if n.workspace_id == workspace_id {
            Ok(n)
        } else {
            Err(NodeServiceErrorView::NotInWorkspace)
        },
    }
}

/// The node that a lookup by id found, where it lies in `workspace_id`.
pub fn get_node(found: Option<Node>, workspace_id: u128) -> (res: Result<Node, NodeServiceError>)
    ensures
        match node_access(found, workspace_id) {
            Ok(n) => res == Ok::<Node, NodeServiceError>(n),
            Err(e) => node_refused_with(res, e),
        },
        res matches Ok(n) ==> n.workspace_id == workspace_id,
        found matches Some(n) ==> (n.workspace_id == workspace_id ==> res == Ok::<
            Node,
            NodeServiceError,
        >(n)),
        found matches Some(n) ==> (n.workspace_id != workspace_id ==> res is Err),
        found is None ==> res is Err,
{
    let node = match found {
        Some(n) => n,
        None => return Err(NodeServiceError::NotFound),
    };
    if node.workspace_id != workspace_id {
        return Err(NodeServiceError::NotInWorkspace);
    }
    Ok(node)
}

/// Which nodes of a workspace a listing shows.
pub enum NodeListing {
    /// Every node of the workspace, at any depth.
    All,
    /// The direct children of the given node.
    ChildrenOf(u128),
}

/// The listing that a filter asks for: the children of the named parent, or
/// every node of the workspace where no parent is named.
pub fn node_listing(parent_id: Option<u128>) -> (res: NodeListing)
    ensures
        match parent_id {
            Some(p) => res == NodeListing::ChildrenOf(p),
            None => res == NodeListing::All,
        },
{
    match parent_id {
        Some(p) => NodeListing::ChildrenOf(p),
        None => NodeListing::All,
    }
}

/// The parent whose ancestry an update of `node` to parent `parent_id` must
/// check: the new parent, where the parent changes to a node.
pub open spec fn spec_update_check_target(node: Node, parent_id: Option<u128>) -> Option<u128> {
    if parent_id != node.parent_id {
        parent_id
    } else {
        None
    }
}

/// Which node, if any, must be asked whether it descends from `node` before
/// `node` is updated to have parent `parent_id`.
pub fn update_check_target(node: &Node, parent_id: Option<u128>) -> (res: Option<u128>)
    ensures
        res == spec_update_check_target(*node, parent_id),
{
    if parent_id != node.parent_id {
        parent_id
    } else {
        None
    }
}

/// Updates a node's name, position, content and parent.
/// `target_is_descendant` is the answer to the question that
/// `update_check_target` names (whether the new parent descends from the
/// node); it is not looked at where no question is named.
///
/// Refused with `CircularParent` where the new parent descends from the node;
/// otherwise the node holds the new fields.
pub fn update_node(
    node: Node,
    name: String,
    position: i32,
    content: String,
    parent_id: Option<u128>,
    target_is_descendant: bool,
) -> (res: Result<Node, NodeServiceError>)
    ensures
        spec_update_check_target(node, parent_id) is Some && target_is_descendant ==> node_refused_with(
            res,
            NodeServiceErrorView::CircularParent,
        ),
        !(spec_update_check_target(node, parent_id) is Some && target_is_descendant) ==> (res matches Ok(
            v,
        ) && v == (Node { name, position, content, parent_id, updated_at: v.updated_at, ..node })),
        parent_id == node.parent_id ==> res is Ok,
        !target_is_descendant ==> res is Ok,
        parent_id != node.parent_id && parent_id is Some && target_is_descendant ==> res is Err,
{
    if update_check_target(&node, parent_id).is_some() && target_is_descendant {
        return Err(NodeServiceError::CircularParent);
    }
    let mut node = node;
    node.set_name(name);
    node.set_position(position);
    node.set_content(content);
    node.set_parent(parent_id);
    Ok(node)
}

/// A move of node `node_id` under `target` is refused: the target is the node
/// itself, or (as `target_is_descendant` says) one of its descendants.
pub open spec fn move_refused(node_id: u128, target: Option<u128>, target_is_descendant: bool) -> bool {
    match target {
        Some(t) => t == node_id || target_is_descendant,
        None => false,
    }
}

/// The parent whose ancestry a move of `node` under `target` must check: the
/// target, unless there is none or it is the node itself (which is refused
/// without asking).
pub open spec fn spec_move_check_target(node: Node, target: Option<u128>) -> Option<u128> {
    match target {
        Some(t) => if t == node.id {
            None
        } else {
            Some(t)
        },
        None => None,
    }
}

/// Which node, if any, must be asked whether it descends from `node` before
/// `node` is moved under `target`.
pub fn move_check_target(node: &Node, target: Option<u128>) -> (res: Option<u128>)
    ensures
        res == spec_move_check_target(*node, target),
{
    match target {
        Some(t) => if t == node.id {
            None
        } else {
            Some(t)
        },
        None => None,
    }
}

/// Moves a node under `target_parent_id` (`None`: to the root).
/// `target_is_descendant` is the answer to the question that
/// `move_check_target` names.
///
/// Refused with `CircularParent` where the target is the node itself or one
/// of its descendants; otherwise only the parent changes.
pub fn move_node(node: Node, target_parent_id: Option<u128>, target_is_descendant: bool) -> (res:
    Result<Node, NodeServiceError>)
    ensures
        move_refused(node.id, target_parent_id, target_is_descendant) ==> node_refused_with(
            res,
            NodeServiceErrorView::CircularParent,
        ),
        !move_refused(node.id, target_parent_id, target_is_descendant) ==> (res matches Ok(v) && v
            == (Node { parent_id: target_parent_id, updated_at: v.updated_at, ..node })),
        target_parent_id is None ==> (res matches Ok(v) && v.parent_id is None && v.id == node.id),
        target_parent_id matches Some(t) ==> (t != node.id && !target_is_descendant ==> (res matches Ok(
            v,
        ) && v.parent_id == Some(t) && v.id == node.id)),
        target_parent_id matches Some(t) ==> (t == node.id || target_is_descendant ==> res is Err),
{
    if let Some(target) = target_parent_id {
        if target == node.id {
            return Err(NodeServiceError::CircularParent);
        }
        if target_is_descendant {
            return Err(NodeServiceError::CircularParent);
        }
    }
    let mut node = node;
    node.set_parent(target_parent_id);
    Ok(node)
}

/// A stored node is found in its own workspace, whatever else it holds (its
/// parent, name or content), and in no other.
pub proof fn lemma_node_found_in_its_workspace(n: Node, workspace_id: u128)
    ensures
        node_access(Some(n), n.workspace_id) == Ok::<Node, NodeServiceErrorView>(n),
        workspace_id != n.workspace_id ==> node_access(Some(n), workspace_id) is Err,
        node_access(None, workspace_id) is Err,
{
}

/// A move is refused exactly when its target is the node itself or the
/// target descends from the node; moving to the root is never refused.
/// Nothing else about the target (such as how its id compares with the
/// node's) matters.
pub proof fn lemma_move_refused_exactly_for_cycles(node_id: u128, t: u128, target_is_descendant: bool)
    ensures
        move_refused(node_id, Some(t), target_is_descendant) == (t == node_id || target_is_descendant),
        !move_refused(node_id, None, target_is_descendant),
        t != node_id ==> !move_refused(node_id, Some(t), false),
{
}

/// Where `move_check_target` names no question, the answer handed to
/// `move_node` does not matter: the move is decided without it.
pub proof fn lemma_move_needs_only_the_named_question(node: Node, target: Option<u128>)
    ensures
        spec_move_check_target(node, target) is None ==> move_refused(node.id, target, true)
            == move_refused(node.id, target, false),
        spec_move_check_target(node, target) matches Some(t) ==> target == Some(t) && t != node.id,
{
}

/// Where `update_check_target` names no question, the answer handed to
/// `update_node` does not matter; where it names one, it is the new parent.
pub proof fn lemma_update_needs_only_the_named_question(node: Node, parent_id: Option<u128>)
    ensures
        spec_update_check_target(node, parent_id) matches Some(t) ==> parent_id == Some(t)
            && parent_id != node.parent_id,
        parent_id == node.parent_id ==> spec_update_check_target(node, parent_id) is None,
{
}

/// A move that `move_node` accepts, asked about with the true ancestry of the
/// stored tree, leaves the tree free of cycles: the node is re-parented under
/// a target that is neither itself nor one of its descendants.
pub proof fn lemma_accepted_move_keeps_tree(parents: ParentMap, node_id: u128, target: Option<u128>)
    requires
        acyclic(parents),
        !move_refused(
            node_id,
            target,
            target matches Some(t) && is_descendant(parents, t, node_id),
        ),
    ensures
        acyclic(parents.insert(node_id, target)),
{
    lemma_reparent_keeps_acyclic(parents, node_id, target);
}

/// An update that `update_node` accepts, asked about with the true ancestry
/// of the stored tree, leaves the tree free of cycles where the new parent is
/// not the node itself. (Naming the node as its own parent is not asked
/// about and is accepted.)
pub proof fn lemma_accepted_update_keeps_tree(parents: ParentMap, node: Node, parent_id: Option<u128>)
    requires
        acyclic(parents),
        parents.contains_key(node.id),
        parents[node.id] == node.parent_id,
        parent_id != Some(node.id),
        !(spec_update_check_target(node, parent_id) is Some && (parent_id matches Some(t)
            && is_descendant(parents, t, node.id))),
    ensures
        acyclic(parents.insert(node.id, parent_id)),
{
    if parent_id == node.parent_id {
        assert(parents.insert(node.id, parent_id) =~= parents);
    } else {
        lemma_reparent_keeps_acyclic(parents, node.id, parent_id);
    }
}

} // verus!
