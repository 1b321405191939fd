use backend::nodes::errors::NodeServiceError;
use backend::nodes::models::Node;
use backend::nodes::services::{
    get_node, move_check_target, move_node, node_listing, update_check_target, update_node,
    NodeListing,
};

const WS: u128 = 100;
const OTHER_WS: u128 = 200;

fn folder(parent: Option<u128>) -> Node {
    Node::new(WS, parent, "Folder".to_string(), 0, "{\"type\":\"folder\"}".to_string())
}

#[test]
fn new_node_holds_its_fields() {
    let n = Node::new(WS, Some(5), "Readme".to_string(), 3, "{\"type\":\"text\",\"body\":\"# Hello\"}".to_string());
    assert_eq!(n.workspace_id, WS);
    assert_eq!(n.parent_id, Some(5));
    assert_eq!(n.name, "Readme");
    assert_eq!(n.position, 3);
    assert_eq!(n.content, "{\"type\":\"text\",\"body\":\"# Hello\"}");
    assert_eq!(n.created_at, n.updated_at);
}

#[test]
fn node_lookup_checks_the_workspace() {
    let n = folder(None);
    let id = n.id;
    assert_eq!(get_node(Some(n), WS).unwrap().id, id);
    assert!(matches!(get_node(None, WS), Err(NodeServiceError::NotFound)));
    assert!(matches!(get_node(Some(folder(None)), OTHER_WS), Err(NodeServiceError::NotInWorkspace)));
}

#[test]
fn moving_a_node_under_itself_is_refused() {
    let n = folder(None);
    let id = n.id;
    assert_eq!(move_check_target(&n, Some(id)), None);
    assert!(matches!(move_node(n, Some(id), false), Err(NodeServiceError::CircularParent)));
}

#[test]
fn moving_under_a_descendant_is_refused() {
    let n = folder(None);
    assert_eq!(move_check_target(&n, Some(77)), Some(77));
    assert!(matches!(move_node(n, Some(77), true), Err(NodeServiceError::CircularParent)));
}

#[test]
fn moving_changes_only_the_parent() {
    let n = folder(None);
    let (id, name) = (n.id, n.name.clone());
    let moved = move_node(n, Some(77), false).unwrap();
    assert_eq!(moved.parent_id, Some(77));
    assert_eq!(moved.id, id);
    assert_eq!(moved.name, name);
    assert_eq!(move_check_target(&moved, None), None);
    let back = move_node(moved, None, true).unwrap();
    assert_eq!(back.parent_id, None);
}

#[test]
fn update_asks_about_the_parent_only_when_it_changes() {
    let n = folder(Some(5));
    assert_eq!(update_check_target(&n, Some(5)), None);
    assert_eq!(update_check_target(&n, Some(6)), Some(6));
    assert_eq!(update_check_target(&n, None), None);
}

#[test]
fn update_sets_every_field() {
    let n = folder(Some(5));
    let id = n.id;
    let v = update_node(n, "New Name".to_string(), 4, "{\"type\":\"folder\"}".to_string(), Some(6), false).unwrap();
    assert_eq!(v.id, id);
    assert_eq!(v.name, "New Name");
    assert_eq!(v.position, 4);
    assert_eq!(v.parent_id, Some(6));
}

#[test]
fn update_under_a_descendant_is_refused() {
    let n = folder(Some(5));
    let res = update_node(n, "x".to_string(), 0, String::new(), Some(6), true);
    assert!(matches!(res, Err(NodeServiceError::CircularParent)));
}

#[test]
fn update_keeping_the_parent_ignores_the_answer() {
    let n = folder(Some(5));
    let res = update_node(n, "x".to_string(), 0, String::new(), Some(5), true);
    assert_eq!(res.unwrap().parent_id, Some(5));
}

#[test]
fn node_setters() {
    let mut n = folder(None);
    n.set_name("Renamed".to_string());
    n.set_position(9);
    n.set_content("{}".to_string());
    n.set_parent(Some(1));
    assert_eq!(n.name, "Renamed");
    assert_eq!(n.position, 9);
    assert_eq!(n.content, "{}");
    assert_eq!(n.parent_id, Some(1));
}

#[test]
fn listing_without_parent_shows_every_node() {
    assert!(matches!(node_listing(None), NodeListing::All));
    assert!(matches!(node_listing(Some(8)), NodeListing::ChildrenOf(8)));
}
