//! The service scenarios of the API, run on the library's decisions: the
//! store's answers are given as values and the HTTP answer is the library's.

use backend::auth::models::Session;
use backend::auth::services::{login, refresh_session};
use backend::errors::AppError;
use backend::nodes::models::Node;
use backend::nodes::services::{get_node, move_check_target, move_node};
use backend::users::models::User;
use backend::users::services::{change_password, register_user};
use backend::workspaces::models::Workspace;
use backend::workspaces::services::{delete_workspace, get_workspace_for_user, update_workspace};

fn registered(tag: &str, password: &str) -> User {
    register_user(
        tag.to_string(),
        String::new(),
        format!("{}@test.com", tag),
        format!("{}_user", tag),
        password.to_string(),
        false,
        false,
    )
    .expect("registration succeeds")
}

fn status_of_user_error(res: Result<User, backend::users::errors::UserServiceError>) -> (u16, String) {
    let e = AppError::from_user_error(res.err().expect("a refusal"));
    (e.status_code(), e.message().clone())
}

#[test]
fn test_login_success() {
    let user = registered("login_success", "Password123!");
    let id = user.id;
    let session = login(Some(user), None, "Password123!").unwrap();
    assert_eq!(session.user_id, id);
    assert!(session.expires_at > session.created_at);
}

#[test]
fn test_login_invalid_credentials() {
    let err = login(None, None, "wrongpass").unwrap_err();
    let answer = AppError::from_auth_error(err);
    assert_eq!(answer.status_code(), 401);
    assert_eq!(answer.message(), "invalid credentials");
}

#[test]
fn test_login_wrong_password() {
    let user = registered("login_wrong_pw", "Password123!");
    let answer = AppError::from_auth_error(login(Some(user), None, "WrongPassword999!").unwrap_err());
    assert_eq!(answer.status_code(), 401);
}

#[test]
fn test_login_with_username() {
    let user = registered("login_user", "Password123!");
    let id = user.id;
    let session = login(None, Some(user), "Password123!").unwrap();
    assert_eq!(session.user_id, id);
}

#[test]
fn test_login_twice_returns_different_tokens() {
    let user = registered("login_twice", "Password123!");
    let hash = user.password_hash.clone();
    let again = User { password_hash: hash, ..registered("login_twice2", "Password123!") };
    let first = login(Some(user), None, "Password123!").unwrap();
    let second = login(Some(again), None, "Password123!").unwrap();
    assert_ne!(first.token, second.token, "Second login should issue a new token");
}

#[test]
fn test_logout_then_refresh_fails() {
    // after logout the token's session is gone from the store
    let user = registered("logout_reuse", "Password123!");
    let answer = AppError::from_auth_error(refresh_session(None, Some(user)).unwrap_err());
    assert_eq!(answer.status_code(), 401);
}

#[test]
fn test_refresh_token() {
    let user = registered("refresh_success", "Password123!");
    let id = user.id;
    let session = Session::new(id);
    let renewed = refresh_session(Some(session), Some(user)).unwrap();
    assert_eq!(renewed.user_id, id);
}

#[test]
fn test_register_invalid_email() {
    let res = register_user(
        "test".to_string(),
        String::new(),
        "not-an-email".to_string(),
        "testuser".to_string(),
        "Pass1234!".to_string(),
        false,
        false,
    );
    let (status, message) = status_of_user_error(res);
    assert_eq!(status, 400);
    assert_eq!(message, "email must contain '@' and a domain");
}

#[test]
fn test_register_weak_password() {
    let res = register_user(
        "test".to_string(),
        String::new(),
        "weak@test.com".to_string(),
        "testuser".to_string(),
        "short".to_string(),
        false,
        false,
    );
    let (status, message) = status_of_user_error(res);
    assert_eq!(status, 400);
    assert_eq!(message, "password must be at least 8 characters");
}

#[test]
fn test_register_duplicate_email() {
    let res = register_user(
        "second".to_string(),
        String::new(),
        "dup@test.com".to_string(),
        "user_dup".to_string(),
        "Pass1234!".to_string(),
        true,
        false,
    );
    assert_eq!(status_of_user_error(res), (400, "email already exists".to_string()));
}

#[test]
fn test_register_duplicate_username() {
    let res = register_user(
        "second".to_string(),
        String::new(),
        "dup_second@test.com".to_string(),
        "dup_user".to_string(),
        "Pass1234!".to_string(),
        false,
        true,
    );
    assert_eq!(status_of_user_error(res), (400, "username already exists".to_string()));
}

#[test]
fn test_change_password() {
    let user = registered("chg_pw", "Password123!");
    let changed = change_password(Some(user), "Password123!".to_string(), "NewPass5678!".to_string()).unwrap();
    let hash = changed.password_hash.clone();
    assert!(login(Some(changed), None, "NewPass5678!").is_ok(), "Should login with new password");
    let again = User { password_hash: hash, ..registered("chg_pw2", "Password123!") };
    assert!(login(Some(again), None, "Password123!").is_err(), "Old password should fail");
}

#[test]
fn test_change_password_wrong_old_password() {
    let user = registered("chg_pw_wrong", "Password123!");
    let res = change_password(Some(user), "WrongPassword999!".to_string(), "NewPass5678!".to_string());
    assert_eq!(status_of_user_error(res), (401, "invalid password".to_string()));
}

#[test]
fn test_get_other_users_workspace_returns_not_found() {
    let owner = 1u128;
    let intruder = 2u128;
    let ws = Workspace::new(owner, "Private".to_string(), Some("test workspace".to_string()));
    let err = get_workspace_for_user(Some(ws), intruder).unwrap_err();
    let answer = AppError::from_workspace_error(err);
    assert_eq!(answer.status_code(), 404, "Should not see others' workspace");
    assert_eq!(answer.message(), "workspace not found");
}

#[test]
fn test_update_workspace_unauthorized() {
    let ws = Workspace::new(1, "Mine".to_string(), None);
    let err = update_workspace(Some(ws), 2, "Hacked".to_string(), None).unwrap_err();
    assert_eq!(AppError::from_workspace_error(err).status_code(), 404);
}

#[test]
fn test_delete_other_users_workspace() {
    let ws = Workspace::new(1, "Mine".to_string(), None);
    let err = delete_workspace(Some(ws), 2).unwrap_err();
    assert_eq!(AppError::from_workspace_error(err).status_code(), 404, "Should not delete others' workspace");
}

#[test]
fn test_move_node_to_itself_returns_bad_request() {
    let node = Node::new(5, None, "Lonely".to_string(), 0, "{\"type\":\"folder\"}".to_string());
    let id = node.id;
    let question = move_check_target(&node, Some(id));
    assert_eq!(question, None);
    let err = move_node(node, Some(id), false).unwrap_err();
    let answer = AppError::from_node_error(err);
    assert_eq!(answer.status_code(), 400);
    assert_eq!(answer.message(), "cannot move node into its own descendant");
}

#[test]
fn test_move_node() {
    let parent = Node::new(5, None, "Parent".to_string(), 0, "{\"type\":\"folder\"}".to_string());
    let child = Node::new(5, None, "Child".to_string(), 0, "{\"type\":\"folder\"}".to_string());
    let moved = move_node(child, Some(parent.id), false).unwrap();
    assert_eq!(moved.parent_id, Some(parent.id));
}

#[test]
fn test_get_node_from_wrong_workspace() {
    let node = Node::new(1, None, "In WS1".to_string(), 0, "{\"type\":\"folder\"}".to_string());
    let err = get_node(Some(node), 2).unwrap_err();
    assert_eq!(AppError::from_node_error(err).status_code(), 404);
}

#[test]
fn test_get_node_not_found() {
    let err = get_node(None, 2).unwrap_err();
    let answer = AppError::from_node_error(err);
    assert_eq!(answer.status_code(), 404);
    assert_eq!(answer.message(), "node not found");
}
