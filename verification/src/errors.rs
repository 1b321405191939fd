use vstd::prelude::*;

use crate::auth::errors::{AuthError, AuthErrorView};
use crate::users::services::registration_error;
use crate::nodes::services::move_refused;
use crate::workspaces::models::Workspace;
use crate::workspaces::services::workspace_access;
use crate::nodes::errors::{NodeServiceError, NodeServiceErrorView};
use crate::users::errors::{UserServiceError, UserServiceErrorView};
use crate::workspaces::errors::{WorkspaceServiceError, WorkspaceServiceErrorView};

verus! {

/// An error as the API answers it: a class that fixes the HTTP status, and
/// the message sent to the client.
#[derive(Debug)]
pub enum AppError {
    Unauthorized(String),
    NotFound(String),
    BadRequest(String),
    Internal(String),
}

/// An `AppError` with its message taken as a character sequence.
pub enum AppErrorView {
    Unauthorized(Seq<char>),
    NotFound(Seq<char>),
    BadRequest(Seq<char>),
    Internal(Seq<char>),
}

impl View for AppError {
    type V = AppErrorView;

    open spec fn view(&self) -> AppErrorView {
        match self {
            AppError::Unauthorized(m) => AppErrorView::Unauthorized(m@),
            AppError::NotFound(m) => AppErrorView::NotFound(m@),
            AppError::BadRequest(m) => AppErrorView::BadRequest(m@),
            AppError::Internal(m) => AppErrorView::Internal(m@),
        }
    }
}

impl AppErrorView {
    /// The HTTP status of the class: 401, 404, 400 or 500.
    pub open spec fn status(self) -> u16 {
        match self {
            AppErrorView::Unauthorized(_) => 401,
            AppErrorView::NotFound(_) => 404,
            AppErrorView::BadRequest(_) => 400,
            AppErrorView::Internal(_) => 500,
        }
    }

    /// The message sent to the client.
    pub open spec fn message(self) -> Seq<char> {
        match self {
            AppErrorView::Unauthorized(m) => m,
            AppErrorView::NotFound(m) => m,
            AppErrorView::BadRequest(m) => m,
            AppErrorView::Internal(m) => m,
        }
    }
}

/// How an authentication error is answered.
pub open spec fn auth_error_answer(e: AuthErrorView) -> AppErrorView {
    match e {
        AuthErrorView::InvalidCredentials => AppErrorView::Unauthorized("invalid credentials"@),
        AuthErrorView::InvalidToken => AppErrorView::Unauthorized("invalid token"@),
        AuthErrorView::TokenExpired => AppErrorView::Unauthorized("token expired"@),
        AuthErrorView::SessionNotFound => AppErrorView::NotFound("session not found"@),
        AuthErrorView::Database(m) => AppErrorView::Internal(m),
        AuthErrorView::Password(m) => AppErrorView::Internal(m),
    }
}

/// How a user service error is answered.
pub open spec fn user_error_answer(e: UserServiceErrorView) -> AppErrorView {
    match e {
        UserServiceErrorView::UserNotFound => AppErrorView::NotFound("user not found"@),
        UserServiceErrorView::EmailAlreadyExists => AppErrorView::BadRequest("email already exists"@),
        UserServiceErrorView::UsernameAlreadyExists => AppErrorView::BadRequest(
            "username already exists"@,
        ),
        UserServiceErrorView::InvalidCredentials => AppErrorView::Unauthorized("invalid credentials"@),
        UserServiceErrorView::InvalidEmail(m) => AppErrorView::BadRequest(m),
        UserServiceErrorView::InvalidUsername(m) => AppErrorView::BadRequest(m),
        UserServiceErrorView::WeakPassword(m) => AppErrorView::BadRequest(m),
        UserServiceErrorView::InvalidPassword => AppErrorView::Unauthorized("invalid password"@),
        UserServiceErrorView::PasswordHash(m) => AppErrorView::Internal(m),
        UserServiceErrorView::Database(m) => AppErrorView::Internal(m),
    }
}

/// How a workspace service error is answered. A workspace of another user
/// is answered exactly as one that does not exist.
pub open spec fn workspace_error_answer(e: WorkspaceServiceErrorView) -> AppErrorView {
    match e {
        WorkspaceServiceErrorView::WorkspaceNotFound => AppErrorView::NotFound("workspace not found"@),
        WorkspaceServiceErrorView::NotOwner => AppErrorView::NotFound("workspace not found"@),
        WorkspaceServiceErrorView::Database(m) => AppErrorView::Internal(m),
    }
}

/// How a node service error is answered.
pub open spec fn node_error_answer(e: NodeServiceErrorView) -> AppErrorView {
    match e {
        NodeServiceErrorView::NotFound => AppErrorView::NotFound("node not found"@),
        NodeServiceErrorView::NotInWorkspace => AppErrorView::NotFound("node not found in workspace"@),
        NodeServiceErrorView::CircularParent => AppErrorView::BadRequest(
            "cannot move node into its own descendant"@,
        ),
        NodeServiceErrorView::Database(m) => AppErrorView::Internal(m),
    }
}

impl AppError {
    /// The HTTP status with which the error is answered.
    pub fn status_code(&self) -> (res: u16)
        ensures
            res == self@.status(),
    {
        match self {
            AppError::Unauthorized(_) => 401,
            AppError::NotFound(_) => 404,
            AppError::BadRequest(_) => 400,
            AppError::Internal(_) => 500,
        }
    }

    /// The message sent to the client.
    pub fn message(&self) -> (res: &String)
        ensures
            res@ == self@.message(),
    {
        match self {
            AppError::Unauthorized(m) => m,
            AppError::NotFound(m) => m,
            AppError::BadRequest(m) => m,
            AppError::Internal(m) => m,
        }
    }

    /// The answer to an authentication error.
    pub fn from_auth_error(err: AuthError) -> (res: AppError)
        ensures
            res@ == auth_error_answer(err@),
    {
        match err {
            AuthError::InvalidCredentials => AppError::Unauthorized("invalid credentials".to_string()),
            AuthError::InvalidToken => AppError::Unauthorized("invalid token".to_string()),
            AuthError::TokenExpired => AppError::Unauthorized("token expired".to_string()),
            AuthError::SessionNotFound => AppError::NotFound("session not found".to_string()),
            AuthError::Database(m) => AppError::Internal(m),
            AuthError::Password(m) => AppError::Internal(m),
        }
    }

    /// The answer to a user service error.
    pub fn from_user_error(err: UserServiceError) -> (res: AppError)
        ensures
            res@ == user_error_answer(err@),
    {
        match err {
            UserServiceError::UserNotFound => AppError::NotFound("user not found".to_string()),
            UserServiceError::EmailAlreadyExists => AppError::BadRequest(
                "email already exists".to_string(),
            ),
            UserServiceError::UsernameAlreadyExists => AppError::BadRequest(
                "username already exists".to_string(),
            ),
            UserServiceError::InvalidCredentials => AppError::Unauthorized(
                "invalid credentials".to_string(),
            ),
            UserServiceError::InvalidEmail(m) => AppError::BadRequest(m),
            UserServiceError::InvalidUsername(m) => AppError::BadRequest(m),
            UserServiceError::WeakPassword(m) => AppError::BadRequest(m),
            UserServiceError::InvalidPassword => AppError::Unauthorized("invalid password".to_string()),
            UserServiceError::PasswordHash(m) => AppError::Internal(m),
            UserServiceError::Database(m) => AppError::Internal(m),
        }
    }

    /// The answer to a workspace service error.
    pub fn from_workspace_error(err: WorkspaceServiceError) -> (res: AppError)
        ensures
            res@ == workspace_error_answer(err@),
    {
        match err {
            WorkspaceServiceError::WorkspaceNotFound => AppError::NotFound(
                "workspace not found".to_string(),
            ),
            WorkspaceServiceError::NotOwner => AppError::NotFound("workspace not found".to_string()),
            WorkspaceServiceError::Database(m) => AppError::Internal(m),
        }
    }

    /// The answer to a node service error.
    pub fn from_node_error(err: NodeServiceError) -> (res: AppError)
        ensures
            res@ == node_error_answer(err@),
    {
        match err {
            NodeServiceError::NotFound => AppError::NotFound("node not found".to_string()),
            NodeServiceError::NotInWorkspace => AppError::NotFound(
                "node not found in workspace".to_string(),
            ),
            NodeServiceError::CircularParent => AppError::BadRequest(
                "cannot move node into its own descendant".to_string(),
            ),
            NodeServiceError::Database(m) => AppError::Internal(m),
        }
    }
}

/// Another user's workspace is answered exactly as a workspace that does not
/// exist: asking for it tells nothing of whether it exists.
pub proof fn lemma_foreign_workspace_looks_missing(workspace: Workspace, user_id: u128)
    requires
        workspace.owner_id != user_id,
    ensures
        workspace_access(Some(workspace), user_id) matches Err(e1) && workspace_access(None, user_id)
            matches Err(e2) && workspace_error_answer(e1) == workspace_error_answer(e2),
{
}

/// Every refusal of a registration is answered with status 400 (bad
/// request); a validation refusal carries the validation's message.
pub proof fn lemma_registration_refusals_are_bad_requests(
    email: Seq<char>,
    username: Seq<char>,
    password: Seq<char>,
    email_taken: bool,
    username_taken: bool,
)
    ensures
        registration_error(email, username, password, email_taken, username_taken) matches Some(e)
            ==> user_error_answer(e).status() == 400,
        registration_error(email, username, password, email_taken, username_taken) matches Some(
            UserServiceErrorView::InvalidUsername(m),
        ) ==> user_error_answer(UserServiceErrorView::InvalidUsername(m)).message() == m,
        registration_error(email, username, password, email_taken, username_taken) matches Some(
            UserServiceErrorView::WeakPassword(m),
        ) ==> user_error_answer(UserServiceErrorView::WeakPassword(m)).message() == m,
        registration_error(email, username, password, email_taken, username_taken) matches Some(
            UserServiceErrorView::InvalidEmail(m),
        ) ==> user_error_answer(UserServiceErrorView::InvalidEmail(m)).message() == m,
{
}

/// Moving a node under itself is refused, whatever the descendant query
/// answered, and the refusal is answered with status 400 (bad request).
pub proof fn lemma_self_move_is_bad_request(node_id: u128, target_is_descendant: bool)
    ensures
        move_refused(node_id, Some(node_id), target_is_descendant),
        node_error_answer(NodeServiceErrorView::CircularParent).status() == 400,
{
}

/// Refusals of authentication are answered with status 401, except a lost
/// session (404) and internal failures (500).
pub proof fn lemma_auth_refusals_are_unauthorized(e: AuthErrorView)
    ensures
        (e is InvalidCredentials || e is InvalidToken || e is TokenExpired) ==> auth_error_answer(
            e,
        ).status() == 401,
{
}

} // verus!
