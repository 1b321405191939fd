pub mod auth;
pub mod clock;
pub mod crypto;
pub mod errors;
pub mod ids;
pub mod nodes;
pub mod text;
pub mod users;
pub mod workspaces;
