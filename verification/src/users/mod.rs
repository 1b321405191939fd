pub mod errors;
pub mod models;
pub mod services;
pub mod validation;
