pub mod errors;
pub mod extractors;
pub mod models;
pub mod services;
