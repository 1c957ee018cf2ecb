pub mod auth;
pub mod status;
