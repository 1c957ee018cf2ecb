pub mod account;
pub mod auth;
pub mod link_manager;
pub mod user_manager;
