pub mod entity;
pub mod infra;
pub mod service;
pub mod transport;
