pub mod entity;
pub mod infra;
