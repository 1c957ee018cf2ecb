pub mod link;
