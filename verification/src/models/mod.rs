//! The data that requests and responses carry.

pub mod task;
