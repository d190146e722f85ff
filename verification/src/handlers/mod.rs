//! What each request is answered with.

pub mod tasks;
