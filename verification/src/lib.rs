//! A small task tracker: validated titles, a store that hands out identifiers,
//! and the outcome that each request maps to.

pub mod aulas;
pub mod error;
pub mod handlers;
pub mod models;
pub mod store;
pub mod strings;
pub mod validators;
