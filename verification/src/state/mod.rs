//! A store that owns a state and changes it only through queued actions.

pub mod action;
pub mod state;
pub mod select;
pub mod store;
pub mod trigger;
