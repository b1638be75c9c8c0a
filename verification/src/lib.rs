//! Reflection descriptors for Rust items, an action-driven state store,
//! and the small value types (ids, versions, diagnostics) that the engine
//! shares between its parts.

pub mod text;
pub mod reflect;
pub mod state;
pub mod clock;
pub mod ids;
pub mod table;
pub mod world;
pub mod entity;
pub mod view;
pub mod diagnostic;
