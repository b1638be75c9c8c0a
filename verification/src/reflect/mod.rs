//! Type descriptors: paths, type ids and the `Type` tree.

pub mod shape;
pub mod path;
pub mod type_id;
pub mod leaf;
pub mod model;
pub mod render;
pub mod wrappers;
pub mod ty;
pub mod decls;
pub mod parts;
pub mod type_of;
pub mod laws;
