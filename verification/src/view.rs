//! Styles that can be applied to the nodes of a view.

use vstd::prelude::*;
use crate::ids::NodeId;

verus! {

/// A style applied to a node.
pub trait Style {
    fn name(&self) -> &'static str;

    fn apply(&self, node: &mut NodeId);
}

/// Whether a node is shown.
#[derive(Debug, Clone, Copy, PartialEq, Eq, Structural)]
pub struct Visibility(pub bool);

impl Visibility {
    pub fn new(visible: bool) -> (v: Self)
        ensures
            v.0 == visible,
    {
        Visibility(visible)
    }

    pub fn is_visible(&self) -> (r: bool)
        ensures
            r == self.0,
    {
        self.0
    }
}

impl Default for Visibility {
    fn default() -> (v: Self)
        ensures
            v.0,
    {
        Visibility::new(true)
    }
}

} // verus!
