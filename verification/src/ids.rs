//! Sequential identifiers of entities, nodes and worlds.

use vstd::prelude::*;
use crate::text::{decimal, push_str, push_decimal};

verus! {

/// Identifies an entity.
#[derive(Debug, Default, Copy, Clone, PartialEq, Eq, PartialOrd, Ord, Hash, Structural)]
pub struct EntityId(pub u64);

impl EntityId {
    /// The identifier after this one.
    pub fn next(&self) -> (n: Self)
        requires
            self.0 < u64::MAX,
        ensures
            n.0 == self.0 + 1,
    {
        EntityId(self.0 + 1)
    }

    pub fn from_u64(value: u64) -> (id: Self)
        ensures
            id.0 == value,
    {
        EntityId(value)
    }

    /// `entity_` followed by the number.
    pub fn to_string(&self) -> (s: String)
        ensures
            s@ == "entity_"@ + decimal(self.0 as nat),
    {
        let mut s = String::new();
        push_str(&mut s, "entity_");
        push_decimal(&mut s, self.0);
        assert(s@ =~= "entity_"@ + decimal(self.0 as nat));
        s
    }
}

impl From<u64> for EntityId {
    fn from(value: u64) -> (id: Self) {
        EntityId(value)
    }
}

impl vstd::std_specs::convert::FromSpecImpl<u64> for EntityId {
    open spec fn obeys_from_spec() -> bool {
        true
    }

    open spec fn from_spec(v: u64) -> Self {
        EntityId(v)
    }
}

/// Identifies a node of a world.
#[derive(Debug, Default, Copy, Clone, PartialEq, Eq, PartialOrd, Ord, Hash, Structural)]
pub struct NodeId(pub u64);

impl NodeId {
    /// The identifier after this one.
    pub fn next(&self) -> (n: Self)
        requires
            self.0 < u64::MAX,
        ensures
            n.0 == self.0 + 1,
    {
        NodeId(self.0 + 1)
    }
}

/// Identifies a world.
#[derive(Debug, Default, Copy, Clone, PartialEq, Eq, PartialOrd, Ord, Hash, Structural)]
pub struct WorldId(pub u64);

impl WorldId {
    /// The identifier after this one.
    pub fn next(&self) -> (n: Self)
        requires
            self.0 < u64::MAX,
        ensures
            n.0 == self.0 + 1,
    {
        WorldId(self.0 + 1)
    }
}

/// Asks for an entity to be removed from the world.
#[derive(Debug, Clone, Copy, PartialEq, Eq, Structural)]
pub struct DestroyEntity {
    pub id: EntityId,
}

} // verus!
