//! Rows of a table: data with an id, a version and timestamps.

use vstd::prelude::*;
use crate::clock::now;
use crate::text::{decimal, push_decimal};

verus! {

/// How many times a row has been changed.
#[derive(Debug, Clone, Copy, PartialEq, Eq, PartialOrd, Ord, Structural)]
pub struct Version(pub u64);

impl Version {
    pub fn to_u64(&self) -> (v: u64)
        ensures
            v == self.0,
    {
        self.0
    }

    /// Counts one more change, wrapping around at 2^64.
    pub fn increment(&mut self)
        ensures
            final(self).0 == old(self).0.wrapping_add(1),
    {
        self.0 = self.0.wrapping_add(1);
    }

    pub fn from_u64(value: u64) -> (v: Self)
        ensures
            v.0 == value,
    {
        Version(value)
    }

    /// The count in decimal.
    pub fn to_string(&self) -> (s: String)
        ensures
            s@ == decimal(self.0 as nat),
    {
        let mut s = String::new();
        push_decimal(&mut s, self.0);
        assert(s@ =~= decimal(self.0 as nat));
        s
    }
}

impl Default for Version {
    fn default() -> (v: Self)
        ensures
            v.0 == 0,
    {
        Version(0)
    }
}

impl From<u64> for Version {
    fn from(value: u64) -> (v: Self) {
        Version(value)
    }
}

impl vstd::std_specs::convert::FromSpecImpl<u64> for Version {
    open spec fn obeys_from_spec() -> bool {
        true
    }

    open spec fn from_spec(v: u64) -> Self {
        Version(v)
    }
}

/// A row: the data under an id, how often it changed, and when it was
/// created and last changed.
#[derive(Debug)]
pub struct Row<Id, Data> {
    pub id: Id,
    pub version: Version,
    pub data: Data,
    pub created_at: std::time::SystemTime,
    pub updated_at: std::time::SystemTime,
}

impl<Id, Data> Row<Id, Data> {
    /// A new row at version 0, stamped with the current time.
    pub fn new(id: Id, data: Data) -> (r: Self)
        ensures
            r.id == id,
            r.data == data,
            r.version.0 == 0,
    {
        let created_at = now();
        let updated_at = now();
        Row::stamped(id, data, created_at, updated_at)
    }

    /// A new row at version 0 with the given creation and change times.
    pub fn stamped(id: Id, data: Data, created_at: std::time::SystemTime, updated_at: std::time::SystemTime) -> (r: Self)
        ensures
            r.id == id,
            r.data == data,
            r.version.0 == 0,
            r.created_at == created_at,
            r.updated_at == updated_at,
    {
        Row { id, version: Version(0), data, created_at, updated_at }
    }
}

/// A keyed store of rows.
pub trait Table {
    type Id;
    type Data;

    /// Whether a row is stored under `id`.
    fn contains(&self, id: &Self::Id) -> bool;

    fn get(&self, id: &Self::Id) -> Option<&Row<Self::Id, Self::Data>>;

    fn insert(&mut self, data: Self::Data) -> &Row<Self::Id, Self::Data>;

    fn delete(&mut self, id: &Self::Id) -> Option<Row<Self::Id, Self::Data>>;
}

} // verus!
