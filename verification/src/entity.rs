//! A table of entity rows, keyed by entity id.

use vstd::prelude::*;
use std::collections::HashMap;
use crate::ids::EntityId;
use crate::table::{Row, Table};
use crate::clock::now;


verus! {

broadcast use vstd::std_specs::hash::group_hash_axioms;

/// Rows of entities of type `E`, each stored under the number of its id.
/// Ids are handed out by a counter that counts up from 0 and wraps around
/// at 2^64.
pub struct EntityTable<E> {
    next_id: u64,
    rows: HashMap<u64, Row<EntityId, E>>,
}

impl<E> EntityTable<E> {
    #[verifier::type_invariant]
    closed spec fn keys_match_ids(&self) -> bool {
        forall|k: u64| #[trigger] self.rows@.contains_key(k) ==> self.rows@[k].id.0 == k
    }

    /// The stored rows, by the number of their id.
    pub closed spec fn rows(&self) -> Map<u64, Row<EntityId, E>> {
        self.rows@
    }

    /// The number of the id that the next insert hands out.
    pub closed spec fn next_number(&self) -> u64 {
        self.next_id
    }

    /// An empty table whose first id is 0.
    pub fn new() -> (t: Self)
        ensures
            t.rows() == Map::<u64, Row<EntityId, E>>::empty(),
            t.next_number() == 0,
    {
        EntityTable { next_id: 0, rows: HashMap::new() }
    }

    /// Replaces the data of the row under `id` with what `project` makes
    /// of it, counts the change in the row's version and stamps the row
    /// with the current time; without such a row, nothing changes.
    pub fn update<P: FnOnce(E) -> E>(&mut self, id: &EntityId, project: P)
        requires
            forall|d: E| call_requires(project, (d,)),
        ensures
            !old(self).rows().contains_key(id.0) ==> final(self).rows() == old(self).rows(),
            old(self).rows().contains_key(id.0) ==> {
                let before = old(self).rows()[id.0];
                let after = final(self).rows()[id.0];
                &&& final(self).rows().dom() == old(self).rows().dom()
                &&& forall|k: u64| k != id.0 && #[trigger] old(self).rows().contains_key(k)
                    ==> final(self).rows()[k] == old(self).rows()[k]
                &&& call_ensures(project, (before.data,), after.data)
                &&& after.id == before.id
                &&& after.version.0 == before.version.0.wrapping_add(1)
                &&& after.created_at == before.created_at
            },
            final(self).next_number() == old(self).next_number(),
    {
        let time = now();
        self.update_at(id, project, time);
    }

    /// Replaces the data of the row under `id` with what `project` makes
    /// of it, counts the change in the row's version and stamps the row
    /// with `now`; without such a row, nothing changes.
    pub fn update_at<P: FnOnce(E) -> E>(&mut self, id: &EntityId, project: P, now: std::time::SystemTime)
        requires
            forall|d: E| call_requires(project, (d,)),
        ensures
            !old(self).rows().contains_key(id.0) ==> final(self).rows() == old(self).rows(),
            old(self).rows().contains_key(id.0) ==> {
                let before = old(self).rows()[id.0];
                let after = final(self).rows()[id.0];
                &&& final(self).rows().dom() == old(self).rows().dom()
                &&& forall|k: u64| k != id.0 && #[trigger] old(self).rows().contains_key(k)
                    ==> final(self).rows()[k] == old(self).rows()[k]
                &&& call_ensures(project, (before.data,), after.data)
                &&& after.id == before.id
                &&& after.version.0 == before.version.0.wrapping_add(1)
                &&& after.created_at == before.created_at
                &&& after.updated_at == now
            },
            final(self).next_number() == old(self).next_number(),
    {
        proof {
            use_type_invariant(&*self);
        }
        let ghost pre = self.rows@;
        assert(forall|k: u64| #[trigger] pre.contains_key(k) ==> pre[k].id.0 == k);
        let mut rows = HashMap::new();
        std::mem::swap(&mut rows, &mut self.rows);
        match rows.remove(&id.0) {
            None => {
                assert(rows@ =~= pre);
                self.rows = rows;
            },
            Some(row) => {
                let Row { id: row_id, version, data, created_at, updated_at: _ } = row;
                let data = project(data);
                let mut version = version;
                version.increment();
                let changed = Row { id: row_id, version, data, created_at, updated_at: now };
                rows.insert(id.0, changed);
                assert forall|k: u64| #[trigger] rows@.contains_key(k) implies rows@[k].id.0 == k by {
                    if k != id.0 {
                        assert(pre.contains_key(k));
                    }
                }
                assert(rows@.dom() =~= pre.dom());
                self.rows = rows;
            },
        }
    }
}

impl<E> Default for EntityTable<E> {
    fn default() -> (t: Self)
        ensures
            t.rows() == Map::<u64, Row<EntityId, E>>::empty(),
            t.next_number() == 0,
    {
        EntityTable::new()
    }
}

impl<E> Table for EntityTable<E> {
    type Id = EntityId;

    type Data = E;

    fn contains(&self, id: &EntityId) -> (r: bool)
        ensures
            r == self.rows().contains_key(id.0),
    {
        self.rows.contains_key(&id.0)
    }

    fn get(&self, id: &EntityId) -> (r: Option<&Row<EntityId, E>>)
        ensures
            r matches Some(row) ==> self.rows().contains_key(id.0) && *row == self.rows()[id.0]
                && row.id == *id,
            r is None ==> !self.rows().contains_key(id.0),
    {
        proof {
            use_type_invariant(self);
        }
        self.rows.get(&id.0)
    }

    /// Stores `data` in a new row at version 0 under the next id, which
    /// replaces a row already there only once the counter has wrapped.
    fn insert(&mut self, data: E) -> (r: &Row<EntityId, E>)
        ensures
            r.id.0 == old(self).next_number(),
            r.data == data,
            r.version.0 == 0,
            final(self).rows() == old(self).rows().insert(old(self).next_number(), *r),
            final(self).next_number() == old(self).next_number().wrapping_add(1),
    {
        proof {
            use_type_invariant(&*self);
        }
        let ghost pre = self.rows@;
        assert(forall|k: u64| #[trigger] pre.contains_key(k) ==> pre[k].id.0 == k);
        let n = self.next_id;
        self.next_id = self.next_id.wrapping_add(1);
        let id = EntityId::from_u64(n);
        let mut rows = HashMap::new();
        std::mem::swap(&mut rows, &mut self.rows);
        rows.insert(n, Row::new(id, data));
        assert forall|k: u64| #[trigger] rows@.contains_key(k) implies rows@[k].id.0 == k by {
            if k != n {
                assert(pre.contains_key(k));
            }
        }
        self.rows = rows;
        match self.rows.get(&n) {
            Some(row) => row,
            None => vstd::pervasive::unreached(),
        }
    }

    fn delete(&mut self, id: &EntityId) -> (r: Option<Row<EntityId, E>>)
        ensures
            r matches Some(row) ==> old(self).rows().contains_key(id.0) && row == old(self).rows()[id.0],
            r is None ==> !old(self).rows().contains_key(id.0),
            final(self).rows() == old(self).rows().remove(id.0),
            final(self).next_number() == old(self).next_number(),
    {
        proof {
            use_type_invariant(&*self);
        }
        let ghost pre = self.rows@;
        assert(forall|k: u64| #[trigger] pre.contains_key(k) ==> pre[k].id.0 == k);
        let mut rows = HashMap::new();
        std::mem::swap(&mut rows, &mut self.rows);
        let removed = rows.remove(&id.0);
        assert forall|k: u64| #[trigger] rows@.contains_key(k) implies rows@[k].id.0 == k by {
            assert(pre.contains_key(k));
        }
        self.rows = rows;
        removed
    }
}

/// A row that `insert` stores under a number not in use is read back by
/// `get` under that number, and `delete` of it gives the row back and leaves
/// the rows as they were before the insert.
pub proof fn law_table_insert_get_delete<E>(before: Map<u64, Row<EntityId, E>>, n: u64, row: Row<EntityId, E>)
    requires
        !before.contains_key(n),
    ensures
        before.insert(n, row).contains_key(n),
        before.insert(n, row)[n] == row,
        before.insert(n, row).remove(n) == before,
{
    assert(before.insert(n, row).remove(n) =~= before);
}

} // verus!
