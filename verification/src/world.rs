//! A world: entities, each under the node id it was spawned with.

use vstd::prelude::*;
use std::collections::BTreeMap;
use crate::ids::{NodeId, WorldId};
use crate::state::state::State;

verus! {

broadcast use vstd::std_specs::btree::group_btree_axioms;

/// The entities of one world, each held in a `State` under the number of
/// its node id. Node ids are handed out in increasing order and never
/// reused, so every stored id is below the next one to be handed out.
pub struct World<E> {
    id: WorldId,
    node_id: NodeId,
    nodes: BTreeMap<u64, State<E>>,
}

impl<E> World<E> {
    #[verifier::type_invariant]
    closed spec fn ids_below_next(&self) -> bool {
        forall|k: u64| #[trigger] self.nodes@.contains_key(k) ==> k < self.node_id.0
    }

    /// The entities, by the number of their node id.
    pub closed spec fn entities(&self) -> Map<u64, E> {
        self.nodes@.map_values(|s: State<E>| s.value())
    }

    /// The number of the node id that the next spawn hands out.
    pub closed spec fn next_node(&self) -> u64 {
        self.node_id.0
    }

    /// This world's id.
    pub closed spec fn spec_id(&self) -> WorldId {
        self.id
    }

    /// An empty world with id 0, whose first node id is 0.
    pub fn new() -> (w: Self)
        ensures
            w.entities() == Map::<u64, E>::empty(),
            w.next_node() == 0,
            w.spec_id() == WorldId(0),
    {
        let w = World { id: WorldId(0), node_id: NodeId(0), nodes: BTreeMap::new() };
        assert(w.entities() =~= Map::<u64, E>::empty());
        w
    }

    pub fn id(&self) -> (id: WorldId)
        ensures
            id == self.spec_id(),
    {
        self.id
    }

    pub fn is_empty(&self) -> (r: bool)
        ensures
            r == (self.entities().dom().len() == 0),
    {
        let r = self.nodes.is_empty();
        proof {
            assert(self.entities().dom() =~= self.nodes@.dom());
            if !r {
                let k = choose|k: u64| self.nodes@.dom().contains(k);
                assert(self.nodes@.dom().contains(k));
                assert(self.nodes@.dom().len() > 0);
            } else {
                assert(self.nodes@.dom() =~= Set::<u64>::empty());
            }
        }
        r
    }

    /// The number of entities.
    pub fn len(&self) -> (n: usize)
        ensures
            n == self.entities().dom().len(),
    {
        assert(self.entities().dom() =~= self.nodes@.dom());
        self.nodes.len()
    }

    /// The entities, in increasing order of their node ids.
    pub fn iter(&self) -> (r: Vec<&E>)
        ensures
            r@.len() == self.entities().dom().len(),
            exists|ks: Seq<u64>| {
                &&& ks.len() == r@.len()
                &&& forall|i: int, j: int| 0 <= i < j < ks.len() ==> ks[i] < ks[j]
                &&& forall|i: int| 0 <= i < ks.len() ==> #[trigger] self.entities().contains_key(ks[i])
                    && *r@[i] == self.entities()[ks[i]]
            },
    {
        let mut out: Vec<&E> = Vec::new();
        let ghost seq0 = vstd::std_specs::iter::IteratorSpec::remaining(&self.nodes.iter());
        for kv in it: self.nodes.iter()
            invariant
                it.seq() == seq0,
                out@.len() == it.index(),
                forall|i: int| 0 <= i < it.index() ==> *out@[i] == (*it.seq()[i].1).value(),
        {
            out.push(kv.1.as_ref());
        }
        proof {
            let ks = seq0.map_values(|kv: (&u64, &State<E>)| *kv.0);
            assert(ks.len() == out@.len());
            assert(self.entities().dom() =~= self.nodes@.dom());
            assert forall|i: int| 0 <= i < ks.len() implies #[trigger] self.entities().contains_key(ks[i])
                && *out@[i] == self.entities()[ks[i]] by {
                assert(self.nodes@.contains_key(*seq0[i].0));
            }
            assert(vstd::laws_cmp::obeys_cmp::<u64>());
            assert(vstd::std_specs::btree::increasing_seq(ks));
            assert forall|i: int, j: int| 0 <= i < j < ks.len() implies ks[i] < ks[j] by {
                assert(vstd::std_specs::cmp::OrdSpec::cmp_spec(&ks[i], &ks[j]) is Less);
            }
        }
        out
    }

    /// Whether an entity is stored under `id`.
    pub fn contains(&self, id: &NodeId) -> (r: bool)
        ensures
            r == self.entities().contains_key(id.0),
    {
        self.nodes.contains_key(&id.0)
    }

    /// The entity stored under `id`.
    pub fn get(&self, id: &NodeId) -> (r: Option<&E>)
        ensures
            r matches Some(e) ==> self.entities().contains_key(id.0) && *e == self.entities()[id.0],
            r is None ==> !self.entities().contains_key(id.0),
    {
        match self.nodes.get(&id.0) {
            None => None,
            Some(v) => Some(v.as_ref()),
        }
    }

    /// Stores `entity` under a new node id and returns that id.
    pub fn spawn(&mut self, entity: E) -> (id: NodeId)
        requires
            old(self).next_node() < u64::MAX,
        ensures
            id.0 == old(self).next_node(),
            !old(self).entities().contains_key(id.0),
            final(self).entities() == old(self).entities().insert(id.0, entity),
            final(self).next_node() == old(self).next_node() + 1,
            final(self).spec_id() == old(self).spec_id(),
    {
        proof {
            use_type_invariant(&*self);
        }
        let id = self.next_id();
        proof {
            use_type_invariant(&*self);
        }
        let ghost pre = self.nodes@;
        assert(forall|k: u64| #[trigger] pre.contains_key(k) ==> k < self.node_id.0);
        let mut nodes = BTreeMap::new();
        std::mem::swap(&mut nodes, &mut self.nodes);
        nodes.insert(id.0, State::new(entity));
        assert forall|k: u64| #[trigger] nodes@.contains_key(k) implies k < self.node_id.0 by {
            if k != id.0 {
                assert(pre.contains_key(k));
            }
        }
        self.nodes = nodes;
        proof {
            assert(self.entities() =~= old(self).entities().insert(id.0, entity));
        }
        id
    }

    /// Removes the entity stored under `id` and returns it.
    pub fn destroy(&mut self, id: &NodeId) -> (r: Option<E>)
        ensures
            r matches Some(e) ==> old(self).entities().contains_key(id.0) && e == old(self).entities()[id.0],
            r is None ==> !old(self).entities().contains_key(id.0),
            final(self).entities() == old(self).entities().remove(id.0),
            final(self).next_node() == old(self).next_node(),
            final(self).spec_id() == old(self).spec_id(),
    {
        proof {
            use_type_invariant(&*self);
        }
        let mut nodes = BTreeMap::new();
        std::mem::swap(&mut nodes, &mut self.nodes);
        let removed = nodes.remove(&id.0);
        self.nodes = nodes;
        proof {
            assert(self.entities() =~= old(self).entities().remove(id.0));
        }
        match removed {
            None => None,
            Some(s) => Some(s.take()),
        }
    }

    /// Hands out the next node id.
    fn next_id(&mut self) -> (id: NodeId)
        requires
            old(self).next_node() < u64::MAX,
        ensures
            id.0 == old(self).next_node(),
            final(self).next_node() == old(self).next_node() + 1,
            final(self).entities() == old(self).entities(),
            final(self).spec_id() == old(self).spec_id(),
    {
        proof {
            use_type_invariant(&*self);
        }
        let id = self.node_id;
        self.node_id = self.node_id.next();
        id
    }
}

/// What `spawn` stores is read back by `get` under the id it handed out,
/// every other entity reads as before, and `destroy` of that id gives the
/// entity back and leaves the entities as they were before the spawn.
pub proof fn law_world_spawn_get_destroy<E>(before: Map<u64, E>, id: u64, entity: E, other: u64)
    requires
        !before.contains_key(id),
    ensures
        before.insert(id, entity).contains_key(id),
        before.insert(id, entity)[id] == entity,
        other != id ==> before.insert(id, entity).contains_key(other) == before.contains_key(other),
        other != id && before.contains_key(other) ==> before.insert(id, entity)[other] == before[other],
        before.insert(id, entity).remove(id) == before,
{
    assert(before.insert(id, entity).remove(id) =~= before);
}

impl<E> Default for World<E> {
    fn default() -> (w: Self)
        ensures
            w.entities() == Map::<u64, E>::empty(),
            w.next_node() == 0,
            w.spec_id() == WorldId(0),
    {
        World::new()
    }
}

} // verus!
