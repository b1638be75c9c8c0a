//! The store: a state changed only by flushing the actions dispatched to it.

use vstd::prelude::*;
use crate::state::action::{Action, Next, apply_all};
use crate::state::state::{State, bumped};
use crate::state::select::{Select, Selector};
use crate::state::trigger::{
    Trigger, Registered, follow_ups, settle, settles, settled, lemma_settle_unique, lemma_settle_without_triggers,
    lemma_apply_front_all,
};

verus! {

/// Flushing is applying the pending actions one by one, oldest first:
/// with none pending the state stays as it is, and one more action is
/// applied to the state that the earlier ones give.
pub proof fn law_flush_in_order<A: Action>(pending: Seq<A>, a: A, state: A::State)
    ensures
        apply_all(Seq::<A>::empty(), state) == state,
        apply_all(pending.push(a), state) == a.spec_reduce(apply_all(pending, state)),
{
    assert(pending.push(a).drop_last() =~= pending);
}

/// Flushing two batches one after the other gives the same state and the
/// same version as dispatching both and flushing once.
pub proof fn law_flush_batches<A: Action>(first: Seq<A>, second: Seq<A>, state: A::State, version: u64)
    ensures
        apply_all(second, apply_all(first, state)) == apply_all(first + second, state),
        bumped(bumped(version, first.len()), second.len()) == bumped(version, (first + second).len()),
    decreases second.len(),
{
    if second.len() == 0 {
        assert(first + second =~= first);
    } else {
        law_flush_batches(first, second.drop_last(), state, version);
        assert((first + second).drop_last() =~= first + second.drop_last());
        assert((first + second).last() == second.last());
    }
    let m: int = 0x1_0000_0000_0000_0000;
    let v = version as int;
    let (n1, n2) = (first.len() as int, second.len() as int);
    assert(((v + n1) % m + n2) % m == (v + (n1 + n2)) % m) by {
        vstd::arithmetic::div_mod::lemma_add_mod_noop_right(n2, v + n1, m);
    }
}

/// Owns a state and changes it only by applying queued actions, in the
/// order they were dispatched, when `flush` is called. Triggers registered
/// on the store run after each action it applies.
#[verifier::reject_recursive_types(S)]
#[verifier::reject_recursive_types(A)]
pub struct Store<S, A: Action<State = S>> {
    state: State<S>,
    buffer: Next<A>,
    triggers: Vec<Registered<A>>,
}

impl<S, A: Action<State = S>> Store<S, A> {
    /// The state as of the last flush.
    pub closed spec fn current(&self) -> S {
        self.state.value()
    }

    /// The actions dispatched since the last flush, oldest first.
    pub closed spec fn pending(&self) -> Seq<A> {
        self.buffer@
    }

    /// The number of actions applied so far, modulo 2^64.
    pub closed spec fn spec_version(&self) -> u64 {
        self.state.spec_version()
    }

    /// The room reserved for pending actions.
    pub closed spec fn spec_capacity(&self) -> usize {
        self.buffer.spec_capacity()
    }

    /// The registered triggers, in the order they were registered.
    pub closed spec fn triggers(&self) -> Seq<Registered<A>> {
        self.triggers@
    }

    pub fn new(state: S) -> (s: Self)
        ensures
            s.current() == state,
            s.pending() == Seq::<A>::empty(),
            s.spec_version() == 0,
            s.spec_capacity() == 1024,
            s.triggers().len() == 0,
    {
        Store { state: State::new(state), buffer: Next::with_capacity(1024), triggers: Vec::new() }
    }

    /// The store with a new, empty queue that has room for `capacity`
    /// actions reserved; actions that were pending are dropped.
    pub fn with_capacity(self, capacity: usize) -> (s: Self)
        ensures
            s.current() == self.current(),
            s.spec_version() == self.spec_version(),
            s.pending() == Seq::<A>::empty(),
            s.spec_capacity() == capacity,
            s.triggers() == self.triggers(),
    {
        let mut s = self;
        s.buffer = Next::with_capacity(capacity);
        s
    }

    /// Reads the part `T` of the current state.
    pub fn select<T: Selector<S>>(&self) -> (r: Select<'_, S, T>)
        ensures
            r.source() == self.current(),
    {
        Select::from(self.state.as_ref())
    }

    /// The number of actions applied so far, modulo 2^64.
    pub fn version(&self) -> (v: u64)
        ensures
            v == self.spec_version(),
    {
        self.state.version()
    }

    /// Queues `action`; the state does not change until the next flush.
    pub fn dispatch(&mut self, action: A)
        ensures
            final(self).pending() == old(self).pending().push(action),
            final(self).current() == old(self).current(),
            final(self).spec_version() == old(self).spec_version(),
            final(self).spec_capacity() == old(self).spec_capacity(),
            final(self).triggers() == old(self).triggers(),
    {
        self.buffer.dispatch(action);
    }

    /// Registers `trigger` to run after each action that a flush applies,
    /// after the triggers registered before it.
    pub fn trigger(&mut self, trigger: Registered<A>)
        ensures
            final(self).triggers() == old(self).triggers().push(trigger),
            forall|s: S, a: A| #[trigger] final(self).triggers()[old(self).triggers().len() as int].trigger.spec_follow_ups(s, a)
                == trigger.trigger.spec_follow_ups(s, a),
            final(self).current() == old(self).current(),
            final(self).pending() == old(self).pending(),
            final(self).spec_version() == old(self).spec_version(),
            final(self).spec_capacity() == old(self).spec_capacity(),
    {
        let ghost t0 = self.triggers@;
        let ghost g = trigger;
        self.triggers.push(trigger);
        proof {
            vstd::seq::axiom_seq_push_index_same(t0, g, t0.len() as int);
            assert(self.triggers@ == t0.push(g));
            assert(self.triggers@[t0.len() as int] == g);
        }
    }

    /// Applies the pending actions one by one, oldest first; right after
    /// each, the triggers run in the order they were registered, and the
    /// actions they dispatch join the back of the queue. Ends when the queue
    /// is empty, which the triggers must let happen.
    pub fn flush(&mut self)
        requires
            settles(old(self).triggers(), old(self).current(), old(self).pending()),
        ensures
            final(self).current() == settled(old(self).triggers(), old(self).current(), old(self).pending()).0,
            final(self).spec_version() == bumped(
                old(self).spec_version(),
                settled(old(self).triggers(), old(self).current(), old(self).pending()).1,
            ),
            old(self).triggers().len() == 0 ==> final(self).current() == apply_all(old(self).pending(), old(self).current()),
            old(self).triggers().len() == 0 ==> final(self).spec_version() == bumped(old(self).spec_version(), old(self).pending().len()),
            final(self).pending() == Seq::<A>::empty(),
            final(self).spec_capacity() == old(self).spec_capacity(),
            final(self).triggers() == old(self).triggers(),
    {
        let ghost trig = self.triggers@;
        let ghost start = self.current();
        let ghost target = settled(trig, start, self.pending());
        let ghost mut fuel: nat = choose|f: nat| (#[trigger] settle(trig, start, self.pending(), f)) is Some;
        let ghost mut done: nat = 0;
        proof {
            if trig.len() == 0 {
                assert(trig =~= Seq::<Registered<A>>::empty());
                lemma_settle_without_triggers(start, self.pending());
                lemma_apply_front_all(self.pending(), start);
            }
        }
        while !self.buffer.is_empty()
            invariant
                self.triggers@ == trig,
                done <= target.1,
                settle(trig, self.current(), self.pending(), fuel) == Some((target.0, (target.1 - done) as nat)),
                self.spec_version() == bumped(old(self).spec_version(), done),
                self.spec_capacity() == old(self).spec_capacity(),
            decreases fuel,
        {
            let drained = self.buffer.drain();
            let ghost fuel0 = fuel;
            let mut i: usize = 0;
            assert(drained@.skip(0) + self.pending() =~= drained@);
            while i < drained.len()
                invariant
                    self.triggers@ == trig,
                    i <= drained.len(),
                    drained@.len() > 0,
                    fuel + i == fuel0,
                    done <= target.1,
                    settle(trig, self.current(), drained@.skip(i as int) + self.pending(), fuel)
                        == Some((target.0, (target.1 - done) as nat)),
                    self.spec_version() == bumped(old(self).spec_version(), done),
                    self.spec_capacity() == old(self).spec_capacity(),
                decreases drained.len() - i,
            {
                let ghost q = drained@.skip(i as int) + self.pending();
                let ghost before = self.current();
                let ghost pend0 = self.pending();
                assert(q[0] == drained@[i as int]);
                let tx = self.state.transact();
                drained[i].reduce(tx.as_mut());
                let ghost after = self.current();
                let mut j: usize = 0;
                assert(trig.take(0) =~= Seq::<Registered<A>>::empty());
                while j < self.triggers.len()
                    invariant
                        self.triggers@ == trig,
                        i < drained.len(),
                        j <= trig.len(),
                        self.current() == after,
                        self.pending() == pend0 + follow_ups(trig.take(j as int), after, drained@[i as int]),
                        self.spec_capacity() == old(self).spec_capacity(),
                        self.spec_version() == bumped(old(self).spec_version(), done + 1),
                    decreases trig.len() - j,
                {
                    self.triggers[j].trigger.execute(self.state.as_ref(), &drained[i], &mut self.buffer);
                    assert(trig.take(j + 1).drop_last() =~= trig.take(j as int));
                    assert(pend0 + follow_ups(trig.take(j + 1), after, drained@[i as int]) =~= pend0
                        + follow_ups(trig.take(j as int), after, drained@[i as int])
                        + trig[j as int].trigger.spec_follow_ups(after, drained@[i as int])@);
                    j = j + 1;
                }
                assert(trig.take(j as int) =~= trig);
                proof {
                    assert(q.drop_first() + follow_ups(trig, after, q[0]) =~= drained@.skip(i + 1) + self.pending());
                    fuel = (fuel - 1) as nat;
                    done = done + 1;
                }
                i = i + 1;
            }
        }
        proof {
            assert(self.pending() =~= Seq::<A>::empty());
        }
    }
}

impl<S: Default, A: Action<State = S>> Default for Store<S, A> {
    /// A store over the default state.
    fn default() -> (s: Self)
        ensures
            call_ensures(S::default, (), s.current()),
            s.pending() == Seq::<A>::empty(),
            s.spec_version() == 0,
            s.spec_capacity() == 1024,
            s.triggers().len() == 0,
    {
        Store::new(S::default())
    }
}

} // verus!
