//! Triggers: code that runs right after an action is applied and may
//! dispatch more actions, and what processing a queue with them gives.

use vstd::prelude::*;
use crate::state::action::{Action, Next, apply_all};

verus! {

/// Runs after each action a store applies, and may dispatch further actions.
pub trait Trigger<A: Action> {
    /// The actions this trigger dispatches after `action` left the state as
    /// `state`, in the order it dispatches them.
    spec fn spec_follow_ups(&self, state: A::State, action: A) -> Vec<A>;

    fn execute(&self, state: &A::State, action: &A, next: &mut Next<A>)
        ensures
            final(next)@ == old(next)@ + self.spec_follow_ups(*state, *action)@,
            final(next).spec_capacity() == old(next).spec_capacity(),
    ;
}

/// A trigger as a store keeps it.
#[verifier::reject_recursive_types(A)]
pub struct Registered<A: Action> {
    pub trigger: Box<dyn Trigger<A>>,
}

/// What the triggers dispatch after `action` left the state as `state`:
/// trigger by trigger, in the order they were registered.
pub open spec fn follow_ups<A: Action>(triggers: Seq<Registered<A>>, state: A::State, action: A) -> Seq<A>
    decreases triggers.len(),
{
    if triggers.len() == 0 {
        Seq::empty()
    } else {
        follow_ups(triggers.drop_last(), state, action) + triggers.last().trigger.spec_follow_ups(state, action)@
    }
}

/// Processes `queue` front to back, at most `fuel` actions: each action is
/// applied, then what the triggers dispatch after it joins the back of the
/// queue. Gives the final state and the number of actions applied, or
/// `None` when the queue is not empty after `fuel` actions.
pub open spec fn settle<A: Action>(
    triggers: Seq<Registered<A>>,
    state: A::State,
    queue: Seq<A>,
    fuel: nat,
) -> Option<(A::State, nat)>
    decreases fuel,
{
    if queue.len() == 0 {
        Some((state, 0))
    } else if fuel == 0 {
        None
    } else {
        let next = queue[0].spec_reduce(state);
        match settle(triggers, next, queue.drop_first() + follow_ups(triggers, next, queue[0]), (fuel - 1) as nat) {
            Some((s, n)) => Some((s, n + 1)),
            None => None,
        }
    }
}

/// Whether processing `queue` with the triggers comes to an end: the
/// triggers dispatch only finitely many actions.
pub open spec fn settles<A: Action>(triggers: Seq<Registered<A>>, state: A::State, queue: Seq<A>) -> bool {
    exists|fuel: nat| (#[trigger] settle(triggers, state, queue, fuel)) is Some
}

/// The final state and the number of actions applied when processing
/// `queue` with the triggers comes to an end.
pub open spec fn settled<A: Action>(triggers: Seq<Registered<A>>, state: A::State, queue: Seq<A>) -> (A::State, nat) {
    settle(triggers, state, queue, choose|fuel: nat| (#[trigger] settle(triggers, state, queue, fuel)) is Some).unwrap()
}

/// Processing that ends gives one outcome, whatever fuel was enough.
pub proof fn lemma_settle_unique<A: Action>(
    triggers: Seq<Registered<A>>,
    state: A::State,
    queue: Seq<A>,
    f1: nat,
    f2: nat,
)
    requires
        settle(triggers, state, queue, f1) is Some,
        settle(triggers, state, queue, f2) is Some,
    ensures
        settle(triggers, state, queue, f1) == settle(triggers, state, queue, f2),
    decreases f1,
{
    if queue.len() > 0 {
        let next = queue[0].spec_reduce(state);
        let rest = queue.drop_first() + follow_ups(triggers, next, queue[0]);
        lemma_settle_unique(triggers, next, rest, (f1 - 1) as nat, (f2 - 1) as nat);
    }
}

/// Applying `queue` front to back, with no triggers.
pub open spec fn apply_front<A: Action>(queue: Seq<A>, state: A::State) -> A::State
    decreases queue.len(),
{
    if queue.len() == 0 {
        state
    } else {
        apply_front(queue.drop_first(), queue[0].spec_reduce(state))
    }
}

/// Without triggers, processing comes to an end after the queued actions
/// and applies them one by one, front to back.
pub proof fn lemma_settle_without_triggers<A: Action>(state: A::State, queue: Seq<A>)
    ensures
        settle(Seq::<Registered<A>>::empty(), state, queue, queue.len()) == Some(
            (apply_front(queue, state), queue.len()),
        ),
        settles(Seq::<Registered<A>>::empty(), state, queue),
        settled(Seq::<Registered<A>>::empty(), state, queue) == (apply_front(queue, state), queue.len()),
    decreases queue.len(),
{
    let t = Seq::<Registered<A>>::empty();
    if queue.len() > 0 {
        let next = queue[0].spec_reduce(state);
        assert(queue.drop_first() + follow_ups(t, next, queue[0]) =~= queue.drop_first());
        lemma_settle_without_triggers(next, queue.drop_first());
    }
    let fuel = choose|fuel: nat| (#[trigger] settle(t, state, queue, fuel)) is Some;
    lemma_settle_unique(t, state, queue, fuel, queue.len());
}

/// One more action at the back, applied front to back.
proof fn lemma_apply_front_push<A: Action>(queue: Seq<A>, a: A, state: A::State)
    ensures
        apply_front(queue.push(a), state) == a.spec_reduce(apply_front(queue, state)),
    decreases queue.len(),
{
    if queue.len() == 0 {
        assert(queue.push(a).drop_first() =~= Seq::<A>::empty());
        assert(queue.push(a)[0] == a);
        assert(apply_front(Seq::<A>::empty(), a.spec_reduce(state)) == a.spec_reduce(state));
    } else {
        assert(queue.push(a).drop_first() =~= queue.drop_first().push(a));
        assert(queue.push(a)[0] == queue[0]);
        lemma_apply_front_push(queue.drop_first(), a, queue[0].spec_reduce(state));
    }
}

/// Applying front to back is applying first to last.
pub proof fn lemma_apply_front_all<A: Action>(queue: Seq<A>, state: A::State)
    ensures
        apply_front(queue, state) == apply_all(queue, state),
    decreases queue.len(),
{
    if queue.len() > 0 {
        lemma_apply_front_all(queue.drop_last(), state);
        lemma_apply_front_push(queue.drop_last(), queue.last(), state);
        assert(queue.drop_last().push(queue.last()) =~= queue);
    }
}

} // verus!
