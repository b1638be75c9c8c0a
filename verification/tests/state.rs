use ayr::state::action::Action;
use ayr::state::select::Selector;
use ayr::state::action::Next;
use ayr::state::store::Store;
use ayr::state::trigger::{Registered, Trigger};

#[derive(Clone, Default, Debug, PartialEq)]
struct UserState {
    pub name: String,
}

impl Selector<UserState> for String {
    fn spec_select(state: UserState) -> Self {
        state.name
    }

    fn select(state: &UserState) -> &Self {
        &state.name
    }
}

#[derive(Debug)]
enum UserAction {
    Rename(String),
}

impl Action for UserAction {
    type State = UserState;

    fn spec_reduce(&self, state: UserState) -> UserState {
        let mut next = state;
        self.reduce(&mut next);
        next
    }

    fn name(&self) -> &'static str {
        "user"
    }

    fn reduce(&self, state: &mut Self::State) {
        match self {
            Self::Rename(v) => {
                state.name = v.clone();
            }
        }
    }
}

#[derive(Clone, Default, Debug, PartialEq)]
struct Counter {
    n: u32,
}

impl Selector<Counter> for u32 {
    fn spec_select(state: Counter) -> Self {
        state.n
    }

    fn select(state: &Counter) -> &Self {
        &state.n
    }
}

#[derive(Debug)]
struct Bump;

impl Action for Bump {
    type State = Counter;

    fn spec_reduce(&self, state: Counter) -> Counter {
        Counter { n: state.n + 1 }
    }

    fn name(&self) -> &'static str {
        "bump"
    }

    fn reduce(&self, state: &mut Counter) {
        state.n += 1;
    }
}

#[test]
fn dispatch_is_lazy_until_flush() {
    let mut store = Store::new(UserState {
        name: "test user".to_string(),
    });

    store.dispatch(UserAction::Rename("hello world".to_string()));
    assert_eq!(&*store.select::<String>(), "test user");

    store.flush();
    assert_eq!(&*store.select::<String>(), "hello world");
}

#[test]
fn flush_applies_dispatched_actions_in_order() {
    let mut store = Store::new(UserState::default());

    store.dispatch(UserAction::Rename("a".to_string()));
    store.dispatch(UserAction::Rename("b".to_string()));
    store.dispatch(UserAction::Rename("c".to_string()));
    store.flush();

    assert_eq!(&*store.select::<String>(), "c");
}

#[test]
fn reprojects_after_flush() {
    let mut store = Store::new(Counter { n: 0 });

    assert_eq!(*store.select::<u32>(), 0);

    store.dispatch(Bump);
    store.flush();

    assert_eq!(*store.select::<u32>(), 1);
}

#[test]
fn version_counts_applied_actions() {
    let mut store = Store::new(Counter { n: 0 });
    assert_eq!(store.version(), 0);

    store.dispatch(Bump);
    store.dispatch(Bump);
    store.dispatch(Bump);
    assert_eq!(store.version(), 0);
    assert_eq!(*store.select::<u32>(), 0);

    store.flush();
    assert_eq!(store.version(), 3);
    assert_eq!(*store.select::<u32>(), 3);
}

#[test]
fn flush_with_nothing_pending_keeps_state_and_version() {
    let mut store: Store<Counter, Bump> = Store::new(Counter { n: 7 });
    store.flush();
    assert_eq!(store.version(), 0);
    assert_eq!(*store.select::<u32>(), 7);
}

#[test]
fn flushing_in_two_batches_matches_one_flush() {
    let mut once = Store::new(Counter { n: 1 });
    let mut twice = Store::new(Counter { n: 1 });
    for _ in 0..5 {
        once.dispatch(Bump);
    }
    for _ in 0..2 {
        twice.dispatch(Bump);
    }
    twice.flush();
    for _ in 0..3 {
        twice.dispatch(Bump);
    }
    twice.flush();
    once.flush();
    assert_eq!(*once.select::<u32>(), *twice.select::<u32>());
    assert_eq!(once.version(), twice.version());
    assert_eq!(once.version(), 5);
}

#[test]
fn with_capacity_drops_pending_actions() {
    let mut store = Store::new(Counter { n: 0 });
    store.dispatch(Bump);
    let mut store = store.with_capacity(8);
    store.flush();
    assert_eq!(*store.select::<u32>(), 0);
    assert_eq!(store.version(), 0);
}

#[test]
fn default_store_starts_from_default_state() {
    let mut store: Store<Counter, Bump> = Store::default();
    assert_eq!(*store.select::<u32>(), 0);
    assert_eq!(store.version(), 0);
    store.dispatch(Bump);
    store.flush();
    assert_eq!(*store.select::<u32>(), 1);
}

#[derive(Debug)]
enum CounterAction {
    Bump,
    Double,
}

impl Action for CounterAction {
    type State = Counter;

    fn spec_reduce(&self, state: Counter) -> Counter {
        match self {
            CounterAction::Bump => Counter { n: state.n + 1 },
            CounterAction::Double => Counter { n: state.n * 2 },
        }
    }

    fn name(&self) -> &'static str {
        match self {
            CounterAction::Bump => "bump",
            CounterAction::Double => "double",
        }
    }

    fn reduce(&self, state: &mut Counter) {
        match self {
            CounterAction::Bump => state.n += 1,
            CounterAction::Double => state.n *= 2,
        }
    }
}

/// Dispatches a `Double` after each `Bump`.
struct DoubleAfterBump;

impl Trigger<CounterAction> for DoubleAfterBump {
    fn spec_follow_ups(&self, _state: Counter, action: CounterAction) -> Vec<CounterAction> {
        match action {
            CounterAction::Bump => vec![CounterAction::Double],
            CounterAction::Double => vec![],
        }
    }

    fn execute(&self, _state: &Counter, action: &CounterAction, next: &mut Next<CounterAction>) {
        if let CounterAction::Bump = action {
            next.dispatch(CounterAction::Double);
        }
    }
}

/// Dispatches a `Bump` after each `Double` while the count is below 20.
struct BumpAfterDoubleBelow20;

impl Trigger<CounterAction> for BumpAfterDoubleBelow20 {
    fn spec_follow_ups(&self, state: Counter, action: CounterAction) -> Vec<CounterAction> {
        match action {
            CounterAction::Double if state.n < 20 => vec![CounterAction::Bump],
            _ => vec![],
        }
    }

    fn execute(&self, state: &Counter, action: &CounterAction, next: &mut Next<CounterAction>) {
        if let CounterAction::Double = action {
            if state.n < 20 {
                next.dispatch(CounterAction::Bump);
            }
        }
    }
}

#[test]
fn executes_on_action() {
    let mut store = Store::new(Counter { n: 5 });

    store.trigger(Registered { trigger: Box::new(DoubleAfterBump) });

    store.dispatch(CounterAction::Bump);
    store.flush();
    assert_eq!(*store.select::<u32>(), 12);
}

#[test]
fn triggered_actions_are_applied_until_none_are_left() {
    let mut store = Store::new(Counter { n: 1 });
    store.trigger(Registered { trigger: Box::new(DoubleAfterBump) });
    store.trigger(Registered { trigger: Box::new(BumpAfterDoubleBelow20) });

    store.dispatch(CounterAction::Bump);
    store.flush();
    // 1 -> 2 (bump) -> 4 (double) -> 5 (bump) -> 10 (double) -> 11 -> 22
    assert_eq!(*store.select::<u32>(), 22);
    assert_eq!(store.version(), 6);
}
