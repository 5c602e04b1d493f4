use std::collections::BTreeMap;

use godot_redux::{DispatchError, GodotRedux, StateCell, Step};

type State = BTreeMap<String, i64>;

const INCREMENT: i64 = 0;
const DECREMENT: i64 = 1;

/// Plays the host: resolves handles to closures, invokes them as the store
/// asks, and records every notification as (subscriber handle, state seen).
struct Host {
    reducers: Vec<Box<dyn Fn(&State, i64) -> State>>,
    middleware: Vec<Box<dyn Fn(&State, i64) -> Option<i64>>>,
    reduced_with: Vec<i64>,
    notified: Vec<(usize, State)>,
}

impl Host {
    fn new() -> Host {
        Host { reducers: Vec::new(), middleware: Vec::new(), reduced_with: Vec::new(), notified: Vec::new() }
    }

    fn run(&mut self, store: &mut GodotRedux<State, usize>, action: i64) -> Result<Step, DispatchError> {
        let mut step = store.dispatch(action)?;
        loop {
            step = match step {
                Step::Middleware { index, action } => {
                    let id = *store.middleware_at(index).unwrap();
                    let answer = (self.middleware[id])(store.current_state(), action);
                    store.middleware_returned(index, answer)
                }
                Step::Reducer { action } => {
                    let id = *store.reducer().unwrap();
                    self.reduced_with.push(action);
                    let next = (self.reducers[id])(store.current_state(), action);
                    store.dispatch_reducer(next)
                }
                Step::Subscriber { index } => {
                    let id = *store.subscription_at(index).unwrap();
                    self.notified.push((id, store.state()));
                    store.subscription_returned(index)
                }
                Step::Done | Step::Halted => return Ok(step),
            }
        }
    }
}

fn counter(n: i64) -> State {
    let mut s = State::new();
    s.insert("counter".to_string(), n);
    s
}

fn counter_reducer(state: &State, action: i64) -> State {
    let n = state["counter"];
    match action {
        INCREMENT => counter(n + 1),
        DECREMENT => counter(n - 1),
        _ => state.clone(),
    }
}

fn counter_store(host: &mut Host) -> GodotRedux<State, usize> {
    host.reducers.push(Box::new(counter_reducer));
    let mut store = GodotRedux::new(State::new());
    store.set_state_and_reducer(counter(0), host.reducers.len() - 1);
    store
}

#[test]
fn counter_scenario() {
    let mut host = Host::new();
    let mut store = counter_store(&mut host);
    store.subscribe(7);
    assert_eq!(host.run(&mut store, INCREMENT), Ok(Step::Done));
    assert_eq!(host.run(&mut store, INCREMENT), Ok(Step::Done));
    assert_eq!(host.run(&mut store, DECREMENT), Ok(Step::Done));
    assert_eq!(store.state(), counter(1));
    assert_eq!(host.notified, vec![(7, counter(1)), (7, counter(2)), (7, counter(1))]);
}

#[test]
fn middleware_veto_scenario() {
    let mut host = Host::new();
    let mut store = counter_store(&mut host);
    host.middleware.push(Box::new(|_, a| if a == DECREMENT { None } else { Some(a) }));
    store.add_middleware(0);
    store.subscribe(0);
    assert_eq!(host.run(&mut store, DECREMENT), Ok(Step::Halted));
    assert_eq!(store.state(), counter(0));
    assert_eq!(host.notified.len(), 0);
    assert_eq!(host.run(&mut store, INCREMENT), Ok(Step::Done));
    assert_eq!(store.state(), counter(1));
    assert_eq!(host.notified, vec![(0, counter(1))]);
}

#[test]
fn middleware_composes_left_to_right() {
    let mut host = Host::new();
    let mut store = counter_store(&mut host);
    host.middleware.push(Box::new(|_, a| Some(a + 1)));
    host.middleware.push(Box::new(|_, a| Some(a + 1)));
    store.add_middleware(0);
    store.add_middleware(1);
    assert_eq!(host.run(&mut store, 40), Ok(Step::Done));
    assert_eq!(host.reduced_with, vec![42]);
}

#[test]
fn middleware_order_is_registration_order() {
    let mut host = Host::new();
    let mut store = counter_store(&mut host);
    host.middleware.push(Box::new(|_, a| Some(a * 10)));
    host.middleware.push(Box::new(|_, a| Some(a + 3)));
    store.add_middleware(0);
    store.add_middleware(1);
    host.run(&mut store, 2).unwrap();
    assert_eq!(host.reduced_with, vec![23]);
}

#[test]
fn veto_stops_later_middleware() {
    let mut host = Host::new();
    let mut store = counter_store(&mut host);
    host.middleware.push(Box::new(|_, _| None));
    host.middleware.push(Box::new(|_, _| panic!("must not run")));
    store.add_middleware(0);
    store.add_middleware(1);
    store.subscribe(0);
    assert_eq!(host.run(&mut store, INCREMENT), Ok(Step::Halted));
    assert!(host.reduced_with.is_empty());
    assert!(host.notified.is_empty());
    assert_eq!(store.state(), counter(0));
}

#[test]
fn subscribers_notified_once_in_order() {
    let mut host = Host::new();
    let mut store = counter_store(&mut host);
    store.subscribe(3);
    store.subscribe(1);
    store.subscribe(3);
    assert_eq!(host.run(&mut store, INCREMENT), Ok(Step::Done));
    assert_eq!(host.reduced_with, vec![INCREMENT]);
    assert_eq!(host.notified, vec![(3, counter(1)), (1, counter(1)), (3, counter(1))]);
}

#[test]
fn reset_drops_middleware_and_subscribers() {
    let mut host = Host::new();
    let mut store = counter_store(&mut host);
    host.middleware.push(Box::new(|_, _| None));
    store.add_middleware(0);
    store.subscribe(5);
    store.set_state_and_reducer(counter(10), 0);
    assert_eq!(store.dispatch(INCREMENT), Ok(Step::Reducer { action: INCREMENT }));
    assert_eq!(host.run(&mut store, INCREMENT), Ok(Step::Done));
    assert!(host.notified.is_empty());
    assert_eq!(store.state(), counter(11));
}

#[test]
fn state_returns_independent_copy() {
    let mut host = Host::new();
    let mut store = counter_store(&mut host);
    let mut copy = store.state();
    copy.insert("counter".to_string(), 100);
    copy.insert("other".to_string(), 1);
    assert_eq!(store.state(), counter(0));
    host.run(&mut store, INCREMENT).unwrap();
    assert_eq!(store.state(), counter(1));
}

#[test]
fn dispatch_before_reducer_fails() {
    let store: GodotRedux<State, usize> = GodotRedux::new(counter(3));
    assert_eq!(store.dispatch(INCREMENT), Err(DispatchError::Unconfigured));
    assert!(store.reducer().is_none());
    assert_eq!(store.state(), counter(3));
}

#[test]
fn step_functions_on_chain_edges() {
    let mut store: GodotRedux<i64, u8> = GodotRedux::new(0);
    store.set_state_and_reducer(5, 9);
    store.add_middleware(1);
    store.add_middleware(2);
    assert_eq!(store.dispatch(4), Ok(Step::Middleware { index: 0, action: 4 }));
    assert_eq!(store.dispatch_middleware(1, 6), Step::Middleware { index: 1, action: 6 });
    assert_eq!(store.dispatch_middleware(2, 6), Step::Reducer { action: 6 });
    assert_eq!(store.middleware_returned(0, Some(8)), Step::Middleware { index: 1, action: 8 });
    assert_eq!(store.middleware_returned(1, Some(9)), Step::Reducer { action: 9 });
    assert_eq!(store.middleware_returned(0, None), Step::Halted);
    assert_eq!(store.middleware_at(1), Some(&2));
    assert_eq!(store.middleware_at(2), None);
    assert_eq!(store.reducer(), Some(&9));
}

#[test]
fn step_functions_on_subscriber_edges() {
    let mut store: GodotRedux<i64, u8> = GodotRedux::new(0);
    store.set_state_and_reducer(5, 9);
    assert_eq!(store.dispatch(4), Ok(Step::Reducer { action: 4 }));
    assert_eq!(store.dispatch_reducer(6), Step::Done);
    assert_eq!(store.state(), 6);
    store.subscribe(1);
    store.subscribe(2);
    assert_eq!(store.dispatch_reducer(7), Step::Subscriber { index: 0 });
    assert_eq!(*store.current_state(), 7);
    assert_eq!(store.subscription_returned(0), Step::Subscriber { index: 1 });
    assert_eq!(store.subscription_returned(1), Step::Done);
    assert_eq!(store.dispatch_subscriptions(2), Step::Done);
    assert_eq!(store.subscription_at(1), Some(&2));
    assert_eq!(store.subscription_at(2), None);
}

#[test]
fn state_cell_get_and_set() {
    let mut cell = StateCell::new(vec![1, 2]);
    let mut copy = cell.get();
    copy.push(3);
    assert_eq!(cell.get(), vec![1, 2]);
    cell.set(vec![9]);
    assert_eq!(*cell.borrow(), vec![9]);
}
