use vstd::prelude::*;

use crate::state_cell::StateCell;

verus! {

/// What a dispatch in progress asks of the host next.
#[derive(Clone, Copy, Debug, PartialEq, Eq, Structural)]
pub enum Step {
    /// Invoke middleware `index` with the current state and `action`, and hand
    /// what it returned to `middleware_returned`.
    Middleware { index: usize, action: i64 },
    /// Invoke the reducer with the current state and `action`, and hand the
    /// state it returned to `dispatch_reducer`.
    Reducer { action: i64 },
    /// Invoke subscriber `index` with the current state, then call
    /// `subscription_returned` with the same index.
    Subscriber { index: usize },
    /// Every subscriber has been notified: the dispatch is complete.
    Done,
    /// A middleware vetoed the action: the reducer and the subscribers are not
    /// invoked and the state stays as it was.
    Halted,
}

/// Why a dispatch could not start.
#[derive(Clone, Copy, Debug, PartialEq, Eq, Structural)]
pub enum DispatchError {
    /// No reducer has been bound yet.
    Unconfigured,
}

/// The abstract content of a store: its state, its reducer if one is bound,
/// and its middleware and subscribers in registration order.
pub struct StoreModel<S, H> {
    pub state: S,
    pub reducer: Option<H>,
    pub middleware: Seq<H>,
    pub subscriptions: Seq<H>,
}

impl<S, H> StoreModel<S, H> {
    /// A reducer is bound, so dispatching is allowed.
    pub open spec fn configured(self) -> bool {
        self.reducer is Some
    }

    /// The step that runs middleware `index` with `action`, or the reducer once
    /// the chain is exhausted.
    pub open spec fn next_middleware(self, index: int, action: i64) -> Step {
        if 0 <= index < self.middleware.len() {
            Step::Middleware { index: index as usize, action }
        } else {
            Step::Reducer { action }
        }
    }

    /// The first step of dispatching `action`.
    pub open spec fn start(self, action: i64) -> Step {
        self.next_middleware(0, action)
    }

    /// The step after middleware `index` answered `result`: `None` is a veto.
    pub open spec fn after_middleware(self, index: int, result: Option<i64>) -> Step {
        match result {
            Some(action) => self.next_middleware(index + 1, action),
            None => Step::Halted,
        }
    }

    /// The step that notifies subscriber `index`, or `Done` past the last one.
    pub open spec fn notify_from(self, index: int) -> Step {
        if 0 <= index < self.subscriptions.len() {
            Step::Subscriber { index: index as usize }
        } else {
            Step::Done
        }
    }

    /// The step after the reducer returned: notification starts at the first subscriber.
    pub open spec fn after_reducer(self) -> Step {
        self.notify_from(0)
    }

    /// The step after subscriber `index` was notified.
    pub open spec fn after_notify(self, index: int) -> Step {
        self.notify_from(index + 1)
    }

    /// The same store holding `state`.
    pub open spec fn with_state(self, state: S) -> Self {
        StoreModel { state, ..self }
    }

    /// The store after a full reset to `state` and `reducer`: no middleware and
    /// no subscribers are left.
    pub open spec fn reset(self, state: S, reducer: H) -> Self {
        StoreModel {
            state,
            reducer: Some(reducer),
            middleware: Seq::empty(),
            subscriptions: Seq::empty(),
        }
    }
}

/// A store: the current state, the reducer, the middleware chain and the
/// subscribers. `H` is whatever the host uses to name a callable.
pub struct GodotRedux<S, H> {
    state: StateCell<S>,
    reducer: Option<H>,
    middleware: Vec<H>,
    subscriptions: Vec<H>,
}

impl<S, H> View for GodotRedux<S, H> {
    type V = StoreModel<S, H>;

    closed spec fn view(&self) -> StoreModel<S, H> {
        StoreModel {
            state: self.state@,
            reducer: self.reducer,
            middleware: self.middleware@,
            subscriptions: self.subscriptions@,
        }
    }
}

impl<S, H> GodotRedux<S, H> {
    /// A store that holds `state`, with no reducer bound and no middleware or
    /// subscribers. It must be configured with `set_state_and_reducer` before
    /// anything is dispatched.
    pub fn new(state: S) -> (r: Self)
        ensures
            r@.state == state,
            !r@.configured(),
            r@.middleware.len() == 0,
            r@.subscriptions.len() == 0,
    {
        GodotRedux {
            state: StateCell::new(state),
            reducer: None,
            middleware: Vec::new(),
            subscriptions: Vec::new(),
        }
    }

    /// Reinitializes the store: the state becomes `initial_state`, `reducer`
    /// becomes the only reducer, and every middleware and subscriber that was
    /// registered before is discarded.
    pub fn set_state_and_reducer(&mut self, initial_state: S, reducer: H)
        ensures
            final(self)@ == old(self)@.reset(initial_state, reducer),
    {
        self.state.set(initial_state);
        self.reducer = Some(reducer);
        self.middleware = Vec::new();
        self.subscriptions = Vec::new();
    }

    /// A copy of the current state, independent of the store.
    pub fn state(&self) -> (r: S)
        where
            S: Clone,
        ensures
            cloned(self@.state, r),
    {
        self.state.get()
    }

    /// The current state, borrowed: what the host passes to each callable.
    pub fn current_state(&self) -> (r: &S)
        ensures
            *r == self@.state,
    {
        self.state.borrow()
    }

    /// Starts dispatching `action`: the first middleware is run on it, or the
    /// reducer directly where the chain is empty. Fails where no reducer is bound.
    pub fn dispatch(&self, action: i64) -> (r: Result<Step, DispatchError>)
        ensures
            self@.configured() ==> r == Ok::<Step, DispatchError>(self@.start(action)),
            !self@.configured() ==> r == Err::<Step, DispatchError>(DispatchError::Unconfigured),
    {
        if self.reducer.is_none() {
            Err(DispatchError::Unconfigured)
        } else {
            Ok(self.dispatch_middleware(0, action))
        }
    }

    /// The step that runs middleware `index` on `action`; past the end of the
    /// chain, the step that runs the reducer on it.
    pub fn dispatch_middleware(&self, index: usize, action: i64) -> (r: Step)
        ensures
            r == self@.next_middleware(index as int, action),
    {
        if index < self.middleware.len() {
            Step::Middleware { index, action }
        } else {
            Step::Reducer { action }
        }
    }

    /// The step after middleware `index` returned `result`: the next middleware
    /// (or the reducer) on the action it returned, or `Halted` on `None`.
    pub fn middleware_returned(&self, index: usize, result: Option<i64>) -> (r: Step)
        ensures
            r == self@.after_middleware(index as int, result),
    {
        match result {
            Some(action) => {
                if index < self.middleware.len() {
                    self.dispatch_middleware(index + 1, action)
                } else {
                    Step::Reducer { action }
                }
            },
            None => Step::Halted,
        }
    }

    /// Commits the state that the reducer returned, replacing the old one
    /// whole, and gives the first notification step.
    pub fn dispatch_reducer(&mut self, new_state: S) -> (r: Step)
        ensures
            final(self)@ == old(self)@.with_state(new_state),
            r == final(self)@.after_reducer(),
    {
        self.state.set(new_state);
        self.dispatch_subscriptions(0)
    }

    /// The step that notifies subscriber `index`, or `Done` past the last one.
    pub fn dispatch_subscriptions(&self, index: usize) -> (r: Step)
        ensures
            r == self@.notify_from(index as int),
    {
        if index < self.subscriptions.len() {
            Step::Subscriber { index }
        } else {
            Step::Done
        }
    }

    /// The step after subscriber `index` was notified.
    pub fn subscription_returned(&self, index: usize) -> (r: Step)
        ensures
            r == self@.after_notify(index as int),
    {
        if index < self.subscriptions.len() {
            self.dispatch_subscriptions(index + 1)
        } else {
            Step::Done
        }
    }

    /// Appends `subscriber` to the subscribers; it is notified after those
    /// registered before it.
    pub fn subscribe(&mut self, subscriber: H)
        ensures
            final(self)@ == (StoreModel {
                subscriptions: old(self)@.subscriptions.push(subscriber),
                ..old(self)@
            }),
    {
        self.subscriptions.push(subscriber);
    }

    /// Appends `middleware` to the end of the chain.
    pub fn add_middleware(&mut self, middleware: H)
        ensures
            final(self)@ == (StoreModel {
                middleware: old(self)@.middleware.push(middleware),
                ..old(self)@
            }),
    {
        self.middleware.push(middleware);
    }

    /// The bound reducer, if any.
    pub fn reducer(&self) -> (r: Option<&H>)
        ensures
            r is Some <==> self@.configured(),
            r matches Some(h) ==> self@.reducer == Some(*h),
    {
        self.reducer.as_ref()
    }

    /// Middleware `index` of the chain, if there is one at that index.
    pub fn middleware_at(&self, index: usize) -> (r: Option<&H>)
        ensures
            r is Some <==> index < self@.middleware.len(),
            r matches Some(h) ==> *h == self@.middleware[index as int],
    {
        if index < self.middleware.len() {
            Some(&self.middleware[index])
        } else {
            None
        }
    }

    /// Subscriber `index`, if there is one at that index.
    pub fn subscription_at(&self, index: usize) -> (r: Option<&H>)
        ensures
            r is Some <==> index < self@.subscriptions.len(),
            r matches Some(h) ==> *h == self@.subscriptions[index as int],
    {
        if index < self.subscriptions.len() {
            Some(&self.subscriptions[index])
        } else {
            None
        }
    }
}

} // verus!
