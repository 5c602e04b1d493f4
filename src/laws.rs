use vstd::prelude::*;

use crate::store::{Step, StoreModel};

verus! {

/// Runs a middleware chain left to right on `action`: each answer is the next
/// member's input, and a `None` stops the chain.
pub open spec fn chain(members: Seq<spec_fn(i64) -> Option<i64>>, action: i64) -> Option<i64>
    decreases members.len(),
{
    if members.len() == 0 {
        Some(action)
    } else {
        match (members[0])(action) {
            Some(next) => chain(members.drop_first(), next),
            None => None,
        }
    }
}

/// Where the middleware phase of a dispatch ends for a chain result.
pub open spec fn chain_outcome(result: Option<i64>) -> Step {
    match result {
        Some(action) => Step::Reducer { action },
        None => Step::Halted,
    }
}

/// Adds one to an action, and vetoes where that would overflow.
pub open spec fn increment(action: i64) -> Option<i64> {
    if action < i64::MAX {
        Some((action + 1) as i64)
    } else {
        None
    }
}

impl<S, H> StoreModel<S, H> {
    /// Follows a dispatch from `step` through its middleware phase, for at most
    /// `fuel` middleware calls, where middleware `i` answers as `answers[i]`.
    pub open spec fn run_middleware(
        self,
        step: Step,
        answers: Seq<spec_fn(i64) -> Option<i64>>,
        fuel: nat,
    ) -> Step
        decreases fuel,
    {
        if fuel == 0 {
            step
        } else {
            match step {
                Step::Middleware { index, action } => if index < answers.len() {
                    self.run_middleware(
                        self.after_middleware(index as int, (answers[index as int])(action)),
                        answers,
                        (fuel - 1) as nat,
                    )
                } else {
                    step
                },
                _ => step,
            }
        }
    }

    /// The notification steps that follow one another from `step`, for at most
    /// `fuel` notifications, ending with the step that stops them.
    pub open spec fn run_notifications(self, step: Step, fuel: nat) -> Seq<Step>
        decreases fuel,
    {
        match step {
            Step::Subscriber { index } => if fuel == 0 {
                seq![step]
            } else {
                seq![step] + self.run_notifications(self.after_notify(index as int), (fuel - 1) as nat)
            },
            _ => seq![step],
        }
    }
}

proof fn lemma_chain_from<S, H>(
    m: StoreModel<S, H>,
    answers: Seq<spec_fn(i64) -> Option<i64>>,
    i: int,
    action: i64,
)
    requires
        answers.len() == m.middleware.len() <= usize::MAX,
        0 <= i <= answers.len(),
    ensures
        m.run_middleware(m.next_middleware(i, action), answers, (answers.len() - i) as nat)
            == chain_outcome(chain(answers.subrange(i, answers.len() as int), action)),
    decreases answers.len() - i,
{
    let n = answers.len() as int;
    let rest = answers.subrange(i, n);
    if i < n {
        assert(rest[0] == answers[i]);
        assert(rest.drop_first() =~= answers.subrange(i + 1, n));
        let fuel = (n - i) as nat;
        assert(m.run_middleware(m.next_middleware(i, action), answers, fuel) == m.run_middleware(
            m.after_middleware(i, (answers[i])(action)),
            answers,
            (fuel - 1) as nat,
        ));
        match (answers[i])(action) {
            Some(next) => {
                lemma_chain_from(m, answers, i + 1, next);
            },
            None => {
                assert(m.run_middleware(Step::Halted, answers, (fuel - 1) as nat) == Step::Halted);
            },
        }
    }
}

proof fn lemma_notifications_from<S, H>(m: StoreModel<S, H>, i: int)
    requires
        m.subscriptions.len() <= usize::MAX,
        0 <= i <= m.subscriptions.len(),
    ensures
        m.run_notifications(m.notify_from(i), (m.subscriptions.len() - i) as nat) =~= Seq::new(
            (m.subscriptions.len() - i) as nat,
            |j: int| Step::Subscriber { index: (i + j) as usize },
        ).push(Step::Done),
    decreases m.subscriptions.len() - i,
{
    let n = m.subscriptions.len() as int;
    if i < n {
        lemma_notifications_from(m, i + 1);
    }
}

/// With no middleware, dispatching `action` goes to the reducer with `action`
/// itself; once the reducer's result `next` is committed the store holds it,
/// and every subscriber is notified exactly once, in registration order,
/// before the dispatch is done.
pub proof fn lemma_dispatch_without_middleware<S, H>(m: StoreModel<S, H>, action: i64, next: S)
    requires
        m.configured(),
        m.middleware.len() == 0,
        m.subscriptions.len() <= usize::MAX,
    ensures
        m.start(action) == (Step::Reducer { action }),
        m.with_state(next).state == next,
        m.with_state(next).run_notifications(
            m.with_state(next).after_reducer(),
            m.subscriptions.len(),
        ) == Seq::new(m.subscriptions.len(), |j: int| Step::Subscriber { index: j as usize }).push(
            Step::Done,
        ),
{
    let after = m.with_state(next);
    lemma_notifications_from(after, 0);
    assert(Seq::new(after.subscriptions.len(), |j: int| Step::Subscriber { index: (0 + j) as usize })
        =~= Seq::new(m.subscriptions.len(), |j: int| Step::Subscriber { index: j as usize }));
}

/// Middleware composes left to right: where middleware `i` answers as
/// `answers[i]`, dispatching `action` reaches the reducer with what the whole
/// chain makes of `action`, or halts where a member vetoes.
pub proof fn lemma_middleware_composes<S, H>(
    m: StoreModel<S, H>,
    answers: Seq<spec_fn(i64) -> Option<i64>>,
    action: i64,
)
    requires
        answers.len() == m.middleware.len() <= usize::MAX,
    ensures
        m.run_middleware(m.start(action), answers, answers.len())
            == chain_outcome(chain(answers, action)),
{
    lemma_chain_from(m, answers, 0, action);
    assert(answers.subrange(0, answers.len() as int) =~= answers);
}

/// Two middleware that each add one to the action hand the reducer the
/// dispatched action plus two.
pub proof fn lemma_two_increments<S, H>(m: StoreModel<S, H>, action: i64)
    requires
        m.middleware.len() == 2,
        action <= i64::MAX - 2,
    ensures
        m.run_middleware(
            m.start(action),
            seq![|a: i64| increment(a), |a: i64| increment(a)],
            2,
        ) == (Step::Reducer { action: (action + 2) as i64 }),
{
    let answers = seq![|a: i64| increment(a), |a: i64| increment(a)];
    lemma_middleware_composes(m, answers, action);
    assert(answers[0](action) == Some((action + 1) as i64));
    assert(answers.drop_first()[0]((action + 1) as i64) == Some((action + 2) as i64));
    assert(answers.drop_first().drop_first() =~= Seq::<spec_fn(i64) -> Option<i64>>::empty());
    assert(chain(answers.drop_first().drop_first(), (action + 2) as i64) == Some((action + 2) as i64));
    assert(chain(answers.drop_first(), (action + 1) as i64) == Some((action + 2) as i64));
    assert(chain(answers, action) == Some((action + 2) as i64));
}

/// A veto halts the dispatch: a middleware that answers `None` leads to
/// `Halted`, and where the chain vetoes the action the reducer is never
/// reached, so neither the state nor any subscriber is touched.
pub proof fn lemma_veto_halts<S, H>(
    m: StoreModel<S, H>,
    answers: Seq<spec_fn(i64) -> Option<i64>>,
    action: i64,
    index: int,
)
    requires
        answers.len() == m.middleware.len() <= usize::MAX,
    ensures
        m.after_middleware(index, None) == Step::Halted,
        chain(answers, action) is None ==> m.run_middleware(
            m.start(action),
            answers,
            answers.len(),
        ) == Step::Halted,
{
    lemma_middleware_composes(m, answers, action);
}

/// A reset forgets the earlier wiring: after it, a dispatch goes straight to
/// the new reducer and, once that returns, no subscriber is notified.
pub proof fn lemma_reset_forgets<S, H>(
    m: StoreModel<S, H>,
    state: S,
    reducer: H,
    action: i64,
    next: S,
)
    ensures
        m.reset(state, reducer).configured(),
        m.reset(state, reducer).start(action) == (Step::Reducer { action }),
        m.reset(state, reducer).with_state(next).after_reducer() == Step::Done,
{
}

} // verus!
