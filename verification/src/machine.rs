//! What every handler has in common: one step of a state machine, and the runs
//! that its steps make up.

use vstd::prelude::*;

verus! {

/// A type with a mathematical model in which contracts are stated.
pub trait Modeled {
    type Model;

    spec fn model(&self) -> Self::Model;
}

/// What one step of a handler comes to.
#[derive(Debug, PartialEq, Eq)]
pub enum Step<S, A, R> {
    /// The handler goes on in the state `0` and waits for what the action `1` brings.
    Ask(S, A),
    /// The handler is done, with this reply.
    Answer(R),
    /// The event is not an answer to what the handler asked.
    Mismatch,
}

impl<S, A: Modeled, R: Modeled> Modeled for Step<S, A, R> {
    type Model = Step<S, A::Model, R::Model>;

    open spec fn model(&self) -> Step<S, A::Model, R::Model> {
        match *self {
            Step::Ask(state, action) => Step::Ask(state, action.model()),
            Step::Answer(reply) => Step::Answer(reply.model()),
            Step::Mismatch => Step::Mismatch,
        }
    }
}

impl<T: Modeled> Modeled for Option<T> {
    type Model = Option<T::Model>;

    open spec fn model(&self) -> Option<T::Model> {
        match *self {
            Some(value) => Some(value.model()),
            None => None,
        }
    }
}

impl Modeled for () {
    type Model = ();

    open spec fn model(&self) -> () {
        ()
    }
}

/// Where a run stands after its events.
pub enum Progress<S, R> {
    Waiting(S),
    Answered(R),
}

/// What a run has come to: where it stands, and the actions it asked for, in order.
pub struct History<S, A, R> {
    pub progress: Progress<S, R>,
    pub actions: Seq<A>,
}

/// The run of a machine over a sequence of events. `None` if some event did not
/// fit, or came after the reply.
pub open spec fn run<S, E, A, R>(
    step: spec_fn(S, E) -> Step<S, A, R>,
    start: S,
    events: Seq<E>,
) -> Option<History<S, A, R>>
    decreases events.len(),
{
    if events.len() == 0 {
        Some(History { progress: Progress::Waiting(start), actions: Seq::empty() })
    } else {
        match run(step, start, events.drop_last()) {
            Some(History { progress: Progress::Waiting(state), actions }) => match step(
                state,
                events.last(),
            ) {
                Step::Ask(next, action) => Some(
                    History { progress: Progress::Waiting(next), actions: actions.push(action) },
                ),
                Step::Answer(reply) => Some(
                    History { progress: Progress::Answered(reply), actions },
                ),
                Step::Mismatch => None,
            },
            _ => None,
        }
    }
}

/// Whether `inv` holds after one more event, if it held before it.
pub open spec fn kept_by_step<S, E, A, R>(
    step: spec_fn(S, E) -> Step<S, A, R>,
    inv: spec_fn(Seq<E>, Seq<A>, Progress<S, R>) -> bool,
    events: Seq<E>,
    actions: Seq<A>,
    state: S,
    event: E,
) -> bool {
    inv(events, actions, Progress::Waiting(state)) ==> match step(state, event) {
        Step::Ask(next, action) => inv(
            events.push(event),
            actions.push(action),
            Progress::Waiting(next),
        ),
        Step::Answer(reply) => inv(events.push(event), actions, Progress::Answered(reply)),
        Step::Mismatch => true,
    }
}

/// What holds at the start and is kept by every step holds of every run.
pub proof fn lemma_run_keeps<S, E, A, R>(
    step: spec_fn(S, E) -> Step<S, A, R>,
    start: S,
    events: Seq<E>,
    inv: spec_fn(Seq<E>, Seq<A>, Progress<S, R>) -> bool,
)
    requires
        inv(Seq::empty(), Seq::empty(), Progress::Waiting(start)),
        forall|es: Seq<E>, acts: Seq<A>, s: S, e: E|
            #[trigger] kept_by_step(step, inv, es, acts, s, e),
    ensures
        run(step, start, events) matches Some(history) ==> inv(
            events,
            history.actions,
            history.progress,
        ),
    decreases events.len(),
{
    if events.len() == 0 {
        assert(events =~= Seq::empty());
    } else {
        lemma_run_keeps(step, start, events.drop_last(), inv);
        assert(events.drop_last().push(events.last()) =~= events);
        match run(step, start, events.drop_last()) {
            Some(History { progress: Progress::Waiting(state), actions }) => {
                assert(kept_by_step(
                    step,
                    inv,
                    events.drop_last(),
                    actions,
                    state,
                    events.last(),
                ));
            },
            _ => {},
        }
    }
}

/// A run without events waits at the start, with nothing asked. One more event
/// that the state it waits in takes adds the action asked for, or ends the run
/// with the reply; any other event cannot follow, and none can follow the reply.
pub proof fn law_run_goes_on<S, E, A, R>(
    step: spec_fn(S, E) -> Step<S, A, R>,
    start: S,
    events: Seq<E>,
    event: E,
)
    requires
        run(step, start, events) is Some,
    ensures
        run(step, start, Seq::empty()) == Some(
            History { progress: Progress::<S, R>::Waiting(start), actions: Seq::<A>::empty() },
        ),
        ({
            let before = run(step, start, events)->0;
            let after = run(step, start, events.push(event));
            match before.progress {
                Progress::Answered(_) => after is None,
                Progress::Waiting(state) => match step(state, event) {
                    Step::Ask(next, action) => after matches Some(history) && history.progress
                        == Progress::<S, R>::Waiting(next) && history.actions
                        == before.actions.push(action),
                    Step::Answer(reply) => after matches Some(history) && history.progress
                        == Progress::<S, R>::Answered(reply) && history.actions == before.actions,
                    Step::Mismatch => after is None,
                },
            }
        }),
{
    assert(events.push(event).drop_last() =~= events);
}

/// A run asks one action for each event, but for the one that ends it; and its
/// beginnings are runs that wait, with the first of its actions.
pub proof fn lemma_run_prefix<S, E, A, R>(
    step: spec_fn(S, E) -> Step<S, A, R>,
    start: S,
    events: Seq<E>,
    k: int,
)
    requires
        run(step, start, events) is Some,
        0 <= k < events.len(),
    ensures
        ({
            let history = run(step, start, events)->0;
            let early = run(step, start, events.take(k));
            &&& events.len() == history.actions.len() + if history.progress is Answered {
                1int
            } else {
                0int
            }
            &&& early is Some
            &&& (early->0).progress is Waiting
            &&& (early->0).actions == history.actions.take(k)
            &&& match step((early->0).progress->Waiting_0, events[k]) {
                Step::Ask(next, action) => {
                    let later = run(step, start, events.take(k + 1));
                    &&& k < history.actions.len()
                    &&& history.actions[k] == action
                    &&& later is Some
                    &&& (later->0).progress == Progress::<S, R>::Waiting(next)
                    &&& (later->0).actions == history.actions.take(k + 1)
                },
                Step::Answer(reply) => {
                    &&& k == events.len() - 1
                    &&& history.progress == Progress::<S, R>::Answered(reply)
                },
                Step::Mismatch => false,
            }
        }),
    decreases events.len(),
{
    let shorter = events.drop_last();
    let n = events.len() as int;
    let history = run(step, start, events)->0;
    let before = run(step, start, shorter)->0;
    assert(events.take(n) =~= events);
    assert(events.take(n - 1) =~= shorter);
    lemma_run_length(step, start, shorter);
    if k < n - 1 {
        lemma_run_prefix(step, start, shorter, k);
        assert(shorter.take(k) =~= events.take(k));
        assert(shorter.take(k + 1) =~= events.take(k + 1));
        assert(before.actions.take(k) =~= history.actions.take(k));
        assert(before.actions.take(k + 1) =~= history.actions.take(k + 1));
    } else {
        assert(history.actions.take(k) =~= before.actions);
        assert(history.actions.take(history.actions.len() as int) =~= history.actions);
    }
}

proof fn lemma_run_length<S, E, A, R>(
    step: spec_fn(S, E) -> Step<S, A, R>,
    start: S,
    events: Seq<E>,
)
    ensures
        run(step, start, events) matches Some(history) ==> events.len() == history.actions.len()
            + if history.progress is Answered {
            1int
        } else {
            0int
        },
    decreases events.len(),
{
    if events.len() > 0 {
        lemma_run_length(step, start, events.drop_last());
    }
}

/// The model of a step is the same step, with the models of its action and reply.
pub proof fn law_step_model<S, A: Modeled, R: Modeled>(state: S, action: A, reply: R)
    ensures
        Step::<S, A, R>::Ask(state, action).model() == Step::<S, A::Model, R::Model>::Ask(
            state,
            action.model(),
        ),
        Step::<S, A, R>::Answer(reply).model() == Step::<S, A::Model, R::Model>::Answer(
            reply.model(),
        ),
        Step::<S, A, R>::Mismatch.model() == Step::<S, A::Model, R::Model>::Mismatch,
        Some(reply).model() == Some(reply.model()),
        None::<R>.model() == None::<R::Model>,
{
}

} // verus!
