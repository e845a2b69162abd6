//! The loops that report until they are told to stop.

use vstd::prelude::*;

use crate::machine;
use crate::machine::{History, Modeled, Progress, Step};

verus! {

/// Seconds before the first sign of life.
pub const HEARTBEAT_DELAY: u64 = 10;

/// Seconds that one round of monitoring takes.
pub const MONITOR_PAUSE: u64 = 1;

/// What a loop asks for.
#[derive(Debug, Clone, Copy, PartialEq, Eq, Structural)]
pub enum WatchAction {
    Sleep { seconds: u64 },
    /// Run one round, and give it up as soon as a stop signal comes.
    Race,
}

impl Modeled for WatchAction {
    type Model = WatchAction;

    open spec fn model(&self) -> WatchAction {
        *self
    }
}

/// What an action brings.
#[derive(Debug, Clone, Copy, PartialEq, Eq, Structural)]
pub enum WatchEvent {
    Begin,
    Slept,
    /// The value sent as a stop signal, if it could be received.
    Signal(Option<bool>),
    RoundDone,
}

/// What a loop waits for.
#[derive(Debug, Clone, Copy, PartialEq, Eq, Structural)]
pub enum WatchState {
    Start,
    Sleeping,
    Racing,
}

/// Whether an event tells a loop to stop.
pub open spec fn is_stop(event: WatchEvent) -> bool {
    event == WatchEvent::Signal(Some(true))
}

/// Whether an event is of the kind that an action brings.
pub open spec fn watch_answers(action: WatchAction, event: WatchEvent) -> bool {
    match action {
        WatchAction::Sleep { .. } => event is Slept,
        WatchAction::Race => event is Signal || event is RoundDone,
    }
}

/// One step of a loop that waits `delay` seconds before its first round, if that
/// is given.
pub open spec fn watch_step(delay: Option<u64>, state: WatchState, event: WatchEvent) -> Step<
    WatchState,
    WatchAction,
    (),
> {
    match (state, event) {
        (WatchState::Start, WatchEvent::Begin) => match delay {
            Some(seconds) => Step::Ask(WatchState::Sleeping, WatchAction::Sleep { seconds }),
            None => Step::Ask(WatchState::Racing, WatchAction::Race),
        },
        (WatchState::Sleeping, WatchEvent::Slept) => Step::Ask(
            WatchState::Racing,
            WatchAction::Race,
        ),
        (WatchState::Racing, WatchEvent::Signal(Some(true))) => Step::Answer(()),
        (WatchState::Racing, WatchEvent::Signal(_)) => Step::Ask(
            WatchState::Racing,
            WatchAction::Race,
        ),
        (WatchState::Racing, WatchEvent::RoundDone) => Step::Ask(
            WatchState::Racing,
            WatchAction::Race,
        ),
        _ => Step::Mismatch,
    }
}

/// One step of a loop with the given delay.
fn watch(delay: Option<u64>, state: WatchState, event: WatchEvent) -> (r: Step<
    WatchState,
    WatchAction,
    (),
>)
    ensures
        r.model() == watch_step(delay, state, event),
{
    match (state, event) {
        (WatchState::Start, WatchEvent::Begin) => match delay {
            Some(seconds) => Step::Ask(WatchState::Sleeping, WatchAction::Sleep { seconds }),
            None => Step::Ask(WatchState::Racing, WatchAction::Race),
        },
        (WatchState::Sleeping, WatchEvent::Slept) => Step::Ask(
            WatchState::Racing,
            WatchAction::Race,
        ),
        (WatchState::Racing, WatchEvent::Signal(value)) => match value {
            Some(true) => Step::Answer(()),
            _ => Step::Ask(WatchState::Racing, WatchAction::Race),
        },
        (WatchState::Racing, WatchEvent::RoundDone) => Step::Ask(
            WatchState::Racing,
            WatchAction::Race,
        ),
        _ => Step::Mismatch,
    }
}

/// One step of the loop that reports signs of life. Its rounds are those of
/// [`report_report0`](crate::journal::heartbeat::report_report0).
pub fn report_heartbeat(state: WatchState, event: WatchEvent) -> (r: Step<
    WatchState,
    WatchAction,
    (),
>)
    ensures
        r.model() == watch_step(Some(HEARTBEAT_DELAY), state, event),
{
    watch(Some(HEARTBEAT_DELAY), state, event)
}

/// One step of the loop that reports on the node. Its rounds are those of
/// [`report_monitor0`].
pub fn report_monitor(state: WatchState, event: WatchEvent) -> (r: Step<
    WatchState,
    WatchAction,
    (),
>)
    ensures
        r.model() == watch_step(None, state, event),
{
    watch(None, state, event)
}

/// One step of a round of monitoring, which is a pause.
pub open spec fn pause_step(state: WatchState, event: WatchEvent) -> Step<
    WatchState,
    WatchAction,
    (),
> {
    match (state, event) {
        (WatchState::Start, WatchEvent::Begin) => Step::Ask(
            WatchState::Sleeping,
            WatchAction::Sleep { seconds: MONITOR_PAUSE },
        ),
        (WatchState::Sleeping, WatchEvent::Slept) => Step::Answer(()),
        _ => Step::Mismatch,
    }
}

/// One step of a round of monitoring.
pub fn report_monitor0(state: WatchState, event: WatchEvent) -> (r: Step<
    WatchState,
    WatchAction,
    (),
>)
    ensures
        r.model() == pause_step(state, event),
{
    match (state, event) {
        (WatchState::Start, WatchEvent::Begin) => Step::Ask(
            WatchState::Sleeping,
            WatchAction::Sleep { seconds: MONITOR_PAUSE },
        ),
        (WatchState::Sleeping, WatchEvent::Slept) => Step::Answer(()),
        _ => Step::Mismatch,
    }
}

/// The run of a loop over a sequence of events.
pub open spec fn watch_run(delay: Option<u64>, events: Seq<WatchEvent>) -> Option<
    History<WatchState, WatchAction, ()>,
> {
    machine::run(
        |state: WatchState, event: WatchEvent| watch_step(delay, state, event),
        WatchState::Start,
        events,
    )
}

/// The first `n` things that a loop asks for: the delay, if there is one, and
/// then one round after another.
pub open spec fn watch_plan(delay: Option<u64>, n: nat) -> Seq<WatchAction> {
    Seq::new(
        n,
        |i: int|
            if i == 0 && delay is Some {
                WatchAction::Sleep { seconds: delay->0 }
            } else {
                WatchAction::Race
            },
    )
}

spec fn watch_inv(
    delay: Option<u64>,
    events: Seq<WatchEvent>,
    actions: Seq<WatchAction>,
    progress: Progress<WatchState, ()>,
) -> bool {
    let n = events.len();
    match progress {
        Progress::Waiting(state) => {
            &&& actions =~= watch_plan(delay, n)
            &&& forall|i: int| 0 <= i < n ==> !is_stop(#[trigger] events[i])
            &&& match state {
                WatchState::Start => n == 0,
                WatchState::Sleeping => n == 1 && delay is Some,
                WatchState::Racing => n >= if delay is Some { 2nat } else { 1nat },
            }
        },
        Progress::Answered(_) => {
            &&& n > 0
            &&& actions =~= watch_plan(delay, (n - 1) as nat)
            &&& is_stop(events.last())
            &&& forall|i: int| 0 <= i < n - 1 ==> !is_stop(#[trigger] events[i])
        },
    }
}

proof fn lemma_watch_run(delay: Option<u64>, events: Seq<WatchEvent>)
    ensures
        watch_run(delay, events) matches Some(history) ==> watch_inv(
            delay,
            events,
            history.actions,
            history.progress,
        ),
{
    let step = |state: WatchState, event: WatchEvent| watch_step(delay, state, event);
    let inv = |es: Seq<WatchEvent>, acts: Seq<WatchAction>, progress: Progress<WatchState, ()>|
        watch_inv(delay, es, acts, progress);
    assert forall|es: Seq<WatchEvent>, acts: Seq<WatchAction>, s: WatchState, e: WatchEvent|
        #[trigger] machine::kept_by_step(step, inv, es, acts, s, e) by {}
    machine::lemma_run_keeps(step, WatchState::Start, events, inv);
}

/// A loop that goes on takes exactly the events that answer the last thing it
/// asked for.
pub proof fn law_watch_takes_answers(
    delay: Option<u64>,
    events: Seq<WatchEvent>,
    event: WatchEvent,
)
    requires
        watch_run(delay, events) matches Some(history) && history.progress is Waiting,
    ensures
        ({
            let history = watch_run(delay, events)->0;
            watch_run(delay, events.push(event)) is Some <==> if events.len() == 0 {
                event is Begin
            } else {
                match history.actions.last() {
                    WatchAction::Sleep { .. } => event is Slept,
                    WatchAction::Race => event is Signal || event is RoundDone,
                }
            }
        }),
        events.len() > 0 ==> (watch_run(delay, events.push(event)) is Some <==> watch_answers(
            (watch_run(delay, events)->0).actions.last(),
            event,
        )),
{
    lemma_watch_run(delay, events);
    assert(events.push(event).drop_last() =~= events);
}

/// A loop ends at the first stop signal and at nothing else: a finished round, a
/// signal that says not to stop and one that could not be received only start
/// the next round.
pub proof fn law_watch_stops_on_signal(delay: Option<u64>, events: Seq<WatchEvent>)
    requires
        watch_run(delay, events) is Some,
    ensures
        ({
            let history = watch_run(delay, events)->0;
            let ended = history.progress is Answered;
            &&& ended <==> events.len() > 0 && is_stop(events.last())
            &&& forall|i: int| 0 <= i < events.len() - 1 ==> !is_stop(#[trigger] events[i])
            &&& history.actions == watch_plan(
                delay,
                (events.len() - if ended { 1int } else { 0int }) as nat,
            )
        }),
{
    lemma_watch_run(delay, events);
}

/// What a loop asks, one thing for each event: the delay first, if there is one,
/// and otherwise one round after another; and nothing after a stop signal.
pub proof fn law_watch_asks(delay: Option<u64>, events: Seq<WatchEvent>, i: int)
    requires
        watch_run(delay, events) matches Some(history) && 0 <= i < history.actions.len(),
    ensures
        ({
            let actions = (watch_run(delay, events)->0).actions;
            &&& i < events.len()
            &&& events[i] != WatchEvent::Signal(Some(true))
            &&& match delay {
                Some(seconds) => actions[i] == if i == 0 {
                    WatchAction::Sleep { seconds }
                } else {
                    WatchAction::Race
                },
                None => actions[i] is Race,
            }
        }),
{
    lemma_watch_run(delay, events);
    assert(!is_stop(events[i]));
}

/// A loop ends exactly with a stop signal.
pub proof fn law_watch_ends(delay: Option<u64>, events: Seq<WatchEvent>)
    requires
        watch_run(delay, events) is Some,
    ensures
        (watch_run(delay, events)->0).progress is Answered <==> events.len() > 0 && events.last()
            == WatchEvent::Signal(Some(true)),
{
    lemma_watch_run(delay, events);
}

/// The first sign of life waits for ten seconds.
pub proof fn law_heartbeat_waits(events: Seq<WatchEvent>)
    requires
        watch_run(Some(HEARTBEAT_DELAY), events) matches Some(history) && history.actions.len()
            > 0,
    ensures
        (watch_run(Some(HEARTBEAT_DELAY), events)->0).actions[0] == (WatchAction::Sleep {
            seconds: 10,
        }),
{
    lemma_watch_run(Some(HEARTBEAT_DELAY), events);
}

/// The run of a round of monitoring over a sequence of events.
pub open spec fn pause_run(events: Seq<WatchEvent>) -> Option<
    History<WatchState, WatchAction, ()>,
> {
    machine::run(
        |state: WatchState, event: WatchEvent| pause_step(state, event),
        WatchState::Start,
        events,
    )
}

/// A round of monitoring pauses for one second and is over after that, and takes
/// nothing but its beginning and the end of its pause.
pub proof fn law_monitor_round_pauses(events: Seq<WatchEvent>)
    ensures
        pause_run(events) is Some <==> {
            &&& events.len() <= 2
            &&& events.len() > 0 ==> events[0] is Begin
            &&& events.len() > 1 ==> events[1] is Slept
        },
        pause_run(events) matches Some(history) ==> {
            &&& history.progress is Answered <==> events.len() == 2
            &&& history.actions == if events.len() == 0 {
                Seq::empty()
            } else {
                seq![WatchAction::Sleep { seconds: 1 }]
            }
        },
{
    let step = |state: WatchState, event: WatchEvent| pause_step(state, event);
    let inv = |es: Seq<WatchEvent>, acts: Seq<WatchAction>, progress: Progress<WatchState, ()>|
        match progress {
            Progress::Waiting(state) => {
                &&& es.len() == if state is Start { 0nat } else { 1nat }
                &&& !(state is Racing)
                &&& acts =~= if state is Start {
                    Seq::empty()
                } else {
                    seq![WatchAction::Sleep { seconds: 1 }]
                }
            },
            Progress::Answered(_) => {
                &&& es.len() == 2
                &&& acts =~= seq![WatchAction::Sleep { seconds: 1 }]
            },
        };
    assert forall|es: Seq<WatchEvent>, acts: Seq<WatchAction>, s: WatchState, e: WatchEvent|
        #[trigger] machine::kept_by_step(step, inv, es, acts, s, e) by {}
    machine::lemma_run_keeps(step, WatchState::Start, events, inv);
    reveal_with_fuel(machine::run, 4);
    let n = events.len() as int;
    if n == 2 {
        assert(events.drop_last().last() == events[0]);
    }
    if pause_run(events) is Some && n > 0 {
        machine::lemma_run_prefix(step, WatchState::Start, events, 0);
        machine::lemma_run_prefix(step, WatchState::Start, events, n - 1);
        assert(events.take(0) =~= Seq::empty());
        if n == 2 {
            assert(events.take(1).drop_last() =~= Seq::empty());
        }
    }
}

/// The model of an action is the action.
pub proof fn law_watch_action_model(action: WatchAction)
    ensures
        action.model() == action,
{
}

} // verus!
