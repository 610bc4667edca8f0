//! The shutdown coordinator: a state machine that sequences startup, the
//! graceful-drain trigger, and the race between graceful completion and the
//! forced-termination timer.
//!
//! The machine is driven by events observed by the surrounding runtime (the
//! listener becoming bound, a termination signal, the drain completing, the
//! force timer elapsing) and answers each with a directive: which side
//! effects to perform before the next event is awaited.

use vstd::prelude::*;

verus! {

/// How many seconds the forced-termination timer waits after the drain is
/// triggered before the process exits regardless of in-flight requests.
pub const FORCE_TERMINATION_SECS: u64 = 3;

/// A termination signal from the operating system.
#[derive(Clone, Copy, PartialEq, Eq, Structural, Debug)]
pub enum TermSignal {
    Interrupt,
    Terminate,
}

/// The process-wide lifecycle. Transitions are monotonic: a state is never
/// re-entered once left, and the two drained states are terminal.
#[derive(Clone, Copy, PartialEq, Eq, Structural, Debug)]
pub enum LifecycleState {
    /// Before the listener is bound.
    Starting,
    /// Accepting connections.
    Ready,
    /// Drain triggered: no new connections; in-flight requests racing the
    /// force timer.
    Stopping,
    /// All in-flight requests completed within the window.
    DrainedGracefully,
    /// The force timer elapsed first.
    ForceTerminated,
}

/// An event the coordinator reacts to.
#[derive(Clone, Copy, PartialEq, Eq, Structural, Debug)]
pub enum Event {
    /// The listener is set up and about to accept connections.
    ListenerBound,
    /// A termination signal was received.
    SignalReceived(TermSignal),
    /// The server reports every in-flight connection complete;
    /// `transport_error` records whether it reported a transport-level
    /// error while draining (logged, never fatal).
    Drained { transport_error: bool },
    /// The forced-termination timer elapsed.
    ForceTimerElapsed,
}

/// The side effects one step directs the runtime to perform. `exit_process`
/// always means a normal exit with status zero: shutdown itself never fails
/// the process.
#[derive(Clone, Copy, PartialEq, Eq, Structural, Debug)]
pub struct Directive {
    /// Send the ready notification to the supervisor.
    pub notify_ready: bool,
    /// Send the stopping notification to the supervisor.
    pub notify_stopping: bool,
    /// Stop accepting new connections and begin waiting for in-flight ones.
    pub stop_accepting: bool,
    /// Start the forced-termination countdown.
    pub start_force_timer: bool,
    /// Exit the process with status zero.
    pub exit_process: bool,
}

/// The directive that asks for nothing.
pub open spec fn no_directive() -> Directive {
    Directive {
        notify_ready: false,
        notify_stopping: false,
        stop_accepting: false,
        start_force_timer: false,
        exit_process: false,
    }
}

/// The state after observing `e` in state `s`. A second signal during or
/// after drain is deliberately a no-op, and a completion event outside
/// `Stopping` changes nothing (the force timer only runs once drain was
/// triggered).
pub open spec fn spec_next(s: LifecycleState, e: Event) -> LifecycleState {
    match (s, e) {
        (LifecycleState::Starting, Event::ListenerBound) => LifecycleState::Ready,
        (LifecycleState::Starting, Event::SignalReceived(_)) => LifecycleState::Stopping,
        (LifecycleState::Ready, Event::SignalReceived(_)) => LifecycleState::Stopping,
        (LifecycleState::Stopping, Event::Drained { .. }) => LifecycleState::DrainedGracefully,
        (LifecycleState::Stopping, Event::ForceTimerElapsed) => LifecycleState::ForceTerminated,
        _ => s,
    }
}

/// The directive issued when observing `e` in state `s`.
pub open spec fn spec_directive(s: LifecycleState, e: Event) -> Directive {
    match (s, e) {
        (LifecycleState::Starting, Event::ListenerBound) => Directive {
            notify_ready: true,
            notify_stopping: false,
            stop_accepting: false,
            start_force_timer: false,
            exit_process: false,
        },
        (LifecycleState::Starting, Event::SignalReceived(_)) => Directive {
            notify_ready: false,
            notify_stopping: true,
            stop_accepting: true,
            start_force_timer: true,
            exit_process: false,
        },
        (LifecycleState::Ready, Event::SignalReceived(_)) => Directive {
            notify_ready: false,
            notify_stopping: true,
            stop_accepting: true,
            start_force_timer: true,
            exit_process: false,
        },
        (LifecycleState::Stopping, Event::Drained { .. }) => Directive {
            notify_ready: false,
            notify_stopping: false,
            stop_accepting: false,
            start_force_timer: false,
            exit_process: true,
        },
        (LifecycleState::Stopping, Event::ForceTimerElapsed) => Directive {
            notify_ready: false,
            notify_stopping: false,
            stop_accepting: false,
            start_force_timer: false,
            exit_process: true,
        },
        _ => no_directive(),
    }
}

/// Drain has been triggered: the stopping notification is behind us and no
/// new connection may be accepted.
pub open spec fn drain_triggered(s: LifecycleState) -> bool {
    s == LifecycleState::Stopping || s == LifecycleState::DrainedGracefully || s
        == LifecycleState::ForceTerminated
}

/// New connections are accepted only in `Ready`.
pub open spec fn accepting(s: LifecycleState) -> bool {
    s == LifecycleState::Ready
}

/// A state the machine never leaves.
pub open spec fn terminal(s: LifecycleState) -> bool {
    s == LifecycleState::DrainedGracefully || s == LifecycleState::ForceTerminated
}

/// An event that settles the race between graceful drain and the force
/// timer.
pub open spec fn deciding(e: Event) -> bool {
    (e matches Event::Drained { .. }) || e == Event::ForceTimerElapsed
}

/// Performs one step of the coordinator: the next state, and the side
/// effects the runtime must perform before awaiting the next event.
pub fn step(s: LifecycleState, e: Event) -> (r: (LifecycleState, Directive))
    ensures
        r.0 == spec_next(s, e),
        r.1 == spec_directive(s, e),
{
    let next = match (s, e) {
        (LifecycleState::Starting, Event::ListenerBound) => LifecycleState::Ready,
        (LifecycleState::Starting, Event::SignalReceived(_)) => LifecycleState::Stopping,
        (LifecycleState::Ready, Event::SignalReceived(_)) => LifecycleState::Stopping,
        (LifecycleState::Stopping, Event::Drained { .. }) => LifecycleState::DrainedGracefully,
        (LifecycleState::Stopping, Event::ForceTimerElapsed) => LifecycleState::ForceTerminated,
        _ => s,
    };
    let directive = match (s, e) {
        (LifecycleState::Starting, Event::ListenerBound) => Directive {
            notify_ready: true,
            notify_stopping: false,
            stop_accepting: false,
            start_force_timer: false,
            exit_process: false,
        },
        (LifecycleState::Starting, Event::SignalReceived(_)) => Directive {
            notify_ready: false,
            notify_stopping: true,
            stop_accepting: true,
            start_force_timer: true,
            exit_process: false,
        },
        (LifecycleState::Ready, Event::SignalReceived(_)) => Directive {
            notify_ready: false,
            notify_stopping: true,
            stop_accepting: true,
            start_force_timer: true,
            exit_process: false,
        },
        (LifecycleState::Stopping, Event::Drained { .. }) => Directive {
            notify_ready: false,
            notify_stopping: false,
            stop_accepting: false,
            start_force_timer: false,
            exit_process: true,
        },
        (LifecycleState::Stopping, Event::ForceTimerElapsed) => Directive {
            notify_ready: false,
            notify_stopping: false,
            stop_accepting: false,
            start_force_timer: false,
            exit_process: true,
        },
        _ => Directive {
            notify_ready: false,
            notify_stopping: false,
            stop_accepting: false,
            start_force_timer: false,
            exit_process: false,
        },
    };
    (next, directive)
}

/// The state after observing a whole sequence of events.
pub open spec fn run(s: LifecycleState, evs: Seq<Event>) -> LifecycleState
    decreases evs.len(),
{
    if evs.len() == 0 {
        s
    } else {
        run(spec_next(s, evs[0]), evs.subrange(1, evs.len() as int))
    }
}

/// How many stopping notifications a run of events directs.
pub open spec fn stopping_notifications(s: LifecycleState, evs: Seq<Event>) -> int
    decreases evs.len(),
{
    if evs.len() == 0 {
        0
    } else {
        (if spec_directive(s, evs[0]).notify_stopping {
            1int
        } else {
            0int
        }) + stopping_notifications(spec_next(s, evs[0]), evs.subrange(1, evs.len() as int))
    }
}

/// How many ready notifications a run of events directs.
pub open spec fn ready_notifications(s: LifecycleState, evs: Seq<Event>) -> int
    decreases evs.len(),
{
    if evs.len() == 0 {
        0
    } else {
        (if spec_directive(s, evs[0]).notify_ready {
            1int
        } else {
            0int
        }) + ready_notifications(spec_next(s, evs[0]), evs.subrange(1, evs.len() as int))
    }
}

/// Observing events in sequence composes.
proof fn lemma_run_append(s: LifecycleState, a: Seq<Event>, b: Seq<Event>)
    ensures
        run(s, a + b) == run(run(s, a), b),
    decreases a.len(),
{
    if a.len() == 0 {
        assert(a + b =~= b);
    } else {
        assert((a + b)[0] == a[0]);
        assert((a + b).subrange(1, (a + b).len() as int) =~= a.subrange(1, a.len() as int) + b);
        lemma_run_append(spec_next(s, a[0]), a.subrange(1, a.len() as int), b);
    }
}

/// The stopping count tracks the drain trigger: a run from an untriggered
/// state directs the notification exactly when it ends triggered, and a run
/// from a triggered state never directs it again.
proof fn lemma_stopping_count_tracks_trigger(s: LifecycleState, evs: Seq<Event>)
    ensures
        drain_triggered(s) ==> stopping_notifications(s, evs) == 0 && drain_triggered(run(s, evs)),
        !drain_triggered(s) ==> stopping_notifications(s, evs) == (if drain_triggered(
            run(s, evs),
        ) {
            1int
        } else {
            0int
        }),
    decreases evs.len(),
{
    if evs.len() > 0 {
        lemma_stopping_count_tracks_trigger(spec_next(s, evs[0]), evs.subrange(1, evs.len() as int));
    }
}

/// A termination signal anywhere in the run leaves the machine drain-triggered.
proof fn lemma_signal_triggers(s: LifecycleState, evs: Seq<Event>, i: int)
    requires
        0 <= i < evs.len(),
        evs[i] is SignalReceived,
    ensures
        drain_triggered(run(s, evs)),
    decreases evs.len(),
{
    if i == 0 {
        lemma_stopping_count_tracks_trigger(spec_next(s, evs[0]), evs.subrange(1, evs.len() as int));
    } else {
        lemma_signal_triggers(spec_next(s, evs[0]), evs.subrange(1, evs.len() as int), i - 1);
    }
}

/// Without a termination signal the drain is never triggered.
proof fn lemma_no_signal_no_trigger(s: LifecycleState, evs: Seq<Event>)
    requires
        !drain_triggered(s),
        forall|i: int| 0 <= i < evs.len() ==> !(#[trigger] evs[i] is SignalReceived),
    ensures
        !drain_triggered(run(s, evs)),
    decreases evs.len(),
{
    if evs.len() > 0 {
        assert(!(evs[0] is SignalReceived));
        lemma_no_signal_no_trigger(spec_next(s, evs[0]), evs.subrange(1, evs.len() as int));
    }
}

/// The stopping notification is sent exactly once per process lifetime:
/// never before a termination signal, once at the first of interrupt or
/// terminate, and never again — in particular not at a second signal of
/// either kind.
pub proof fn lemma_stopping_notified_exactly_once(evs: Seq<Event>)
    ensures
        0 <= stopping_notifications(LifecycleState::Starting, evs) <= 1,
        (exists|i: int| 0 <= i < evs.len() && #[trigger] evs[i] is SignalReceived)
            ==> stopping_notifications(LifecycleState::Starting, evs) == 1,
        (forall|i: int| 0 <= i < evs.len() ==> !(#[trigger] evs[i] is SignalReceived))
            ==> stopping_notifications(LifecycleState::Starting, evs) == 0,
{
    lemma_stopping_count_tracks_trigger(LifecycleState::Starting, evs);
    if exists|i: int| 0 <= i < evs.len() && #[trigger] evs[i] is SignalReceived {
        let i = choose|i: int| 0 <= i < evs.len() && #[trigger] evs[i] is SignalReceived;
        lemma_signal_triggers(LifecycleState::Starting, evs, i);
    }
    if forall|i: int| 0 <= i < evs.len() ==> !(#[trigger] evs[i] is SignalReceived) {
        lemma_no_signal_no_trigger(LifecycleState::Starting, evs);
    }
}

/// A step directs the stopping notification exactly when it is the step
/// that triggers the drain, and the stop-accepting and force-timer
/// directives are issued at that same single step.
pub proof fn lemma_drain_trigger_directives(s: LifecycleState, e: Event)
    ensures
        spec_directive(s, e).notify_stopping == (!drain_triggered(s) && drain_triggered(
            spec_next(s, e),
        )),
        spec_directive(s, e).stop_accepting == spec_directive(s, e).notify_stopping,
        spec_directive(s, e).start_force_timer == spec_directive(s, e).notify_stopping,
{
}

/// The machine never returns to `Starting`, and only the step from
/// `Starting` on the listener binding directs the ready notification.
proof fn lemma_ready_count_elsewhere(s: LifecycleState, evs: Seq<Event>)
    ensures
        s != LifecycleState::Starting ==> ready_notifications(s, evs) == 0,
        s == LifecycleState::Starting ==> 0 <= ready_notifications(s, evs) <= 1,
    decreases evs.len(),
{
    if evs.len() > 0 {
        lemma_ready_count_elsewhere(spec_next(s, evs[0]), evs.subrange(1, evs.len() as int));
    }
}

/// The ready notification is sent at most once per process lifetime, only
/// in response to the listener having been bound, and exactly once in a run
/// that begins with the listener binding.
pub proof fn lemma_ready_notified_exactly_once(evs: Seq<Event>)
    ensures
        0 <= ready_notifications(LifecycleState::Starting, evs) <= 1,
        evs.len() > 0 && evs[0] == Event::ListenerBound ==> ready_notifications(
            LifecycleState::Starting,
            evs,
        ) == 1,
{
    lemma_ready_count_elsewhere(LifecycleState::Starting, evs);
    if evs.len() > 0 && evs[0] == Event::ListenerBound {
        lemma_ready_count_elsewhere(LifecycleState::Ready, evs.subrange(1, evs.len() as int));
    }
}

/// The ready notification is directed only before anything else has
/// happened, in response to the listener being bound.
pub proof fn lemma_ready_only_on_listener_bound(s: LifecycleState, e: Event)
    ensures
        spec_directive(s, e).notify_ready ==> s == LifecycleState::Starting && e
            == Event::ListenerBound,
{
}

/// Once the drain is triggered it stays triggered and the server never
/// accepts a new connection again, whatever else happens.
pub proof fn lemma_no_accept_after_drain(s: LifecycleState, evs: Seq<Event>)
    requires
        drain_triggered(s),
    ensures
        drain_triggered(run(s, evs)),
        !accepting(run(s, evs)),
    decreases evs.len(),
{
    if evs.len() > 0 {
        lemma_no_accept_after_drain(spec_next(s, evs[0]), evs.subrange(1, evs.len() as int));
    }
}

/// A terminal state is never left.
pub proof fn lemma_terminal_absorbing(s: LifecycleState, evs: Seq<Event>)
    requires
        terminal(s),
    ensures
        run(s, evs) == s,
    decreases evs.len(),
{
    if evs.len() > 0 {
        lemma_terminal_absorbing(spec_next(s, evs[0]), evs.subrange(1, evs.len() as int));
    }
}

/// While the drain races the force timer, events that decide nothing keep
/// the machine in `Stopping`.
proof fn lemma_stopping_stays(evs: Seq<Event>)
    requires
        forall|j: int| 0 <= j < evs.len() ==> !deciding(#[trigger] evs[j]),
    ensures
        run(LifecycleState::Stopping, evs) == LifecycleState::Stopping,
    decreases evs.len(),
{
    if evs.len() > 0 {
        assert(!deciding(evs[0]));
        lemma_stopping_stays(evs.subrange(1, evs.len() as int));
    }
}

/// From the drain trigger on, the first completion event settles the race:
/// if every in-flight request completes before the force timer elapses the
/// run ends `DrainedGracefully` (even when a transport error was reported);
/// if the timer elapses first it ends `ForceTerminated`. Either way the
/// process-exit directive — status zero — is issued at that very step, and
/// the outcome never changes afterwards.
pub proof fn lemma_first_completion_decides(evs: Seq<Event>, i: int)
    requires
        0 <= i < evs.len(),
        deciding(evs[i]),
        forall|j: int| 0 <= j < i ==> !deciding(#[trigger] evs[j]),
    ensures
        (evs[i] matches Event::Drained { .. }) ==> run(LifecycleState::Stopping, evs)
            == LifecycleState::DrainedGracefully,
        evs[i] == Event::ForceTimerElapsed ==> run(LifecycleState::Stopping, evs)
            == LifecycleState::ForceTerminated,
        spec_directive(run(LifecycleState::Stopping, evs.take(i)), evs[i]).exit_process,
{
    let pre = evs.take(i);
    let rest = evs.subrange(i, evs.len() as int);
    assert(evs =~= pre + rest);
    lemma_run_append(LifecycleState::Stopping, pre, rest);
    assert(forall|j: int| 0 <= j < pre.len() ==> !deciding(#[trigger] pre[j]));
    lemma_stopping_stays(pre);
    assert(rest[0] == evs[i]);
    assert(rest.subrange(1, rest.len() as int) =~= evs.subrange(i + 1, evs.len() as int));
    let after = spec_next(LifecycleState::Stopping, evs[i]);
    assert(run(LifecycleState::Stopping, rest) == run(after, evs.subrange(i + 1, evs.len() as int)));
    lemma_terminal_absorbing(after, evs.subrange(i + 1, evs.len() as int));
}

} // verus!
