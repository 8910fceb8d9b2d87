//! The one-time initialization guard, as a state machine.
use vstd::prelude::*;

verus! {

/// Where initialization stands.
#[derive(Clone, Copy, Debug, PartialEq, Eq, Structural)]
pub enum InitPhase {
    /// Nobody has started resolving.
    Uninitialized,
    /// One caller is resolving.
    Running,
    /// Every symbol is resolved; the table is readable.
    Done,
    /// Resolution failed; the cache can never become readable.
    Aborted,
}

/// What a caller that asks to initialize must do next.
#[derive(Clone, Copy, Debug, PartialEq, Eq, Structural)]
pub enum BeginAction {
    /// This caller performs the resolution.
    Perform,
    /// Another caller is resolving: wait for it.
    Wait,
    /// Initialization is complete: nothing to do.
    Ready,
    /// Initialization failed earlier: the caller must fail.
    Fatal,
}

/// Something that happens to the guard.
#[derive(Clone, Copy, Debug, PartialEq, Eq, Structural)]
pub enum GuardEvent {
    /// A caller asks to initialize.
    Begin,
    /// The resolving caller finished with every symbol resolved.
    Succeed,
    /// The resolving caller found a symbol that does not resolve.
    Fail,
}

/// The next phase and the caller's action when a caller asks to initialize.
pub open spec fn begin_step(p: InitPhase) -> (InitPhase, BeginAction) {
    match p {
        InitPhase::Uninitialized => (InitPhase::Running, BeginAction::Perform),
        InitPhase::Running => (InitPhase::Running, BeginAction::Wait),
        InitPhase::Done => (InitPhase::Done, BeginAction::Ready),
        InitPhase::Aborted => (InitPhase::Aborted, BeginAction::Fatal),
    }
}

/// The phase after event `e` in phase `p`. Only the resolving caller ends a run,
/// so `Succeed` and `Fail` change nothing outside `Running`.
pub open spec fn next_phase(p: InitPhase, e: GuardEvent) -> InitPhase {
    match e {
        GuardEvent::Begin => begin_step(p).0,
        GuardEvent::Succeed => if p is Running {
            InitPhase::Done
        } else {
            p
        },
        GuardEvent::Fail => if p is Running {
            InitPhase::Aborted
        } else {
            p
        },
    }
}

/// The phase after a sequence of events.
pub open spec fn run(p: InitPhase, events: Seq<GuardEvent>) -> InitPhase
    decreases events.len(),
{
    if events.len() == 0 {
        p
    } else {
        run(next_phase(p, events[0]), events.drop_first())
    }
}

/// How many callers of a sequence of events are told to perform the resolution.
pub open spec fn performers(p: InitPhase, events: Seq<GuardEvent>) -> nat
    decreases events.len(),
{
    if events.len() == 0 {
        0
    } else {
        (if begin_step(p).1 is Perform && events[0] is Begin {
            1nat
        } else {
            0nat
        }) + performers(next_phase(p, events[0]), events.drop_first())
    }
}

/// The next phase and action when a caller asks to initialize in phase `p`.
pub fn begin(p: InitPhase) -> (r: (InitPhase, BeginAction))
    ensures
        r == begin_step(p),
{
    match p {
        InitPhase::Uninitialized => (InitPhase::Running, BeginAction::Perform),
        InitPhase::Running => (InitPhase::Running, BeginAction::Wait),
        InitPhase::Done => (InitPhase::Done, BeginAction::Ready),
        InitPhase::Aborted => (InitPhase::Aborted, BeginAction::Fatal),
    }
}

/// The phase after event `e` in phase `p`.
pub fn step(p: InitPhase, e: GuardEvent) -> (r: InitPhase)
    ensures
        r == next_phase(p, e),
{
    match e {
        GuardEvent::Begin => begin(p).0,
        GuardEvent::Succeed => if p == InitPhase::Running {
            InitPhase::Done
        } else {
            p
        },
        GuardEvent::Fail => if p == InitPhase::Running {
            InitPhase::Aborted
        } else {
            p
        },
    }
}

/// Once a run has started, no caller is told to perform it again, and the guard
/// never goes back to `Uninitialized`.
pub proof fn lemma_started_stays_started(p: InitPhase, events: Seq<GuardEvent>)
    requires
        !(p is Uninitialized),
    ensures
        performers(p, events) == 0,
        !(run(p, events) is Uninitialized),
    decreases events.len(),
{
    if events.len() > 0 {
        lemma_started_stays_started(next_phase(p, events[0]), events.drop_first());
    }
}

/// However many callers ask to initialize, in whatever interleaving with the end
/// of the run, exactly one of them is told to perform the resolution.
pub proof fn lemma_exactly_one_performer(events: Seq<GuardEvent>)
    requires
        exists|i: int| 0 <= i < events.len() && events[i] is Begin,
    ensures
        performers(InitPhase::Uninitialized, events) == 1,
    decreases events.len(),
{
    let e = events[0];
    if e is Begin {
        lemma_started_stays_started(InitPhase::Running, events.drop_first());
    } else {
        let i = choose|i: int| 0 <= i < events.len() && events[i] is Begin;
        assert(events.drop_first()[i - 1] is Begin);
        lemma_exactly_one_performer(events.drop_first());
    }
}

/// After a successful run, further requests do no resolution work and the guard
/// stays `Done`.
pub proof fn lemma_done_is_stable(events: Seq<GuardEvent>)
    ensures
        run(InitPhase::Done, events) == InitPhase::Done,
        performers(InitPhase::Done, events) == 0,
    decreases events.len(),
{
    lemma_started_stays_started(InitPhase::Done, events);
    if events.len() > 0 {
        lemma_done_is_stable(events.drop_first());
    }
}

/// After a failed run the guard never reaches `Done`: nothing is ever served.
pub proof fn lemma_abort_is_terminal(events: Seq<GuardEvent>)
    ensures
        run(InitPhase::Aborted, events) == InitPhase::Aborted,
        performers(InitPhase::Aborted, events) == 0,
    decreases events.len(),
{
    lemma_started_stays_started(InitPhase::Aborted, events);
    if events.len() > 0 {
        lemma_abort_is_terminal(events.drop_first());
    }
}

} // verus!
