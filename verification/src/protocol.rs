//! The discipline that calls into the backend follow, as a transition
//! system, and the two facts that make it safe: no two callers are ever
//! inside the backend at once, and every way out of the backend, a
//! failed run among them, leaves the lock free for the next caller.
//!
//! The model has any number of callers and one lock. Each caller builds
//! its argument vector, asks for the lock until it is answered, runs
//! the backend while holding it, and gives it back on the way out. A
//! caller that is refused a poisoned lock, and one whose backend has no
//! entry point, are steps of their own.
//!
//! This is a model and nothing more. No proof ties it to the code of
//! `lld_main`: what is proved here is proved of the transition system
//! below. It takes for granted that the lock is handed out only when
//! nobody holds it, which in the code is what std's mutex provides, and
//! it does not care whether a caller builds its vector before or after
//! the lock has answered. What is proved of the code itself stands in
//! the contracts of `lld_main` and `dispatch_with`: the entry point is
//! handed the access that the lock gave out.

use vstd::prelude::*;

verus! {

/// Where one caller stands.
pub enum CallPhase {
    /// Not in a call.
    Idle,
    /// Putting the argument vector together.
    BuildingArgs,
    /// Asking for the lock until it answers.
    AwaitingLock,
    /// Holding the lock for the backend run: inside the native entry
    /// point, where the backend has one.
    Executing,
    /// Past the backend or refused the lock, holding nothing, about to
    /// return.
    Returning,
}

/// What moves a caller from one phase to the next.
pub enum CallEvent {
    /// The call begins.
    Start,
    /// The argument vector is complete.
    ArgsBuilt,
    /// The lock is handed to the caller.
    LockGranted,
    /// The lock turns out poisoned: the caller gets no access and goes
    /// on without a run.
    LockRefused,
    /// The native entry point came back with `code`.
    BackendReturned { code: int },
    /// The backend has no entry point, placeholder or missing: the run
    /// ends without a call.
    BackendSkipped,
    /// The call hands its result to the caller.
    Finished,
}

/// The phase that `event` leads to from `phase`, if it can happen there.
pub open spec fn phase_after(phase: CallPhase, event: CallEvent) -> Option<CallPhase> {
    match (phase, event) {
        (CallPhase::Idle, CallEvent::Start) => Some(CallPhase::BuildingArgs),
        (CallPhase::BuildingArgs, CallEvent::ArgsBuilt) => Some(CallPhase::AwaitingLock),
        (CallPhase::AwaitingLock, CallEvent::LockGranted) => Some(CallPhase::Executing),
        (CallPhase::AwaitingLock, CallEvent::LockRefused) => Some(CallPhase::Returning),
        (CallPhase::Executing, CallEvent::BackendReturned { .. }) => Some(CallPhase::Returning),
        (CallPhase::Executing, CallEvent::BackendSkipped) => Some(CallPhase::Returning),
        (CallPhase::Returning, CallEvent::Finished) => Some(CallPhase::Idle),
        _ => None,
    }
}

/// All callers of one process, and who holds the lock.
pub struct Callers {
    /// The phase of every caller that has left `Idle` at least once.
    pub phases: Map<nat, CallPhase>,
    /// The caller that holds the lock, if any does.
    pub holder: Option<nat>,
}

impl Callers {
    /// Before any call: everyone idle, the lock free.
    pub open spec fn initial() -> Callers {
        Callers { phases: Map::empty(), holder: None }
    }

    /// The phase of `caller`.
    pub open spec fn phase(self, caller: nat) -> CallPhase {
        if self.phases.dom().contains(caller) {
            self.phases[caller]
        } else {
            CallPhase::Idle
        }
    }

    /// `event` can happen to `caller` now. The lock answers, with an
    /// access or with a refusal, only while nobody holds it.
    pub open spec fn enabled(self, caller: nat, event: CallEvent) -> bool {
        &&& phase_after(self.phase(caller), event) is Some
        &&& event is LockGranted || event is LockRefused ==> self.holder is None
    }

    /// The state after `event` has happened to `caller`. The lock is
    /// given back when the backend run ends, whatever the exit code and
    /// also where no entry point was called. A refused caller never
    /// holds it.
    pub open spec fn after(self, caller: nat, event: CallEvent) -> Callers
        recommends
            self.enabled(caller, event),
    {
        Callers {
            phases: self.phases.insert(caller, phase_after(self.phase(caller), event)->0),
            holder: match event {
                CallEvent::LockGranted => Some(caller),
                CallEvent::BackendReturned { .. } => None,
                CallEvent::BackendSkipped => None,
                _ => self.holder,
            },
        }
    }

    /// The callers inside the backend are exactly the holder of the
    /// lock.
    pub open spec fn consistent(self) -> bool {
        forall|caller: nat| #[trigger] self.phase(caller) is Executing <==> self.holder == Some(caller)
    }
}

/// `next` comes from `state` by one enabled event of one caller.
pub open spec fn is_step(state: Callers, next: Callers) -> bool {
    exists|caller: nat, event: CallEvent|
        (#[trigger] state.enabled(caller, event)) && next == state.after(caller, event)
}

/// `trace` is a run of the process: it starts before any call, and every
/// state comes from the one before by one step.
pub open spec fn is_run(trace: Seq<Callers>) -> bool {
    &&& trace.len() > 0
    &&& trace[0] == Callers::initial()
    &&& forall|i: int| #![trigger trace[i]] 0 <= i < trace.len() - 1 ==> is_step(trace[i], trace[i + 1])
}

/// One enabled event keeps the state consistent.
pub proof fn lemma_step_consistent(state: Callers, caller: nat, event: CallEvent)
    requires
        state.consistent(),
        state.enabled(caller, event),
    ensures
        state.after(caller, event).consistent(),
{
    let next = state.after(caller, event);
    assert forall|other: nat| #[trigger] next.phase(other) is Executing <==> next.holder == Some(
        other,
    ) by {
        assert(state.phase(other) is Executing <==> state.holder == Some(other));
        assert(state.phase(caller) is Executing <==> state.holder == Some(caller));
        if other != caller {
            assert(next.phase(other) == state.phase(other));
        }
    }
}

/// Every state of a run is consistent.
pub proof fn lemma_run_consistent(trace: Seq<Callers>, at: int)
    requires
        is_run(trace),
        0 <= at < trace.len(),
    ensures
        trace[at].consistent(),
    decreases at,
{
    if at == 0 {
        assert forall|caller: nat| #[trigger]
            trace[0].phase(caller) is Executing <==> trace[0].holder == Some(caller) by {
            assert(!Callers::initial().phases.dom().contains(caller));
        }
    } else {
        lemma_run_consistent(trace, at - 1);
        assert(is_step(trace[at - 1], trace[at - 1 + 1]));
        let (caller, event) = choose|caller: nat, event: CallEvent|
            (#[trigger] trace[at - 1].enabled(caller, event)) && trace[at] == trace[at - 1].after(
                caller,
                event,
            );
        lemma_step_consistent(trace[at - 1], caller, event);
    }
}

/// Mutual exclusion: at no point of a run are two different callers
/// inside the native entry point.
pub proof fn lemma_mutual_exclusion(trace: Seq<Callers>, at: int, first: nat, second: nat)
    requires
        is_run(trace),
        0 <= at < trace.len(),
        trace[at].phase(first) is Executing,
        trace[at].phase(second) is Executing,
    ensures
        first == second,
{
    lemma_run_consistent(trace, at);
    assert(trace[at].holder == Some(first));
    assert(trace[at].holder == Some(second));
}

/// Every way out leaves the lock free: once a caller has moved to
/// `Returning`, by a backend that returned any code, by a backend
/// without an entry point or by a refused lock, nobody holds the lock,
/// nobody is inside the backend, and every caller that waits for the
/// lock can be granted it.
pub proof fn lemma_lock_free_on_the_way_out(
    trace: Seq<Callers>,
    at: int,
    caller: nat,
    event: CallEvent,
)
    requires
        is_run(trace),
        0 <= at < trace.len(),
        trace[at].enabled(caller, event),
        phase_after(trace[at].phase(caller), event) == Some(CallPhase::Returning),
    ensures
        ({
            let next = trace[at].after(caller, event);
            &&& next.phase(caller) is Returning
            &&& next.holder is None
            &&& forall|other: nat| !(#[trigger] next.phase(other) is Executing)
            &&& forall|other: nat| #[trigger]
                next.phase(other) is AwaitingLock ==> next.enabled(other, CallEvent::LockGranted)
        }),
{
    lemma_run_consistent(trace, at);
    lemma_step_consistent(trace[at], caller, event);
    let next = trace[at].after(caller, event);
    assert(trace[at].phase(caller) is Executing <==> trace[at].holder == Some(caller));
    assert forall|other: nat| !(#[trigger] next.phase(other) is Executing) by {
        assert(next.phase(other) is Executing <==> next.holder == Some(other));
    }
}

/// Release on failure: when the backend of the caller inside it comes
/// back with a failing exit code, the caller moves on, the lock is free,
/// nobody is inside the backend, and every caller that waits for the
/// lock can be granted it.
pub proof fn lemma_release_on_failure(trace: Seq<Callers>, at: int, caller: nat, code: int)
    requires
        is_run(trace),
        0 <= at < trace.len(),
        trace[at].phase(caller) is Executing,
        code != 0,
    ensures
        trace[at].enabled(caller, CallEvent::BackendReturned { code }),
        ({
            let next = trace[at].after(caller, CallEvent::BackendReturned { code });
            &&& next.phase(caller) is Returning
            &&& next.holder is None
            &&& forall|other: nat| !(#[trigger] next.phase(other) is Executing)
            &&& forall|other: nat| #[trigger]
                next.phase(other) is AwaitingLock ==> next.enabled(other, CallEvent::LockGranted)
        }),
{
    lemma_lock_free_on_the_way_out(trace, at, caller, CallEvent::BackendReturned { code });
}

} // verus!
