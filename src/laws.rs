//! Properties of every run of the harness state machine, over any sequence
//! of outcomes the host side may report.
use vstd::prelude::*;

use crate::error::HarnessError;
use crate::session::{accepted, next, rank, trace, Action, Event, ExitEvent, Phase, Session};

verus! {

/// Every accepted outcome moves the session to a later phase.
pub proof fn lemma_step_advances(s: Session, e: Event)
    requires
        accepted(s.phase, e),
    ensures
        rank(next(s, e).0.phase) > rank(s.phase),
{
}

/// From a phase after payload loading, no memory binding is issued again.
pub proof fn lemma_no_binding_after(s: Session, events: Seq<Event>)
    requires
        rank(s.phase) > rank(Phase::LoadingPayload),
    ensures
        forall|i: int| 0 <= i < trace(s, events).len() ==> !(trace(s, events)[i] is BindMemory),
    decreases events.len(),
{
    if events.len() > 0 && accepted(s.phase, events[0]) {
        lemma_step_advances(s, events[0]);
        lemma_no_binding_after(next(s, events[0]).0, events.drop_first());
    }
}

/// From the running phase on, the run primitive is not invoked again.
pub proof fn lemma_no_run_from(s: Session, events: Seq<Event>)
    requires
        rank(s.phase) >= rank(Phase::Running),
    ensures
        forall|i: int| 0 <= i < trace(s, events).len() ==> !(trace(s, events)[i] is Run),
    decreases events.len(),
{
    if events.len() > 0 && accepted(s.phase, events[0]) {
        lemma_step_advances(s, events[0]);
        lemma_no_run_from(next(s, events[0]).0, events.drop_first());
    }
}

/// Memory is bound at most once: whatever the outcomes reported, at most
/// one action of a run registers the memory region.
pub proof fn law_single_binding(s: Session, events: Seq<Event>)
    ensures
        forall|i: int, j: int|
            0 <= i < trace(s, events).len() && 0 <= j < trace(s, events).len()
                && trace(s, events)[i] is BindMemory && trace(s, events)[j] is BindMemory ==> i == j,
    decreases events.len(),
{
    if events.len() > 0 && accepted(s.phase, events[0]) {
        let t = next(s, events[0]).0;
        let rest = events.drop_first();
        law_single_binding(t, rest);
        if next(s, events[0]).1 is BindMemory {
            lemma_no_binding_after(t, rest);
        }
        assert(trace(s, events) == seq![next(s, events[0]).1] + trace(t, rest));
        assert forall|i: int, j: int|
            0 <= i < trace(s, events).len() && 0 <= j < trace(s, events).len()
                && trace(s, events)[i] is BindMemory && trace(s, events)[j] is BindMemory implies i
                == j by {
            if i > 0 {
                assert(trace(s, events)[i] == trace(t, rest)[i - 1]);
            }
            if j > 0 {
                assert(trace(s, events)[j] == trace(t, rest)[j - 1]);
            }
        }
    }
}

/// After a halt the loop stops: a running session that observes a halt goes
/// on to read the result, and no later action invokes the run primitive.
pub proof fn law_no_run_after_halt(s: Session, events: Seq<Event>)
    requires
        s.phase == Phase::Running,
    ensures
        next(s, Event::Exited(ExitEvent::Halt)).1 == Action::ReadResult,
        forall|i: int|
            0 <= i < trace(next(s, Event::Exited(ExitEvent::Halt)).0, events).len() ==> !(trace(
                next(s, Event::Exited(ExitEvent::Halt)).0,
                events,
            )[i] is Run),
{
    lemma_no_run_from(next(s, Event::Exited(ExitEvent::Halt)).0, events);
}

/// Any exit other than a halt ends the run: the session aborts with that
/// reason, and issues no further action (no retry, no register read),
/// whatever is reported afterwards.
pub proof fn law_unhandled_exit_ends_run(s: Session, reason: String, events: Seq<Event>)
    requires
        s.phase == Phase::Running,
    ensures
        next(s, Event::Exited(ExitEvent::Unhandled(reason))).1 == Action::Abort(
            HarnessError::UnexpectedExit { reason },
        ),
        next(s, Event::Exited(ExitEvent::Unhandled(reason))).0.phase == Phase::Failed,
        trace(next(s, Event::Exited(ExitEvent::Unhandled(reason))).0, events).len() == 0,
{
    let t = next(s, Event::Exited(ExitEvent::Unhandled(reason))).0;
    if events.len() > 0 {
        assert(!accepted(t.phase, events[0]));
    }
}

} // verus!
