use vstd::prelude::*;

use crate::bootstrap::{initial, next, Action, BootView, Event, Stage};
use crate::capability::{required_plugins, Capability};
use crate::diagnostic::diagnostic_of;

verus! {

/// The states and actions that feeding `events` in order, from state `s`,
/// produces: entry `i` is the state after event `i` and the action it asked for.
pub open spec fn trace(s: BootView, events: Seq<Event>) -> Seq<(BootView, Action)>
    decreases events.len(),
{
    if events.len() == 0 {
        Seq::empty()
    } else {
        let (t, a) = next(s, events[0]);
        seq![(t, a)] + trace(t, events.drop_first())
    }
}

/// A transition keeps the state well formed.
pub proof fn lemma_next_wf(s: BootView, e: Event)
    requires
        s.wf(),
    ensures
        next(s, e).0.wf(),
{
    let t = next(s, e).0;
    if t.attached.len() == s.attached.len() + 1 {
        assert(t.attached =~= required_plugins().take(t.attached.len() as int));
    }
}

/// A trace has one entry per event.
proof fn lemma_trace_len(s: BootView, events: Seq<Event>)
    ensures
        trace(s, events).len() == events.len(),
    decreases events.len(),
{
    if events.len() > 0 {
        lemma_trace_len(next(s, events[0]).0, events.drop_first());
    }
}

/// The first entry of a trace is the first transition, and the rest is the
/// trace of the remaining events from the state it reached.
proof fn lemma_trace_unfold(s: BootView, events: Seq<Event>)
    requires
        events.len() > 0,
    ensures
        trace(s, events).len() == events.len(),
        trace(s, events)[0] == next(s, events[0]),
        forall|j: int|
            1 <= j < events.len() ==> #[trigger] trace(s, events)[j] == trace(
                next(s, events[0]).0,
                events.drop_first(),
            )[j - 1],
{
    lemma_trace_len(s, events);
    lemma_trace_len(next(s, events[0]).0, events.drop_first());
}

/// Every state in the trace of a well-formed state is well formed.
pub proof fn lemma_trace_wf(s: BootView, events: Seq<Event>)
    requires
        s.wf(),
    ensures
        trace(s, events).len() == events.len(),
        forall|i: int| 0 <= i < events.len() ==> (#[trigger] trace(s, events)[i]).0.wf(),
    decreases events.len(),
{
    if events.len() > 0 {
        lemma_trace_unfold(s, events);
        lemma_next_wf(s, events[0]);
        lemma_trace_wf(next(s, events[0]).0, events.drop_first());
    }
}

/// Once the run loop has been started, the sequence never goes back to
/// configuring and never starts it again.
proof fn lemma_no_start_past_configuring(s: BootView, events: Seq<Event>)
    requires
        s.wf(),
        s.stage != Stage::Configuring,
    ensures
        trace(s, events).len() == events.len(),
        forall|j: int|
            0 <= j < events.len() ==> {
                &&& (#[trigger] trace(s, events)[j]).0.stage != Stage::Configuring
                &&& trace(s, events)[j].1 != Action::StartRunLoop
            },
    decreases events.len(),
{
    if events.len() > 0 {
        lemma_trace_unfold(s, events);
        lemma_next_wf(s, events[0]);
        lemma_no_start_past_configuring(next(s, events[0]).0, events.drop_first());
    }
}

/// The run loop is started only once both plugins are attached, in order,
/// whatever events the host reports.
pub proof fn lemma_start_needs_all_plugins(s: BootView, events: Seq<Event>)
    requires
        s.wf(),
    ensures
        forall|i: int|
            0 <= i < events.len() && (#[trigger] trace(s, events)[i]).1 == Action::StartRunLoop
                ==> trace(s, events)[i].0.attached == required_plugins(),
    decreases events.len(),
{
    if events.len() > 0 {
        lemma_trace_unfold(s, events);
        lemma_trace_wf(s, events);
        lemma_start_needs_all_plugins(next(s, events[0]).0, events.drop_first());
        lemma_next_wf(s, events[0]);
        assert forall|i: int|
            0 <= i < events.len() && (#[trigger] trace(s, events)[i]).1 == Action::StartRunLoop
                implies trace(s, events)[i].0.attached == required_plugins() by {
            let t = trace(s, events)[i].0;
            assert(t.wf());
            assert(t.attached =~= required_plugins());
        }
    }
}

/// The run loop is started at most once, and never on a builder without
/// plugins, whatever events the host reports.
pub proof fn lemma_run_loop_started_at_most_once(s: BootView, events: Seq<Event>)
    requires
        s.wf(),
    ensures
        forall|i: int, j: int|
            0 <= i < j < events.len() && (#[trigger] trace(s, events)[i]).1 == Action::StartRunLoop
                ==> (#[trigger] trace(s, events)[j]).1 != Action::StartRunLoop,
        forall|i: int|
            0 <= i < events.len() && (#[trigger] trace(s, events)[i]).1 == Action::StartRunLoop
                ==> trace(s, events)[i].0.attached.len() > 0,
    decreases events.len(),
{
    lemma_start_needs_all_plugins(s, events);
    if events.len() > 0 {
        let t = next(s, events[0]).0;
        let rest = events.drop_first();
        lemma_trace_unfold(s, events);
        lemma_next_wf(s, events[0]);
        lemma_run_loop_started_at_most_once(t, rest);
        if next(s, events[0]).1 == Action::StartRunLoop {
            lemma_no_start_past_configuring(t, rest);
        }
        assert forall|i: int, j: int|
            0 <= i < j < events.len() && (#[trigger] trace(s, events)[i]).1 == Action::StartRunLoop
                implies (#[trigger] trace(s, events)[j]).1 != Action::StartRunLoop by {
            assert(trace(s, events)[j] == trace(t, rest)[j - 1]);
            if i > 0 {
                assert(trace(s, events)[i] == trace(t, rest)[i - 1]);
            }
        }
    }
}

/// After the run loop is started, the sequence waits for it: events other
/// than the end of the run loop change nothing and ask for nothing.
pub proof fn lemma_running_waits_for_run_loop(s: BootView, events: Seq<Event>)
    requires
        s.wf(),
        s.stage == Stage::Running,
        forall|k: int|
            0 <= k < events.len() ==> !(#[trigger] events[k] is RunLoopClosed)
                && !(events[k] is RunLoopFailed),
    ensures
        forall|i: int|
            0 <= i < events.len() ==> #[trigger] trace(s, events)[i] == (s, Action::Idle),
    decreases events.len(),
{
    if events.len() > 0 {
        lemma_trace_unfold(s, events);
        assert(!(events[0] is RunLoopClosed) && !(events[0] is RunLoopFailed));
        let rest = events.drop_first();
        assert forall|k: int| 0 <= k < rest.len() implies !(#[trigger] rest[k] is RunLoopClosed)
            && !(rest[k] is RunLoopFailed) by {
            assert(rest[k] == events[k + 1]);
        }
        lemma_running_waits_for_run_loop(s, rest);
    }
}

/// A run loop that closes normally ends the sequence with a normal exit.
pub proof fn lemma_closed_run_loop_exits(s: BootView)
    requires
        s.wf(),
        s.stage == Stage::Running,
    ensures
        next(s, Event::RunLoopClosed) == (BootView { stage: Stage::Exited, ..s }, Action::Exit),
{
}

/// A run loop that fails ends the sequence at once: the host is told to
/// terminate with the error, the diagnostic says that the application failed
/// while running, and no later event asks for anything.
pub proof fn lemma_failed_run_loop_aborts(s: BootView, err: String, later: Seq<Event>)
    requires
        s.wf(),
        s.stage == Stage::Running,
    ensures
        next(s, Event::RunLoopFailed(err)).1 == Action::Abort(err),
        next(s, Event::RunLoopFailed(err)).0.stage == Stage::Aborted,
        diagnostic_of(err@).take(19) == "error while running"@,
        forall|i: int|
            0 <= i < later.len() ==> #[trigger] trace(next(s, Event::RunLoopFailed(err)).0, later)[i]
                == (next(s, Event::RunLoopFailed(err)).0, Action::Idle),
{
    crate::diagnostic::lemma_diagnostic_names_failure(err@);
    lemma_finished_stays(next(s, Event::RunLoopFailed(err)).0, later);
}

/// A sequence that has exited or aborted stays where it is and asks for
/// nothing more.
proof fn lemma_finished_stays(s: BootView, events: Seq<Event>)
    requires
        s.stage == Stage::Exited || s.stage == Stage::Aborted,
    ensures
        forall|i: int| 0 <= i < events.len() ==> #[trigger] trace(s, events)[i] == (s, Action::Idle),
    decreases events.len(),
{
    if events.len() > 0 {
        lemma_trace_unfold(s, events);
        lemma_finished_stays(s, events.drop_first());
    }
}

/// A plugin is recorded as attached only after the host reported attaching
/// it: every plugin in a state of the trace was there at the start or was
/// reported by an event at or before that entry.
proof fn lemma_attached_was_reported(s: BootView, events: Seq<Event>)
    ensures
        forall|i: int, c: Capability|
            0 <= i < events.len() && #[trigger] trace(s, events)[i].0.attached.contains(c)
                ==> s.attached.contains(c) || exists|k: int|
                0 <= k <= i && #[trigger] events[k] == Event::PluginAttached(c),
    decreases events.len(),
{
    if events.len() > 0 {
        let t = next(s, events[0]).0;
        let rest = events.drop_first();
        lemma_trace_unfold(s, events);
        lemma_attached_was_reported(t, rest);
        assert forall|i: int, c: Capability|
            0 <= i < events.len() && #[trigger] trace(s, events)[i].0.attached.contains(c)
                implies s.attached.contains(c) || exists|k: int|
                0 <= k <= i && #[trigger] events[k] == Event::PluginAttached(c) by {
            if t.attached.contains(c) && !s.attached.contains(c) {
                if t.attached.len() > s.attached.len() {
                    let x = choose|x: int| 0 <= x < t.attached.len() && t.attached[x] == c;
                    if x < s.attached.len() {
                        assert(s.attached[x] == c);
                    }
                    assert(events[0] == Event::PluginAttached(c));
                } else {
                    assert(t.attached == s.attached);
                }
            }
            if i > 0 {
                assert(trace(s, events)[i] == trace(t, rest)[i - 1]);
                if !t.attached.contains(c) {
                    let k = choose|k: int|
                        0 <= k <= i - 1 && #[trigger] rest[k] == Event::PluginAttached(c);
                    assert(events[k + 1] == rest[k]);
                }
            }
        }
    }
}

/// Started from launch, the run loop is started only after the host reported
/// attaching the shell plugin and the HTTP plugin.
pub proof fn lemma_start_follows_both_attachments(events: Seq<Event>)
    ensures
        forall|i: int|
            0 <= i < events.len() && (#[trigger] trace(initial(), events)[i]).1
                == Action::StartRunLoop ==> {
                &&& exists|k: int|
                    0 <= k <= i && #[trigger] events[k] == Event::PluginAttached(Capability::Shell)
                &&& exists|k: int|
                    0 <= k <= i && #[trigger] events[k] == Event::PluginAttached(Capability::Http)
            },
{
    lemma_start_needs_all_plugins(initial(), events);
    lemma_attached_was_reported(initial(), events);
    assert forall|i: int|
        0 <= i < events.len() && (#[trigger] trace(initial(), events)[i]).1
            == Action::StartRunLoop implies {
            &&& exists|k: int|
                0 <= k <= i && #[trigger] events[k] == Event::PluginAttached(Capability::Shell)
            &&& exists|k: int|
                0 <= k <= i && #[trigger] events[k] == Event::PluginAttached(Capability::Http)
        } by {
        let a = trace(initial(), events)[i].0.attached;
        assert(a[0] == Capability::Shell);
        assert(a[1] == Capability::Http);
        assert(a.contains(Capability::Shell));
        assert(a.contains(Capability::Http));
    }
}

} // verus!
