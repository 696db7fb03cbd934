//! Runs of the supervision state machine: what a sequence of events leads to,
//! and the laws that hold of every run.

use vstd::prelude::*;
use crate::status::{LifecycleState, StatusNoteView};
use crate::supervisor::{
    answers, exited_message, has_child, hears_commands, is_final, launch_failed_message, note,
    pending, running_message, stay, transition, BackendCommand, EventView, Phase, Request, Signal,
    StepView, POLL_INTERVAL_SECS, RESTART_DELAY_SECS, RETRY_DELAY_SECS,
};

verus! {

/// The statuses that a step publishes: one or none.
pub open spec fn published(step: StepView) -> Seq<StatusNoteView> {
    match step.note {
        Some(n) => seq![n],
        None => Seq::empty(),
    }
}

/// The phase that the supervisor is in after `events`, starting in `phase`.
pub open spec fn phase_after(phase: Phase, events: Seq<EventView>) -> Phase
    decreases events.len(),
{
    if events.len() == 0 {
        phase
    } else {
        phase_after(transition(phase, events.first()).next, events.drop_first())
    }
}

/// The statuses published over `events`, in order, starting in `phase`.
pub open spec fn notes_after(phase: Phase, events: Seq<EventView>) -> Seq<StatusNoteView>
    decreases events.len(),
{
    if events.len() == 0 {
        Seq::empty()
    } else {
        let step = transition(phase, events.first());
        published(step) + notes_after(step.next, events.drop_first())
    }
}

/// The outside work asked for over `events`, in order, starting in `phase`:
/// after each event, the request of the phase that it led to.
pub open spec fn requests_after(phase: Phase, events: Seq<EventView>) -> Seq<Request>
    decreases events.len(),
{
    if events.len() == 0 {
        Seq::empty()
    } else {
        let next = transition(phase, events.first()).next;
        seq![pending(next)] + requests_after(next, events.drop_first())
    }
}

/// The event that delivers the shutdown command.
pub open spec fn shutdown_event() -> EventView {
    EventView::Channel(Signal::Command(BackendCommand::Shutdown))
}

/// An event that does not answer the request that the phase waits for is
/// ignored: the phase stays, the child is left alone, and nothing is
/// published.
pub proof fn law_stray_events_are_ignored(phase: Phase, event: EventView)
    requires
        !answers(phase, event),
    ensures
        transition(phase, event) == stay(phase),
{
}

/// Supervision ends only when it is told to, or on an error that no retry
/// mends: on a command or the loss of the controller, on a failed
/// preparation, or on a failed look at the child. A launch that fails and a
/// child that exits never end it, however often they happen.
pub proof fn law_supervision_goes_on(phase: Phase, event: EventView)
    requires
        !is_final(phase),
        is_final(transition(phase, event).next),
    ensures
        event is Channel || event is TemplateMissing || event is PrepareFailed
            || event is ProbeFailed,
        event is Channel ==> hears_commands(phase) && event != EventView::Channel(Signal::Quiet),
        !(event is LaunchFailed) && !(event is ChildExited),
{
}

/// A run over `first` and then `second` is the run over `first`, continued
/// over `second` from the phase that `first` led to.
pub proof fn law_runs_compose(phase: Phase, first: Seq<EventView>, second: Seq<EventView>)
    ensures
        phase_after(phase, first + second) == phase_after(phase_after(phase, first), second),
        notes_after(phase, first + second) == notes_after(phase, first) + notes_after(
            phase_after(phase, first),
            second,
        ),
        requests_after(phase, first + second) == requests_after(phase, first) + requests_after(
            phase_after(phase, first),
            second,
        ),
    decreases first.len(),
{
    if first.len() == 0 {
        assert(first + second =~= second);
    } else {
        let next = transition(phase, first.first()).next;
        assert((first + second).first() == first.first());
        assert((first + second).drop_first() =~= first.drop_first() + second);
        law_runs_compose(next, first.drop_first(), second);
        assert(notes_after(phase, first + second) =~= notes_after(phase, first) + notes_after(
            phase_after(phase, first),
            second,
        ));
        assert(requests_after(phase, first + second) =~= requests_after(phase, first)
            + requests_after(phase_after(phase, first), second));
    }
}

/// Once supervision has ended, nothing happens any more: whatever events
/// follow, the phase stays, no status is published, and the only request is
/// to leave the loop.
pub proof fn law_final_phase_is_silent(phase: Phase, events: Seq<EventView>)
    requires
        is_final(phase),
    ensures
        phase_after(phase, events) == phase,
        notes_after(phase, events) == Seq::<StatusNoteView>::empty(),
        forall|i: int|
            0 <= i < requests_after(phase, events).len() ==> requests_after(phase, events)[i]
                == Request::Exit,
    decreases events.len(),
{
    if events.len() > 0 {
        law_final_phase_is_silent(phase, events.drop_first());
        assert(notes_after(phase, events) =~= Seq::<StatusNoteView>::empty());
        assert forall|i: int| 0 <= i < requests_after(phase, events).len() implies requests_after(
            phase,
            events,
        )[i] == Request::Exit by {
            if i > 0 {
                assert(requests_after(phase, events)[i] == requests_after(
                    phase,
                    events.drop_first(),
                )[i - 1]);
            }
        }
    }
}

/// A shutdown command that reaches the supervisor ends supervision: the
/// child, if one is alive, is stopped; exactly one status is published on
/// the command, a `Stopped`; and whatever events follow, none is published
/// after it. So the last status of the run is `Stopped`, and neither
/// `Running` nor `Restarting` comes after the command.
pub proof fn law_shutdown_is_final(
    start: Phase,
    before: Seq<EventView>,
    after: Seq<EventView>,
)
    requires
        hears_commands(phase_after(start, before)),
    ensures
        phase_after(start, before + seq![shutdown_event()] + after) == Phase::Stopped,
        transition(phase_after(start, before), shutdown_event()).stop_child == has_child(
            phase_after(start, before),
        ),
        notes_after(start, before + seq![shutdown_event()] + after).len() == notes_after(
            start,
            before,
        ).len() + 1,
        notes_after(start, before + seq![shutdown_event()] + after).drop_last() == notes_after(
            start,
            before,
        ),
        notes_after(start, before + seq![shutdown_event()] + after).last().state
            == LifecycleState::Stopped,
{
    let at = phase_after(start, before);
    let tail = seq![shutdown_event()] + after;
    let step = transition(at, shutdown_event());
    assert(tail.first() == shutdown_event());
    assert(tail.drop_first() =~= after);
    assert(step.next == Phase::Stopped);
    law_final_phase_is_silent(Phase::Stopped, after);
    assert(notes_after(at, tail) =~= published(step));
    law_runs_compose(start, before, tail);
    assert(before + seq![shutdown_event()] + after =~= before + tail);
    assert(notes_after(start, before + tail).drop_last() =~= notes_after(start, before));
}

/// At most one child is alive at any time: a launch is asked for only when
/// no child is alive; a child comes to life only through a launch; the
/// supervisor lets go of a child only when it has seen the child exit or has
/// had it stopped; and it has a child stopped only when one is alive.
pub proof fn law_one_child_at_a_time(phase: Phase, event: EventView)
    ensures
        pending(phase) == Request::Launch ==> !has_child(phase),
        has_child(transition(phase, event).next) ==> has_child(phase) || (phase
            == Phase::Launching && event is ChildStarted),
        has_child(phase) && !has_child(transition(phase, event).next) ==> transition(
            phase,
            event,
        ).stop_child || event is ChildExited,
        transition(phase, event).stop_child ==> has_child(phase),
{
}

/// A child that exits is replaced after one restart delay: from the watch
/// over a running child, a quiet poll interval, the news of the exit, the
/// delay, a quiet command channel and a successful launch publish `Stopped`
/// with the exit code, `Restarting`, and `Running` with the process id of the
/// new child; the only pause asked for on the way is the restart delay.
pub proof fn law_crash_restart(code: Option<i32>, new_pid: u32)
    ensures
        ({
            let events = seq![
                EventView::Channel(Signal::Quiet),
                EventView::ChildExited(code),
                EventView::DelayElapsed,
                EventView::Channel(Signal::Quiet),
                EventView::ChildStarted(new_pid),
            ];
            &&& phase_after(Phase::Running, events) == Phase::Running
            &&& notes_after(Phase::Running, events) == seq![
                note(LifecycleState::Stopped, exited_message(code)),
                note(LifecycleState::Restarting, "Reiniciando backend"@),
                note(LifecycleState::Running, running_message(new_pid)),
            ]
            &&& requests_after(Phase::Running, events) == seq![
                Request::ProbeChild,
                Request::Delay(RESTART_DELAY_SECS),
                Request::PollCommand,
                Request::Launch,
                Request::AwaitCommand(POLL_INTERVAL_SECS),
            ]
        }),
{
    let e0 = EventView::Channel(Signal::Quiet);
    let e1 = EventView::ChildExited(code);
    let e2 = EventView::DelayElapsed;
    let e3 = EventView::Channel(Signal::Quiet);
    let e4 = EventView::ChildStarted(new_pid);
    let events = seq![e0, e1, e2, e3, e4];
    let t1 = seq![e1, e2, e3, e4];
    let t2 = seq![e2, e3, e4];
    let t3 = seq![e3, e4];
    let t4 = seq![e4];
    assert(events.drop_first() =~= t1);
    assert(t1.drop_first() =~= t2);
    assert(t2.drop_first() =~= t3);
    assert(t3.drop_first() =~= t4);
    assert(t4.drop_first() =~= Seq::<EventView>::empty());
    assert(events.first() == e0 && t1.first() == e1 && t2.first() == e2 && t3.first() == e3
        && t4.first() == e4);
    reveal_with_fuel(phase_after, 6);
    reveal_with_fuel(notes_after, 6);
    reveal_with_fuel(requests_after, 6);
    assert(notes_after(Phase::Running, events) =~= seq![
        note(LifecycleState::Stopped, exited_message(code)),
        note(LifecycleState::Restarting, "Reiniciando backend"@),
        note(LifecycleState::Running, running_message(new_pid)),
    ]);
    assert(requests_after(Phase::Running, events) =~= seq![
        Request::ProbeChild,
        Request::Delay(RESTART_DELAY_SECS),
        Request::PollCommand,
        Request::Launch,
        Request::AwaitCommand(POLL_INTERVAL_SECS),
    ]);
}

/// The events of one failed launch and the quiet wait for the next attempt:
/// the failure, the retry delay timing out, and an empty command channel.
pub open spec fn failed_attempt(detail: Seq<char>) -> Seq<EventView> {
    seq![
        EventView::LaunchFailed(detail),
        EventView::Channel(Signal::Quiet),
        EventView::Channel(Signal::Quiet),
    ]
}

/// The events of one failed attempt after another, one for each detail.
pub open spec fn failed_attempts(details: Seq<Seq<char>>) -> Seq<EventView>
    decreases details.len(),
{
    if details.len() == 0 {
        Seq::empty()
    } else {
        failed_attempt(details.first()) + failed_attempts(details.drop_first())
    }
}

/// The requests that one failed attempt leads to: the wait of the retry
/// delay, the look at the command channel, and the next launch.
pub open spec fn retry_cycle() -> Seq<Request> {
    seq![Request::AwaitCommand(RETRY_DELAY_SECS), Request::PollCommand, Request::Launch]
}

/// The requests of `n` failed attempts.
pub open spec fn retry_cycles(n: nat) -> Seq<Request>
    decreases n,
{
    if n == 0 {
        Seq::empty()
    } else {
        retry_cycle() + retry_cycles((n - 1) as nat)
    }
}

proof fn lemma_failed_attempt(detail: Seq<char>)
    ensures
        phase_after(Phase::Launching, failed_attempt(detail)) == Phase::Launching,
        notes_after(Phase::Launching, failed_attempt(detail)) == seq![
            note(LifecycleState::Error, launch_failed_message(detail)),
        ],
        requests_after(Phase::Launching, failed_attempt(detail)) == retry_cycle(),
{
    let quiet = EventView::Channel(Signal::Quiet);
    let one = failed_attempt(detail);
    let t1 = seq![quiet, quiet];
    let t2 = seq![quiet];
    assert(one.drop_first() =~= t1);
    assert(t1.drop_first() =~= t2);
    assert(t2.drop_first() =~= Seq::<EventView>::empty());
    reveal_with_fuel(phase_after, 4);
    reveal_with_fuel(notes_after, 4);
    reveal_with_fuel(requests_after, 4);
    assert(notes_after(Phase::Launching, one) =~= seq![
        note(LifecycleState::Error, launch_failed_message(detail)),
    ]);
    assert(requests_after(Phase::Launching, one) =~= retry_cycle());
}

/// While launches keep failing, the supervisor keeps trying: each failure
/// publishes one `Error` with its diagnostic and nothing else, two
/// attempts are one wait of the retry delay apart, and the supervisor is
/// launching again at the end.
pub proof fn law_launch_failures_back_off(details: Seq<Seq<char>>)
    ensures
        phase_after(Phase::Launching, failed_attempts(details)) == Phase::Launching,
        notes_after(Phase::Launching, failed_attempts(details)) == details.map_values(
            |d: Seq<char>| note(LifecycleState::Error, launch_failed_message(d)),
        ),
        requests_after(Phase::Launching, failed_attempts(details)) == retry_cycles(details.len()),
    decreases details.len(),
{
    let render = |d: Seq<char>| note(LifecycleState::Error, launch_failed_message(d));
    if details.len() == 0 {
        assert(notes_after(Phase::Launching, failed_attempts(details)) =~= details.map_values(
            render,
        ));
    } else {
        let rest = details.drop_first();
        lemma_failed_attempt(details.first());
        law_launch_failures_back_off(rest);
        law_runs_compose(Phase::Launching, failed_attempt(details.first()), failed_attempts(rest));
        assert(details.map_values(render) =~= seq![render(details.first())] + rest.map_values(
            render,
        ));
    }
}

/// Launch failures end with the shutdown command: after any number of failed
/// attempts and one more failure, a shutdown command that arrives during the
/// wait for the next attempt is answered with the one `Stopped`, and nothing
/// is published after it, whatever follows. The run has published one
/// `Error` for each failure and then the `Stopped`.
pub proof fn law_backoff_ends_on_shutdown(
    details: Seq<Seq<char>>,
    last: Seq<char>,
    after: Seq<EventView>,
)
    ensures
        ({
            let events = failed_attempts(details) + seq![EventView::LaunchFailed(last)] + seq![
                shutdown_event(),
            ] + after;
            &&& phase_after(Phase::Launching, events) == Phase::Stopped
            &&& notes_after(Phase::Launching, events) == details.map_values(
                |d: Seq<char>| note(LifecycleState::Error, launch_failed_message(d)),
            ) + seq![
                note(LifecycleState::Error, launch_failed_message(last)),
                note(LifecycleState::Stopped, "Encerrado"@),
            ]
        }),
{
    let failures = failed_attempts(details);
    let failure = seq![EventView::LaunchFailed(last)];
    let before = failures + failure;
    let events = before + seq![shutdown_event()] + after;
    law_launch_failures_back_off(details);
    law_runs_compose(Phase::Launching, failures, failure);
    assert(failure.drop_first() =~= Seq::<EventView>::empty());
    reveal_with_fuel(phase_after, 2);
    reveal_with_fuel(notes_after, 2);
    assert(phase_after(Phase::Launching, failure) == Phase::Backoff);
    assert(notes_after(Phase::Launching, failure) =~= seq![
        note(LifecycleState::Error, launch_failed_message(last)),
    ]);
    assert(phase_after(Phase::Launching, before) == Phase::Backoff);
    law_shutdown_is_final(Phase::Launching, before, after);
    let tail = seq![shutdown_event()] + after;
    assert(events =~= before + tail);
    law_runs_compose(Phase::Launching, before, tail);
    assert(tail.first() == shutdown_event());
    assert(tail.drop_first() =~= after);
    law_final_phase_is_silent(Phase::Stopped, after);
    assert(notes_after(Phase::Backoff, tail) =~= seq![note(LifecycleState::Stopped, "Encerrado"@)]);
    assert(notes_after(Phase::Launching, events) =~= details.map_values(
        |d: Seq<char>| note(LifecycleState::Error, launch_failed_message(d)),
    ) + seq![
        note(LifecycleState::Error, launch_failed_message(last)),
        note(LifecycleState::Stopped, "Encerrado"@),
    ]);
}

} // verus!
