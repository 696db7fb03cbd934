use ecolav_core::launch::spawn_backend_child;
use ecolav_core::meta::{read_backend_meta, MetaSource};
use ecolav_core::status::{LifecycleState, StatusNote};
use ecolav_core::supervisor::{
    step, BackendCommand, Event, Phase, Request, Signal, Step, POLL_INTERVAL_SECS,
    RESTART_DELAY_SECS, RETRY_DELAY_SECS,
};
use ecolav_core::sync::SyncError;

const SHUTDOWN: Event = Event::Channel(Signal::Command(BackendCommand::Shutdown));
const QUIET: Event = Event::Channel(Signal::Quiet);
const DISCONNECTED: Event = Event::Channel(Signal::Disconnected);

fn told(next: Phase, stop_child: bool, state: LifecycleState, message: &str) -> Step {
    Step { next, stop_child, note: Some(StatusNote { state, message: Some(message.to_string()) }) }
}

fn quiet(next: Phase) -> Step {
    Step { next, stop_child: false, note: None }
}

/// Feeds the events to the machine and collects the phase it ends in, the
/// statuses it publishes and the requests it makes on the way.
fn drive(start: Phase, events: &[Event]) -> (Phase, Vec<StatusNote>, Vec<Request>) {
    let mut phase = start;
    let mut notes = Vec::new();
    let mut requests = Vec::new();
    for event in events {
        let step = step(phase, event);
        phase = step.next;
        if let Some(note) = step.note {
            notes.push(note);
        }
        requests.push(phase.request());
    }
    (phase, notes, requests)
}

fn states(notes: &[StatusNote]) -> Vec<LifecycleState> {
    notes.iter().map(|n| n.state).collect()
}

fn all_phases() -> Vec<Phase> {
    vec![
        Phase::Preparing,
        Phase::Prepared,
        Phase::Launching,
        Phase::Running,
        Phase::Checking,
        Phase::Restarting,
        Phase::Backoff,
        Phase::Stopped,
        Phase::Failed,
    ]
}

fn all_events() -> Vec<Event> {
    vec![
        Event::TemplateMissing,
        Event::PrepareFailed("disk full".to_string()),
        Event::RuntimeReady("\"/data/backend-runtime\"".to_string()),
        SHUTDOWN,
        QUIET,
        DISCONNECTED,
        Event::LaunchFailed("no such file".to_string()),
        Event::ChildStarted(77),
        Event::ChildAlive,
        Event::ChildExited(Some(1)),
        Event::ChildExited(None),
        Event::ProbeFailed("access denied".to_string()),
        Event::DelayElapsed,
    ]
}

#[test]
fn supervision_begins_with_preparation() {
    assert_eq!(Phase::initial(), Phase::Preparing);
    assert_eq!(Phase::initial().request(), Request::Prepare);
}

#[test]
fn each_phase_asks_for_its_work() {
    assert_eq!(Phase::Preparing.request(), Request::Prepare);
    assert_eq!(Phase::Prepared.request(), Request::PollCommand);
    assert_eq!(Phase::Launching.request(), Request::Launch);
    assert_eq!(Phase::Running.request(), Request::AwaitCommand(2));
    assert_eq!(Phase::Checking.request(), Request::ProbeChild);
    assert_eq!(Phase::Restarting.request(), Request::Delay(2));
    assert_eq!(Phase::Backoff.request(), Request::AwaitCommand(5));
    assert_eq!(Phase::Stopped.request(), Request::Exit);
    assert_eq!(Phase::Failed.request(), Request::Exit);
}

#[test]
fn delays_are_two_two_and_five_seconds() {
    assert_eq!(POLL_INTERVAL_SECS, 2);
    assert_eq!(RESTART_DELAY_SECS, 2);
    assert_eq!(RETRY_DELAY_SECS, 5);
}

#[test]
fn only_stopped_and_failed_are_final() {
    for phase in all_phases() {
        let expected = phase == Phase::Stopped || phase == Phase::Failed;
        assert_eq!(phase.is_final(), expected);
        assert_eq!(phase.request() == Request::Exit, expected);
    }
}

#[test]
fn a_child_is_alive_while_running_and_checking() {
    for phase in all_phases() {
        let expected = phase == Phase::Running || phase == Phase::Checking;
        assert_eq!(phase.has_child(), expected);
    }
}

#[test]
fn a_ready_runtime_is_announced() {
    let event = Event::RuntimeReady("\"/data/backend-runtime\"".to_string());
    assert_eq!(
        step(Phase::Preparing, &event),
        told(
            Phase::Prepared,
            false,
            LifecycleState::Prepared,
            "Backend em \"/data/backend-runtime\""
        )
    );
}

#[test]
fn a_failed_preparation_is_fatal() {
    let event = Event::PrepareFailed("disk full".to_string());
    assert_eq!(
        step(Phase::Preparing, &event),
        told(Phase::Failed, false, LifecycleState::Error, "Preparação falhou: disk full")
    );
    assert_eq!(Phase::Failed.request(), Request::Exit);
}

#[test]
fn a_missing_template_ends_supervision_without_a_status() {
    assert_eq!(step(Phase::Preparing, &Event::TemplateMissing), quiet(Phase::Failed));
}

#[test]
fn a_quiet_channel_lets_the_launch_go_ahead() {
    assert_eq!(step(Phase::Prepared, &QUIET), quiet(Phase::Launching));
}

#[test]
fn shutdown_before_a_launch_stops_supervision() {
    let expected = told(Phase::Stopped, false, LifecycleState::Stopped, "Aplicação encerrada");
    assert_eq!(step(Phase::Prepared, &SHUTDOWN), expected);
    assert_eq!(step(Phase::Prepared, &DISCONNECTED), expected);
}

#[test]
fn a_started_child_is_announced_with_its_process_id() {
    assert_eq!(
        step(Phase::Launching, &Event::ChildStarted(4242)),
        told(Phase::Running, false, LifecycleState::Running, "Backend iniciado (PID 4242)")
    );
    assert_eq!(
        step(Phase::Launching, &Event::ChildStarted(0)),
        told(Phase::Running, false, LifecycleState::Running, "Backend iniciado (PID 0)")
    );
    assert_eq!(
        step(Phase::Launching, &Event::ChildStarted(u32::MAX)),
        told(Phase::Running, false, LifecycleState::Running, "Backend iniciado (PID 4294967295)")
    );
}

#[test]
fn a_failed_launch_is_reported_and_retried_after_five_seconds() {
    let event = Event::LaunchFailed("no such file".to_string());
    let step = step(Phase::Launching, &event);
    assert_eq!(
        step,
        told(
            Phase::Backoff,
            false,
            LifecycleState::Error,
            "Falha ao iniciar backend: no such file"
        )
    );
    assert_eq!(step.next.request(), Request::AwaitCommand(5));
}

#[test]
fn shutdown_stops_a_running_child() {
    assert_eq!(
        step(Phase::Running, &SHUTDOWN),
        told(Phase::Stopped, true, LifecycleState::Stopped, "Backend encerrado")
    );
}

#[test]
fn a_lost_controller_stops_a_running_child_in_silence() {
    assert_eq!(
        step(Phase::Running, &DISCONNECTED),
        Step { next: Phase::Stopped, stop_child: true, note: None }
    );
}

#[test]
fn a_quiet_interval_leads_to_a_look_at_the_child() {
    assert_eq!(step(Phase::Running, &QUIET), quiet(Phase::Checking));
    assert_eq!(Phase::Checking.request(), Request::ProbeChild);
}

#[test]
fn a_living_child_is_watched_on() {
    assert_eq!(step(Phase::Checking, &Event::ChildAlive), quiet(Phase::Running));
}

#[test]
fn an_exit_is_reported_with_its_code() {
    assert_eq!(
        step(Phase::Checking, &Event::ChildExited(Some(0))),
        told(Phase::Restarting, false, LifecycleState::Stopped, "Processo saiu com Some(0)")
    );
    assert_eq!(
        step(Phase::Checking, &Event::ChildExited(Some(-11))),
        told(Phase::Restarting, false, LifecycleState::Stopped, "Processo saiu com Some(-11)")
    );
    assert_eq!(
        step(Phase::Checking, &Event::ChildExited(None)),
        told(Phase::Restarting, false, LifecycleState::Stopped, "Processo saiu com None")
    );
}

#[test]
fn a_failed_probe_is_fatal_and_stops_the_child() {
    let event = Event::ProbeFailed("access denied".to_string());
    assert_eq!(
        step(Phase::Checking, &event),
        told(
            Phase::Failed,
            true,
            LifecycleState::Error,
            "Erro ao verificar backend: access denied"
        )
    );
}

#[test]
fn the_restart_is_announced_after_the_delay() {
    assert_eq!(Phase::Restarting.request(), Request::Delay(RESTART_DELAY_SECS));
    assert_eq!(
        step(Phase::Restarting, &Event::DelayElapsed),
        told(Phase::Prepared, false, LifecycleState::Restarting, "Reiniciando backend")
    );
}

#[test]
fn the_retry_delay_ends_in_a_new_attempt_or_in_shutdown() {
    assert_eq!(step(Phase::Backoff, &QUIET), quiet(Phase::Prepared));
    let expected = told(Phase::Stopped, false, LifecycleState::Stopped, "Encerrado");
    assert_eq!(step(Phase::Backoff, &SHUTDOWN), expected);
    assert_eq!(step(Phase::Backoff, &DISCONNECTED), expected);
}

#[test]
fn events_that_answer_nothing_are_ignored() {
    assert_eq!(step(Phase::Preparing, &SHUTDOWN), quiet(Phase::Preparing));
    assert_eq!(step(Phase::Prepared, &Event::ChildStarted(7)), quiet(Phase::Prepared));
    assert_eq!(step(Phase::Launching, &SHUTDOWN), quiet(Phase::Launching));
    assert_eq!(step(Phase::Running, &Event::ChildExited(Some(0))), quiet(Phase::Running));
    assert_eq!(step(Phase::Checking, &SHUTDOWN), quiet(Phase::Checking));
    assert_eq!(step(Phase::Restarting, &SHUTDOWN), quiet(Phase::Restarting));
    assert_eq!(step(Phase::Backoff, &Event::DelayElapsed), quiet(Phase::Backoff));
}

#[test]
fn final_phases_stay_silent_whatever_happens() {
    for phase in [Phase::Stopped, Phase::Failed] {
        for event in all_events() {
            assert_eq!(step(phase, &event), quiet(phase));
        }
        let (end, notes, requests) = drive(phase, &all_events());
        assert_eq!(end, phase);
        assert!(notes.is_empty());
        assert!(requests.iter().all(|r| *r == Request::Exit));
    }
}

#[test]
fn shutdown_is_the_last_word_wherever_it_is_heard() {
    for phase in [Phase::Prepared, Phase::Running, Phase::Backoff] {
        let mut events = vec![SHUTDOWN];
        events.extend(all_events());
        events.push(Event::ChildStarted(9));
        events.push(Event::DelayElapsed);
        let (end, notes, _) = drive(phase, &events);
        assert_eq!(end, Phase::Stopped);
        assert_eq!(states(&notes), vec![LifecycleState::Stopped]);
        assert_eq!(step(phase, &SHUTDOWN).stop_child, phase.has_child());
    }
}

#[test]
fn shutdown_after_a_crash_went_unnoticed_still_ends_with_stopped() {
    // The child is gone already, but the supervisor has not looked yet.
    let events = vec![
        Event::RuntimeReady("\"rt\"".to_string()),
        QUIET,
        Event::ChildStarted(10),
        QUIET,
        Event::ChildAlive,
        SHUTDOWN,
        Event::ChildExited(Some(1)),
        Event::DelayElapsed,
        QUIET,
        Event::ChildStarted(11),
    ];
    let (end, notes, _) = drive(Phase::Preparing, &events);
    assert_eq!(end, Phase::Stopped);
    assert_eq!(
        states(&notes),
        vec![LifecycleState::Prepared, LifecycleState::Running, LifecycleState::Stopped]
    );
    assert_eq!(notes.last().unwrap().message.as_deref(), Some("Backend encerrado"));
}

#[test]
fn a_crashed_child_is_replaced_after_one_restart_delay() {
    let events = vec![
        QUIET,
        Event::ChildExited(Some(1)),
        Event::DelayElapsed,
        QUIET,
        Event::ChildStarted(2002),
    ];
    let (end, notes, requests) = drive(Phase::Running, &events);
    assert_eq!(end, Phase::Running);
    assert_eq!(
        notes,
        vec![
            StatusNote {
                state: LifecycleState::Stopped,
                message: Some("Processo saiu com Some(1)".to_string()),
            },
            StatusNote {
                state: LifecycleState::Restarting,
                message: Some("Reiniciando backend".to_string()),
            },
            StatusNote {
                state: LifecycleState::Running,
                message: Some("Backend iniciado (PID 2002)".to_string()),
            },
        ]
    );
    assert_eq!(
        requests,
        vec![
            Request::ProbeChild,
            Request::Delay(2),
            Request::PollCommand,
            Request::Launch,
            Request::AwaitCommand(2),
        ]
    );
}

#[test]
fn launch_failures_are_five_seconds_apart_and_end_with_shutdown() {
    let missing = "Arquivo scale-server.cjs não encontrado em \"/rt/scale-server.cjs\"";
    let mut events = Vec::new();
    for _ in 0..3 {
        events.push(Event::LaunchFailed(missing.to_string()));
        events.push(Event::Channel(Signal::Quiet));
        events.push(Event::Channel(Signal::Quiet));
    }
    let (end, notes, requests) = drive(Phase::Launching, &events);
    assert_eq!(end, Phase::Launching);
    assert_eq!(notes.len(), 3);
    for note in &notes {
        assert_eq!(note.state, LifecycleState::Error);
        assert_eq!(
            note.message.as_deref(),
            Some(format!("Falha ao iniciar backend: {missing}").as_str())
        );
    }
    let cycle = [Request::AwaitCommand(5), Request::PollCommand, Request::Launch];
    assert_eq!(requests, [cycle, cycle, cycle].concat());

    let mut last = vec![Event::LaunchFailed(missing.to_string()), SHUTDOWN];
    last.extend(all_events());
    let (end, notes, _) = drive(Phase::Launching, &last);
    assert_eq!(end, Phase::Stopped);
    assert_eq!(states(&notes), vec![LifecycleState::Error, LifecycleState::Stopped]);
    assert_eq!(notes[1].message.as_deref(), Some("Encerrado"));
}

#[test]
fn a_child_is_never_launched_beside_a_living_one() {
    for phase in all_phases() {
        for event in all_events() {
            let step = step(phase, &event);
            if step.next.request() == Request::Launch {
                assert!(!step.next.has_child());
            }
            if step.stop_child {
                assert!(phase.has_child());
            }
            if phase.has_child() && !step.next.has_child() {
                assert!(step.stop_child || matches!(event, Event::ChildExited(_)));
            }
            if !phase.has_child() && step.next.has_child() {
                assert!(phase == Phase::Launching && matches!(event, Event::ChildStarted(_)));
            }
        }
    }
}

#[test]
fn a_whole_life_from_preparation_to_shutdown() {
    let events = vec![
        Event::RuntimeReady("\"/home/u/.local/share/app/backend-runtime\"".to_string()),
        QUIET,
        Event::LaunchFailed("Too many open files (os error 24)".to_string()),
        QUIET,
        QUIET,
        Event::ChildStarted(31337),
        QUIET,
        Event::ChildAlive,
        QUIET,
        Event::ChildExited(None),
        Event::DelayElapsed,
        QUIET,
        Event::ChildStarted(31338),
        SHUTDOWN,
    ];
    let (end, notes, _) = drive(Phase::initial(), &events);
    assert_eq!(end, Phase::Stopped);
    let messages: Vec<&str> = notes.iter().map(|n| n.message.as_deref().unwrap()).collect();
    assert_eq!(
        messages,
        vec![
            "Backend em \"/home/u/.local/share/app/backend-runtime\"",
            "Falha ao iniciar backend: Too many open files (os error 24)",
            "Backend iniciado (PID 31337)",
            "Processo saiu com None",
            "Reiniciando backend",
            "Backend iniciado (PID 31338)",
            "Backend encerrado",
        ]
    );
    assert_eq!(
        states(&notes),
        vec![
            LifecycleState::Prepared,
            LifecycleState::Error,
            LifecycleState::Running,
            LifecycleState::Stopped,
            LifecycleState::Restarting,
            LifecycleState::Running,
            LifecycleState::Stopped,
        ]
    );
}

#[test]
fn a_broken_template_descriptor_ends_supervision_with_one_error() {
    let source = MetaSource::Malformed("EOF while parsing a value at line 1 column 0".to_string());
    let error = read_backend_meta("\"/pkg/backend/.bundle-meta.json\"", source).unwrap_err();
    let event = Event::PrepareFailed(SyncError::Metadata(error).message());
    let mut events = vec![event];
    events.extend(all_events());
    let (end, notes, requests) = drive(Phase::initial(), &events);
    assert_eq!(end, Phase::Failed);
    assert_eq!(
        notes,
        vec![StatusNote {
            state: LifecycleState::Error,
            message: Some(
                "Preparação falhou: Metadata inválido em \"/pkg/backend/.bundle-meta.json\": \
                 EOF while parsing a value at line 1 column 0"
                    .to_string()
            ),
        }]
    );
    assert!(requests.iter().all(|r| *r == Request::Exit));
}

#[test]
fn a_runtime_without_its_entry_file_keeps_the_supervisor_retrying() {
    let error = spawn_backend_child(false, "\"/rt/scale-server.cjs\"", None, false).unwrap_err();
    let failure = step(Phase::Launching, &Event::LaunchFailed(error.message()));
    assert_eq!(
        failure,
        told(
            Phase::Backoff,
            false,
            LifecycleState::Error,
            "Falha ao iniciar backend: Arquivo scale-server.cjs não encontrado em \
             \"/rt/scale-server.cjs\""
        )
    );
    assert_eq!(failure.next.request(), Request::AwaitCommand(RETRY_DELAY_SECS));
    assert_eq!(step(Phase::Backoff, &QUIET).next, Phase::Prepared);
    assert_eq!(step(Phase::Prepared, &QUIET).next, Phase::Launching);
}
