//! The supervision state machine.
//!
//! The host owns the child process, the command channel and the clock. It
//! asks the machine what to do next ([`Phase::request`]), does it, and hands
//! the result back as an [`Event`]; [`step`] answers with the next phase,
//! whether the child has to be stopped, and the status to publish. The host
//! stops the child (kill, then wait) before it publishes the status.

use vstd::prelude::*;
use vstd::string::*;
use crate::status::{LifecycleState, StatusNote, StatusNoteView};
use crate::text::{decimal, exit_code_text, render_exit_code, render_unsigned};

verus! {

/// Seconds between two looks at a running child.
pub const POLL_INTERVAL_SECS: u64 = 2;

/// Seconds between the exit of a child and the launch of its successor.
pub const RESTART_DELAY_SECS: u64 = 2;

/// Seconds between a failed launch and the next attempt.
pub const RETRY_DELAY_SECS: u64 = 5;

/// What the controller can tell the supervisor.
#[derive(Clone, Copy, Debug, PartialEq, Eq, Structural)]
pub enum BackendCommand {
    Shutdown,
}

/// What a look at the command channel found.
#[derive(Clone, Copy, Debug, PartialEq, Eq, Structural)]
pub enum Signal {
    /// A command arrived.
    Command(BackendCommand),
    /// Nothing arrived: the channel was empty, or the wait timed out.
    Quiet,
    /// The controller is gone for good.
    Disconnected,
}

/// Where the supervisor stands. Each phase but the two final ones waits for
/// the answer to one request.
#[derive(Clone, Copy, Debug, PartialEq, Eq, Structural)]
pub enum Phase {
    /// The runtime directory is being brought up to date.
    Preparing,
    /// The runtime is in place and no child is alive; the command channel is
    /// looked at before the next launch.
    Prepared,
    /// A launch is under way.
    Launching,
    /// A child is alive; the supervisor waits on the command channel.
    Running,
    /// A child was alive at the last look and is being looked at again.
    Checking,
    /// The child has exited; its successor is due after the restart delay.
    Restarting,
    /// The launch failed; the next attempt is due after the retry delay.
    Backoff,
    /// Supervision has ended in good order.
    Stopped,
    /// Supervision has ended on an error that it cannot recover from.
    Failed,
}

/// The outside work that a phase waits for.
#[derive(Clone, Copy, Debug, PartialEq, Eq, Structural)]
pub enum Request {
    /// Bring the runtime directory up to date.
    Prepare,
    /// Look at the command channel without waiting.
    PollCommand,
    /// Launch the child.
    Launch,
    /// Wait on the command channel for at most so many seconds.
    AwaitCommand(u64),
    /// Ask the system whether the child has exited.
    ProbeChild,
    /// Let so many seconds pass.
    Delay(u64),
    /// Nothing is left to do: leave the loop.
    Exit,
}

/// The result of a piece of outside work.
#[derive(Debug)]
pub enum Event {
    /// The packaged template could not be found.
    TemplateMissing,
    /// Preparation failed; the text says why.
    PrepareFailed(String),
    /// The runtime is up to date; the text names its directory.
    RuntimeReady(String),
    /// The command channel was looked at or waited on.
    Channel(Signal),
    /// The launch failed; the text says why.
    LaunchFailed(String),
    /// The child is running under this process id.
    ChildStarted(u32),
    /// The child has not exited.
    ChildAlive,
    /// The child has exited, with this exit code if it had one.
    ChildExited(Option<i32>),
    /// The system could not tell whether the child has exited.
    ProbeFailed(String),
    /// The delay has passed.
    DelayElapsed,
}

/// The mathematical value of an [`Event`].
pub enum EventView {
    TemplateMissing,
    PrepareFailed(Seq<char>),
    RuntimeReady(Seq<char>),
    Channel(Signal),
    LaunchFailed(Seq<char>),
    ChildStarted(u32),
    ChildAlive,
    ChildExited(Option<i32>),
    ProbeFailed(Seq<char>),
    DelayElapsed,
}

impl View for Event {
    type V = EventView;

    open spec fn view(&self) -> EventView {
        match self {
            Event::TemplateMissing => EventView::TemplateMissing,
            Event::PrepareFailed(d) => EventView::PrepareFailed(d@),
            Event::RuntimeReady(d) => EventView::RuntimeReady(d@),
            Event::Channel(s) => EventView::Channel(*s),
            Event::LaunchFailed(d) => EventView::LaunchFailed(d@),
            Event::ChildStarted(pid) => EventView::ChildStarted(*pid),
            Event::ChildAlive => EventView::ChildAlive,
            Event::ChildExited(code) => EventView::ChildExited(*code),
            Event::ProbeFailed(d) => EventView::ProbeFailed(d@),
            Event::DelayElapsed => EventView::DelayElapsed,
        }
    }
}

/// What the supervisor decides on an event.
#[derive(Debug, PartialEq, Eq)]
pub struct Step {
    /// The phase from here on.
    pub next: Phase,
    /// Whether the host has to kill the child and wait for its end.
    pub stop_child: bool,
    /// The status to publish, if any.
    pub note: Option<StatusNote>,
}

/// The mathematical value of a [`Step`].
pub struct StepView {
    pub next: Phase,
    pub stop_child: bool,
    pub note: Option<StatusNoteView>,
}

impl View for Step {
    type V = StepView;

    open spec fn view(&self) -> StepView {
        StepView {
            next: self.next,
            stop_child: self.stop_child,
            note: match self.note {
                Some(n) => Some(n@),
                None => None,
            },
        }
    }
}

// ----------------------------------------------------------------------
// The model
// ----------------------------------------------------------------------

/// The outside work that `phase` waits for.
pub open spec fn pending(phase: Phase) -> Request {
    match phase {
        Phase::Preparing => Request::Prepare,
        Phase::Prepared => Request::PollCommand,
        Phase::Launching => Request::Launch,
        Phase::Running => Request::AwaitCommand(POLL_INTERVAL_SECS),
        Phase::Checking => Request::ProbeChild,
        Phase::Restarting => Request::Delay(RESTART_DELAY_SECS),
        Phase::Backoff => Request::AwaitCommand(RETRY_DELAY_SECS),
        Phase::Stopped => Request::Exit,
        Phase::Failed => Request::Exit,
    }
}

/// Supervision has ended.
pub open spec fn is_final(phase: Phase) -> bool {
    phase == Phase::Stopped || phase == Phase::Failed
}

/// A child process is alive, as far as the supervisor knows.
pub open spec fn has_child(phase: Phase) -> bool {
    phase == Phase::Running || phase == Phase::Checking
}

/// The phase looks at the command channel, so a command can reach it.
pub open spec fn hears_commands(phase: Phase) -> bool {
    phase == Phase::Prepared || phase == Phase::Running || phase == Phase::Backoff
}

/// `event` is an answer to the request that `phase` waits for.
pub open spec fn answers(phase: Phase, event: EventView) -> bool {
    match phase {
        Phase::Preparing => event is TemplateMissing || event is PrepareFailed
            || event is RuntimeReady,
        Phase::Prepared => event is Channel,
        Phase::Launching => event is LaunchFailed || event is ChildStarted,
        Phase::Running => event is Channel,
        Phase::Checking => event is ChildAlive || event is ChildExited || event is ProbeFailed,
        Phase::Restarting => event is DelayElapsed,
        Phase::Backoff => event is Channel,
        Phase::Stopped => false,
        Phase::Failed => false,
    }
}

/// A status with a message.
pub open spec fn note(state: LifecycleState, message: Seq<char>) -> StatusNoteView {
    StatusNoteView { state, message: Some(message) }
}

pub open spec fn prepare_failed_message(detail: Seq<char>) -> Seq<char> {
    "Preparação falhou: "@ + detail
}

pub open spec fn prepared_message(directory: Seq<char>) -> Seq<char> {
    "Backend em "@ + directory
}

pub open spec fn launch_failed_message(detail: Seq<char>) -> Seq<char> {
    "Falha ao iniciar backend: "@ + detail
}

pub open spec fn running_message(pid: u32) -> Seq<char> {
    "Backend iniciado (PID "@ + decimal(pid as nat) + ")"@
}

pub open spec fn exited_message(code: Option<i32>) -> Seq<char> {
    "Processo saiu com "@ + exit_code_text(code)
}

pub open spec fn probe_failed_message(detail: Seq<char>) -> Seq<char> {
    "Erro ao verificar backend: "@ + detail
}

/// The step that stays in `phase` and asks for nothing but the pending
/// request again.
pub open spec fn stay(phase: Phase) -> StepView {
    StepView { next: phase, stop_child: false, note: None }
}

/// A step without a status.
pub open spec fn go(next: Phase) -> StepView {
    StepView { next, stop_child: false, note: None }
}

/// A step with a status.
pub open spec fn tell(next: Phase, stop_child: bool, n: StatusNoteView) -> StepView {
    StepView { next, stop_child, note: Some(n) }
}

/// The transition function of the supervisor. An event that does not answer
/// the pending request changes nothing.
pub open spec fn transition(phase: Phase, event: EventView) -> StepView {
    match phase {
        Phase::Preparing => match event {
            EventView::TemplateMissing => go(Phase::Failed),
            EventView::PrepareFailed(d) => tell(
                Phase::Failed,
                false,
                note(LifecycleState::Error, prepare_failed_message(d)),
            ),
            EventView::RuntimeReady(dir) => tell(
                Phase::Prepared,
                false,
                note(LifecycleState::Prepared, prepared_message(dir)),
            ),
            _ => stay(phase),
        },
        Phase::Prepared => match event {
            EventView::Channel(Signal::Quiet) => go(Phase::Launching),
            EventView::Channel(_) => tell(
                Phase::Stopped,
                false,
                note(LifecycleState::Stopped, "Aplicação encerrada"@),
            ),
            _ => stay(phase),
        },
        Phase::Launching => match event {
            EventView::ChildStarted(pid) => tell(
                Phase::Running,
                false,
                note(LifecycleState::Running, running_message(pid)),
            ),
            EventView::LaunchFailed(d) => tell(
                Phase::Backoff,
                false,
                note(LifecycleState::Error, launch_failed_message(d)),
            ),
            _ => stay(phase),
        },
        Phase::Running => match event {
            EventView::Channel(Signal::Command(BackendCommand::Shutdown)) => tell(
                Phase::Stopped,
                true,
                note(LifecycleState::Stopped, "Backend encerrado"@),
            ),
            EventView::Channel(Signal::Quiet) => go(Phase::Checking),
            EventView::Channel(Signal::Disconnected) => StepView {
                next: Phase::Stopped,
                stop_child: true,
                note: None,
            },
            _ => stay(phase),
        },
        Phase::Checking => match event {
            EventView::ChildAlive => go(Phase::Running),
            EventView::ChildExited(code) => tell(
                Phase::Restarting,
                false,
                note(LifecycleState::Stopped, exited_message(code)),
            ),
            EventView::ProbeFailed(d) => tell(
                Phase::Failed,
                true,
                note(LifecycleState::Error, probe_failed_message(d)),
            ),
            _ => stay(phase),
        },
        Phase::Restarting => match event {
            EventView::DelayElapsed => tell(
                Phase::Prepared,
                false,
                note(LifecycleState::Restarting, "Reiniciando backend"@),
            ),
            _ => stay(phase),
        },
        Phase::Backoff => match event {
            EventView::Channel(Signal::Quiet) => go(Phase::Prepared),
            EventView::Channel(_) => tell(
                Phase::Stopped,
                false,
                note(LifecycleState::Stopped, "Encerrado"@),
            ),
            _ => stay(phase),
        },
        Phase::Stopped => stay(phase),
        Phase::Failed => stay(phase),
    }
}

// ----------------------------------------------------------------------
// The machine
// ----------------------------------------------------------------------

impl Phase {
    /// The phase in which supervision begins.
    pub fn initial() -> (phase: Phase)
        ensures
            phase == Phase::Preparing,
    {
        Phase::Preparing
    }

    /// The outside work that this phase waits for.
    pub fn request(&self) -> (r: Request)
        ensures
            r == pending(*self),
    {
        match self {
            Phase::Preparing => Request::Prepare,
            Phase::Prepared => Request::PollCommand,
            Phase::Launching => Request::Launch,
            Phase::Running => Request::AwaitCommand(POLL_INTERVAL_SECS),
            Phase::Checking => Request::ProbeChild,
            Phase::Restarting => Request::Delay(RESTART_DELAY_SECS),
            Phase::Backoff => Request::AwaitCommand(RETRY_DELAY_SECS),
            Phase::Stopped => Request::Exit,
            Phase::Failed => Request::Exit,
        }
    }

    /// Whether supervision has ended.
    pub fn is_final(&self) -> (r: bool)
        ensures
            r == is_final(*self),
    {
        match self {
            Phase::Stopped => true,
            Phase::Failed => true,
            _ => false,
        }
    }

    /// Whether a child process is alive, as far as the supervisor knows.
    pub fn has_child(&self) -> (r: bool)
        ensures
            r == has_child(*self),
    {
        match self {
            Phase::Running => true,
            Phase::Checking => true,
            _ => false,
        }
    }
}

fn with_detail(prefix: &str, detail: &str) -> (s: String)
    ensures
        s@ == prefix@ + detail@,
{
    let mut s = String::from_str(prefix);
    s.append(detail);
    s
}

fn announce(next: Phase, stop_child: bool, state: LifecycleState, message: String) -> (r: Step)
    ensures
        r@ == tell(next, stop_child, note(state, message@)),
{
    Step { next, stop_child, note: Some(StatusNote { state, message: Some(message) }) }
}

fn silent(next: Phase) -> (r: Step)
    ensures
        r@ == go(next),
{
    Step { next, stop_child: false, note: None }
}

fn running_text(pid: u32) -> (s: String)
    ensures
        s@ == running_message(pid),
{
    let mut s = String::from_str("Backend iniciado (PID ");
    let digits = render_unsigned(pid as u64);
    s.append(digits.as_str());
    s.append(")");
    s
}

fn exited_text(code: Option<i32>) -> (s: String)
    ensures
        s@ == exited_message(code),
{
    let rendered = render_exit_code(code);
    with_detail("Processo saiu com ", rendered.as_str())
}

/// What the supervisor does on `event` while in `phase`: the next phase,
/// whether the child is to be stopped, and the status to publish.
pub fn step(phase: Phase, event: &Event) -> (r: Step)
    ensures
        r@ == transition(phase, event@),
{
    match phase {
        Phase::Preparing => match event {
            Event::TemplateMissing => silent(Phase::Failed),
            Event::PrepareFailed(d) => announce(
                Phase::Failed,
                false,
                LifecycleState::Error,
                with_detail("Preparação falhou: ", d.as_str()),
            ),
            Event::RuntimeReady(dir) => announce(
                Phase::Prepared,
                false,
                LifecycleState::Prepared,
                with_detail("Backend em ", dir.as_str()),
            ),
            _ => silent(phase),
        },
        Phase::Prepared => match event {
            Event::Channel(Signal::Quiet) => silent(Phase::Launching),
            Event::Channel(_) => announce(
                Phase::Stopped,
                false,
                LifecycleState::Stopped,
                String::from_str("Aplicação encerrada"),
            ),
            _ => silent(phase),
        },
        Phase::Launching => match event {
            Event::ChildStarted(pid) => announce(
                Phase::Running,
                false,
                LifecycleState::Running,
                running_text(*pid),
            ),
            Event::LaunchFailed(d) => announce(
                Phase::Backoff,
                false,
                LifecycleState::Error,
                with_detail("Falha ao iniciar backend: ", d.as_str()),
            ),
            _ => silent(phase),
        },
        Phase::Running => match event {
            Event::Channel(Signal::Command(BackendCommand::Shutdown)) => announce(
                Phase::Stopped,
                true,
                LifecycleState::Stopped,
                String::from_str("Backend encerrado"),
            ),
            Event::Channel(Signal::Quiet) => silent(Phase::Checking),
            Event::Channel(Signal::Disconnected) => Step {
                next: Phase::Stopped,
                stop_child: true,
                note: None,
            },
            _ => silent(phase),
        },
        Phase::Checking => match event {
            Event::ChildAlive => silent(Phase::Running),
            Event::ChildExited(code) => announce(
                Phase::Restarting,
                false,
                LifecycleState::Stopped,
                exited_text(*code),
            ),
            Event::ProbeFailed(d) => announce(
                Phase::Failed,
                true,
                LifecycleState::Error,
                with_detail("Erro ao verificar backend: ", d.as_str()),
            ),
            _ => silent(phase),
        },
        Phase::Restarting => match event {
            Event::DelayElapsed => announce(
                Phase::Prepared,
                false,
                LifecycleState::Restarting,
                String::from_str("Reiniciando backend"),
            ),
            _ => silent(phase),
        },
        Phase::Backoff => match event {
            Event::Channel(Signal::Quiet) => silent(Phase::Prepared),
            Event::Channel(_) => announce(
                Phase::Stopped,
                false,
                LifecycleState::Stopped,
                String::from_str("Encerrado"),
            ),
            _ => silent(phase),
        },
        Phase::Stopped => silent(phase),
        Phase::Failed => silent(phase),
    }
}

} // verus!
