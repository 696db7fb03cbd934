//! The controller: the handle through which the host starts supervision once
//! and asks for its end.
//!
//! The controller keeps the two facts that decide what a call does: whether
//! supervision was ever started, and whether the command channel to the
//! worker is still held. The host keeps the controller behind a lock, creates
//! the channel and the worker when [`BackendController::start`] says so, and
//! sends the shutdown command when [`BackendController::shutdown`] says so.

use vstd::prelude::*;

verus! {

/// The state of the controller.
#[derive(Debug)]
pub struct BackendController {
    started: bool,
    armed: bool,
}

/// The mathematical value of a [`BackendController`].
pub struct ControllerView {
    /// Supervision was started at some time.
    pub started: bool,
    /// The sending end of the command channel is held.
    pub armed: bool,
}

/// A call on the controller.
pub enum ControllerCall {
    Start,
    Shutdown,
}

/// The controller before any call.
pub open spec fn fresh() -> ControllerView {
    ControllerView { started: false, armed: false }
}

/// The controller after `start`.
pub open spec fn after_start(c: ControllerView) -> ControllerView {
    ControllerView { started: true, armed: c.armed || !c.started }
}

/// The controller after `shutdown`.
pub open spec fn after_shutdown(c: ControllerView) -> ControllerView {
    ControllerView { started: c.started, armed: false }
}

/// The controller after `call`.
pub open spec fn after_call(c: ControllerView, call: ControllerCall) -> ControllerView {
    match call {
        ControllerCall::Start => after_start(c),
        ControllerCall::Shutdown => after_shutdown(c),
    }
}

/// The controller after `calls`, one after the other.
pub open spec fn after_calls(c: ControllerView, calls: Seq<ControllerCall>) -> ControllerView
    decreases calls.len(),
{
    if calls.len() == 0 {
        c
    } else {
        after_calls(after_call(c, calls.first()), calls.drop_first())
    }
}

/// How many of `calls` make the host create a worker.
pub open spec fn workers_spawned(c: ControllerView, calls: Seq<ControllerCall>) -> nat
    decreases calls.len(),
{
    if calls.len() == 0 {
        0
    } else {
        let here: nat = if calls.first() is Start && !c.started {
            1
        } else {
            0
        };
        here + workers_spawned(after_call(c, calls.first()), calls.drop_first())
    }
}

/// How many of `calls` make the host send the shutdown command.
pub open spec fn shutdowns_sent(c: ControllerView, calls: Seq<ControllerCall>) -> nat
    decreases calls.len(),
{
    if calls.len() == 0 {
        0
    } else {
        let here: nat = if calls.first() is Shutdown && c.armed {
            1
        } else {
            0
        };
        here + shutdowns_sent(after_call(c, calls.first()), calls.drop_first())
    }
}

impl View for BackendController {
    type V = ControllerView;

    closed spec fn view(&self) -> ControllerView {
        ControllerView { started: self.started, armed: self.armed }
    }
}

impl BackendController {
    /// The command channel is held only once supervision was started.
    #[verifier::type_invariant]
    spec fn channel_follows_start(&self) -> bool {
        self.armed ==> self.started
    }

    /// A controller on which nothing was called yet.
    pub fn new() -> (c: BackendController)
        ensures
            c@ == fresh(),
    {
        BackendController { started: false, armed: false }
    }

    /// Asks for supervision to begin. The first call answers `true`: the host
    /// has to open the command channel and create the worker. Every later
    /// call changes nothing and answers `false`.
    pub fn start(&mut self) -> (spawn: bool)
        ensures
            spawn == !old(self)@.started,
            final(self)@ == after_start(old(self)@),
    {
        if self.started {
            proof {
                use_type_invariant(&*self);
            }
            false
        } else {
            self.started = true;
            self.armed = true;
            true
        }
    }

    /// Asks for supervision to end. Where the command channel is held the
    /// call gives it up and answers `true`: the host has to send the shutdown
    /// command. Before `start` and after an earlier `shutdown` the call
    /// changes nothing and answers `false`.
    pub fn shutdown(&mut self) -> (send: bool)
        ensures
            send == old(self)@.armed,
            final(self)@ == after_shutdown(old(self)@),
    {
        let send = self.armed;
        self.armed = false;
        send
    }

    /// Whether supervision was started at some time.
    pub fn is_started(&self) -> (r: bool)
        ensures
            r == self@.started,
    {
        self.started
    }
}

impl Default for BackendController {
    fn default() -> (c: BackendController)
        ensures
            c@ == fresh(),
    {
        BackendController::new()
    }
}

/// Once supervision was started, no call creates another worker.
pub proof fn law_started_stays_started(c: ControllerView, calls: Seq<ControllerCall>)
    requires
        c.started,
    ensures
        after_calls(c, calls).started,
        workers_spawned(c, calls) == 0,
    decreases calls.len(),
{
    if calls.len() > 0 {
        law_started_stays_started(after_call(c, calls.first()), calls.drop_first());
    }
}

/// Once supervision was started and the command channel given up, no call
/// sends a command.
pub proof fn law_disarmed_stays_disarmed(c: ControllerView, calls: Seq<ControllerCall>)
    requires
        c.started,
        !c.armed,
    ensures
        !after_calls(c, calls).armed,
        shutdowns_sent(c, calls) == 0,
    decreases calls.len(),
{
    if calls.len() > 0 {
        law_disarmed_stays_disarmed(after_call(c, calls.first()), calls.drop_first());
    }
}

/// Starting is idempotent: however `start` and `shutdown` are called on a
/// fresh controller, exactly one worker is created if `start` is among the
/// calls, by the first of them, and none otherwise.
pub proof fn law_start_once(calls: Seq<ControllerCall>)
    ensures
        workers_spawned(fresh(), calls) == (if exists|i: int|
            0 <= i < calls.len() && calls[i] is Start {
            1nat
        } else {
            0nat
        }),
    decreases calls.len(),
{
    if calls.len() == 0 {
    } else {
        let rest = calls.drop_first();
        if calls.first() is Start {
            law_started_stays_started(after_start(fresh()), rest);
            assert(calls[0] is Start);
        } else {
            assert(after_call(fresh(), calls.first()) == fresh());
            law_start_once(rest);
            if exists|i: int| 0 <= i < rest.len() && rest[i] is Start {
                let i = choose|i: int| 0 <= i < rest.len() && rest[i] is Start;
                assert(calls[i + 1] is Start);
            } else {
                assert forall|i: int| 0 <= i < calls.len() implies !(calls[i] is Start) by {
                    if i > 0 {
                        assert(rest[i - 1] == calls[i]);
                    }
                }
            }
        }
    }
}

/// The shutdown command is sent at most once in the life of a controller, and
/// never before supervision was started.
pub proof fn law_shutdown_sent_at_most_once(calls: Seq<ControllerCall>)
    ensures
        shutdowns_sent(fresh(), calls) <= 1,
        shutdowns_sent(fresh(), calls) == 1 ==> workers_spawned(fresh(), calls) == 1,
{
    lemma_sent_at_most_once(fresh(), calls);
}

proof fn lemma_sent_at_most_once(c: ControllerView, calls: Seq<ControllerCall>)
    requires
        c.armed ==> c.started,
    ensures
        shutdowns_sent(c, calls) <= 1,
        !c.started && shutdowns_sent(c, calls) == 1 ==> workers_spawned(c, calls) == 1,
    decreases calls.len(),
{
    if calls.len() > 0 {
        let rest = calls.drop_first();
        let next = after_call(c, calls.first());
        lemma_sent_at_most_once(next, rest);
        if calls.first() is Shutdown && c.armed {
            law_disarmed_stays_disarmed(next, rest);
        }
        if calls.first() is Start && !c.started {
            law_started_stays_started(next, rest);
        }
    }
}

} // verus!
