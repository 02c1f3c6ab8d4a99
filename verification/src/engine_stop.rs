//! Stopping the engine process: ask it to end, give it time, then force it.

use crate::text::joined;
use vstd::prelude::*;

verus! {

/// How many seconds the engine has to end once it has been asked to.
pub const STOP_GRACE_SECS: u64 = 2;

/// What has happened to an engine process that is being stopped.
pub enum StopEvent {
    /// The stop begins: whether the system has termination signals, and
    /// whether the process still has an identifier.
    Begin { signals: bool, has_pid: bool },
    /// The termination signal was tried; whether it could be sent.
    SignalSent(bool),
    /// The process was killed, or why it could not be.
    Killed(Result<(), String>),
    /// The process ended in time.
    Exited,
    /// Why the process could not be waited for.
    WaitFailed(String),
    /// The time to end is over.
    GraceOver,
    /// The process was killed by force, or why it could not be.
    ForceKilled(Result<(), String>),
    /// The end of a process that was killed by force was awaited, or why it
    /// could not be.
    Reaped(Result<(), String>),
}

/// What is to be done next to stop the engine process.
pub enum StopAction {
    /// Send the termination signal.
    SendSignal,
    /// Kill the process.
    Kill,
    /// Wait for the end of the process, for [`STOP_GRACE_SECS`] at most.
    Wait,
    /// Kill the process by force.
    ForceKill,
    /// Wait for the end of the process.
    Reap,
    /// Nothing more: the process has ended, or why it has not.
    Done(Result<(), String>),
}

/// Whether `action` is to give up with the message `prefix` and `error`.
pub open spec fn gives_up(action: StopAction, prefix: Seq<char>, error: Seq<char>) -> bool {
    action matches StopAction::Done(Err(message)) && message@ == prefix + error
}

/// A [`StopAction`], with its message as a text.
pub enum StopStep {
    SendSignal,
    Kill,
    Wait,
    ForceKill,
    Reap,
    Done(Result<(), Seq<char>>),
}

impl View for StopAction {
    type V = StopStep;

    open spec fn view(&self) -> StopStep {
        match self {
            StopAction::SendSignal => StopStep::SendSignal,
            StopAction::Kill => StopStep::Kill,
            StopAction::Wait => StopStep::Wait,
            StopAction::ForceKill => StopStep::ForceKill,
            StopAction::Reap => StopStep::Reap,
            StopAction::Done(Ok(_)) => StopStep::Done(Ok(())),
            StopAction::Done(Err(message)) => StopStep::Done(Err(message@)),
        }
    }
}

/// What follows an event.
pub open spec fn stop_next(event: StopEvent) -> StopStep {
    match event {
        StopEvent::Begin { signals, has_pid } => if !signals {
            StopStep::Kill
        } else if has_pid {
            StopStep::SendSignal
        } else {
            StopStep::Wait
        },
        StopEvent::SignalSent(sent) => if sent {
            StopStep::Wait
        } else {
            StopStep::Kill
        },
        StopEvent::Killed(Ok(_)) => StopStep::Wait,
        StopEvent::Killed(Err(error)) => StopStep::Done(
            Err("failed to kill restream engine: "@ + error@),
        ),
        StopEvent::Exited => StopStep::Done(Ok(())),
        StopEvent::WaitFailed(error) => StopStep::Done(
            Err("failed to wait for restream engine: "@ + error@),
        ),
        StopEvent::GraceOver => StopStep::ForceKill,
        StopEvent::ForceKilled(Ok(_)) => StopStep::Reap,
        StopEvent::ForceKilled(Err(error)) => StopStep::Done(
            Err("failed to force-kill restream engine: "@ + error@),
        ),
        StopEvent::Reaped(Ok(_)) => StopStep::Done(Ok(())),
        StopEvent::Reaped(Err(error)) => StopStep::Done(
            Err("failed to reap restream engine: "@ + error@),
        ),
    }
}

/// What is to be done after `event`.
pub fn stop_child(event: StopEvent) -> (action: StopAction)
    ensures
        match event {
            StopEvent::Begin { signals, has_pid } => action == if !signals {
                StopAction::Kill
            } else if has_pid {
                StopAction::SendSignal
            } else {
                StopAction::Wait
            },
            StopEvent::SignalSent(sent) => action == if sent {
                StopAction::Wait
            } else {
                StopAction::Kill
            },
            StopEvent::Killed(Ok(_)) => action == StopAction::Wait,
            StopEvent::Killed(Err(error)) => gives_up(
                action,
                "failed to kill restream engine: "@,
                error@,
            ),
            StopEvent::Exited => action == StopAction::Done(Ok(())),
            StopEvent::WaitFailed(error) => gives_up(
                action,
                "failed to wait for restream engine: "@,
                error@,
            ),
            StopEvent::GraceOver => action == StopAction::ForceKill,
            StopEvent::ForceKilled(Ok(_)) => action == StopAction::Reap,
            StopEvent::ForceKilled(Err(error)) => gives_up(
                action,
                "failed to force-kill restream engine: "@,
                error@,
            ),
            StopEvent::Reaped(Ok(_)) => action == StopAction::Done(Ok(())),
            StopEvent::Reaped(Err(error)) => gives_up(
                action,
                "failed to reap restream engine: "@,
                error@,
            ),
        },
        remaining(action) < budget(event),
        action@ == stop_next(event),
{
    match event {
        StopEvent::Begin { signals, has_pid } => {
            if !signals {
                StopAction::Kill
            } else if has_pid {
                StopAction::SendSignal
            } else {
                StopAction::Wait
            }
        },
        StopEvent::SignalSent(sent) => {
            if sent {
                StopAction::Wait
            } else {
                StopAction::Kill
            }
        },
        StopEvent::Killed(result) => match result {
            Ok(()) => StopAction::Wait,
            Err(error) => StopAction::Done(
                Err(joined("failed to kill restream engine: ", &error)),
            ),
        },
        StopEvent::Exited => StopAction::Done(Ok(())),
        StopEvent::WaitFailed(error) => StopAction::Done(
            Err(joined("failed to wait for restream engine: ", &error)),
        ),
        StopEvent::GraceOver => StopAction::ForceKill,
        StopEvent::ForceKilled(result) => match result {
            Ok(()) => StopAction::Reap,
            Err(error) => StopAction::Done(
                Err(joined("failed to force-kill restream engine: ", &error)),
            ),
        },
        StopEvent::Reaped(result) => match result {
            Ok(()) => StopAction::Done(Ok(())),
            Err(error) => StopAction::Done(
                Err(joined("failed to reap restream engine: ", &error)),
            ),
        },
    }
}

/// How many more things may have to be done from `action` on.
pub open spec fn remaining(action: StopAction) -> nat {
    match action {
        StopAction::SendSignal => 5,
        StopAction::Kill => 4,
        StopAction::Wait => 3,
        StopAction::ForceKill => 2,
        StopAction::Reap => 1,
        StopAction::Done(_) => 0,
    }
}

/// How many things may have been left to do when `event` came.
pub open spec fn budget(event: StopEvent) -> nat {
    match event {
        StopEvent::Begin { .. } => 6,
        StopEvent::SignalSent(_) => 5,
        StopEvent::Killed(_) => 4,
        StopEvent::Exited => 3,
        StopEvent::WaitFailed(_) => 3,
        StopEvent::GraceOver => 3,
        StopEvent::ForceKilled(_) => 2,
        StopEvent::Reaped(_) => 1,
    }
}

/// Whether `event` reports on `action`.
pub open spec fn reports_on(event: StopEvent, action: StopAction) -> bool {
    match action {
        StopAction::SendSignal => event is SignalSent,
        StopAction::Kill => event is Killed,
        StopAction::Wait => event is Exited || event is WaitFailed || event is GraceOver,
        StopAction::ForceKill => event is ForceKilled,
        StopAction::Reap => event is Reaped,
        StopAction::Done(_) => false,
    }
}

/// Stopping comes to an end: every event that reports on an action leaves less
/// to do than that action did, so five actions at most are taken.
pub proof fn law_stopping_ends(action: StopAction, event: StopEvent)
    requires
        reports_on(event, action),
    ensures
        budget(event) == remaining(action),
        remaining(action) <= 5,
{
}

/// A stop succeeds only once the process has ended, in time or by force, and
/// then it does.
pub proof fn law_stop_succeeds_when_the_process_has_ended(event: StopEvent)
    ensures
        (stop_next(event) matches StopStep::Done(Ok(_))) <==> event is Exited || (
        event matches StopEvent::Reaped(Ok(_))),
{
}

/// The engine is asked before it is made to end: with signals and a process to
/// send them to, first the signal, then the time to end; it is killed at once
/// only where there are no signals or the signal could not be sent, and by
/// force only once its time is over.
pub proof fn law_engine_is_asked_first(event: StopEvent)
    ensures
        stop_next(event) is SendSignal <==> event == (StopEvent::Begin {
            signals: true,
            has_pid: true,
        }),
        stop_next(event) is Kill ==> event == StopEvent::SignalSent(false) || (event
            matches StopEvent::Begin { signals, has_pid } && !signals),
        stop_next(event) is ForceKill <==> event is GraceOver,
        stop_next(event) is Reap <==> (event matches StopEvent::ForceKilled(Ok(_))),
        event == StopEvent::SignalSent(true) ==> stop_next(event) is Wait,
        (event matches StopEvent::Killed(Ok(_))) ==> stop_next(event) is Wait,
{
}

/// What went wrong is told, with what was being tried.
pub proof fn law_stop_failure_is_told(event: StopEvent)
    ensures
        event matches StopEvent::Killed(Err(e)) ==> stop_next(event) == StopStep::Done(
            Err("failed to kill restream engine: "@ + e@),
        ),
        event matches StopEvent::WaitFailed(e) ==> stop_next(event) == StopStep::Done(
            Err("failed to wait for restream engine: "@ + e@),
        ),
        event matches StopEvent::ForceKilled(Err(e)) ==> stop_next(event) == StopStep::Done(
            Err("failed to force-kill restream engine: "@ + e@),
        ),
        event matches StopEvent::Reaped(Err(e)) ==> stop_next(event) == StopStep::Done(
            Err("failed to reap restream engine: "@ + e@),
        ),
{
}

} // verus!
