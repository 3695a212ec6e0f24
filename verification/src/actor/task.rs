//! The task of an actor: what it does between the cycles of its antagonist so
//! that the harness can pause, resume and halt it.
//!
//! The task's driver holds the channels. It does what a [`Directive`] says and
//! reports what came of it as a [`Signal`]; the task answers with the next
//! directive. A cycle is never cut short: the task looks for requests only
//! between cycles.

use vstd::prelude::*;

verus! {

/// The message with which the harness asks an actor to pause.
pub const PAUSE: bool = true;

/// The message with which the harness ends an actor's pause.
pub const RESUME: bool = false;

/// The states of an actor, as its harness knows them.
#[derive(Clone, Copy, Debug, PartialEq, Eq, Structural)]
pub enum ActorState {
    /// The actor runs cycles.
    Running,
    /// A request to pause has arrived and is being acknowledged.
    PauseRequested,
    /// The pause is acknowledged; the actor waits to be resumed.
    Paused,
    /// The task has left its loop, for good.
    Halting,
}

/// What the task's driver does next.
#[derive(Clone, Copy, Debug, PartialEq, Eq, Structural)]
pub enum Directive {
    /// Look, without waiting, whether the harness has asked for a halt.
    CheckHalt,
    /// Look, without waiting, whether the harness has sent a pause request.
    CheckPause,
    /// Tell the harness that the actor is paused.
    Acknowledge,
    /// Wait for the message that ends the pause.
    AwaitResume,
    /// Run one cycle of the antagonist.
    RunCycle,
    /// Send the error of the cycle that just failed to the harness.
    ForwardError,
    /// Leave the task.
    Stop,
}

/// What the task's driver reports.
#[derive(Clone, Copy, Debug, PartialEq, Eq)]
pub enum Signal {
    /// Whether a halt was requested.
    HaltChecked { requested: bool },
    /// The message that waited on the pause channel, if one did.
    PauseChecked { message: Option<bool> },
    /// Whether the acknowledgment reached the harness.
    Acknowledged { delivered: bool },
    /// The message that ended the wait on the pause channel, or `None` where
    /// the channel closed instead.
    ResumeAwaited { message: Option<bool> },
    /// Whether the cycle failed.
    CycleRun { failed: bool },
    /// Whether the error reached the harness.
    ErrorForwarded { delivered: bool },
}

/// The state of the actor whose task is about to do what `pending` says.
pub open spec fn state_of(pending: Directive) -> ActorState {
    match pending {
        Directive::Acknowledge => ActorState::PauseRequested,
        Directive::AwaitResume => ActorState::Paused,
        Directive::Stop => ActorState::Halting,
        _ => ActorState::Running,
    }
}

/// Whether `signal` reports on what `pending` asked for, and keeps to the
/// protocol of the pause channel: `true` asks for a pause and comes only while
/// the actor runs, `false` ends a pause and comes only while the actor is
/// paused.
pub open spec fn answers(pending: Directive, signal: Signal) -> bool {
    match (pending, signal) {
        (Directive::CheckHalt, Signal::HaltChecked { .. }) => true,
        (Directive::CheckPause, Signal::PauseChecked { message }) => message != Some(RESUME),
        (Directive::Acknowledge, Signal::Acknowledged { .. }) => true,
        (Directive::AwaitResume, Signal::ResumeAwaited { message }) => message != Some(PAUSE),
        (Directive::RunCycle, Signal::CycleRun { .. }) => true,
        (Directive::ForwardError, Signal::ErrorForwarded { .. }) => true,
        _ => false,
    }
}

/// What the task does after `signal` has answered `pending`.
///
/// A halt that was requested stops the task. A pause request is acknowledged;
/// where the acknowledgment cannot be delivered the task stops, else it waits
/// to be resumed and stops where the pause channel closes instead. A cycle
/// follows where no pause was requested and where a pause has ended. The error
/// of a failed cycle is forwarded, and the task stops where nobody takes it.
pub open spec fn next(pending: Directive, signal: Signal) -> Directive {
    match (pending, signal) {
        (Directive::CheckHalt, Signal::HaltChecked { requested }) => if requested {
            Directive::Stop
        } else {
            Directive::CheckPause
        },
        (Directive::CheckPause, Signal::PauseChecked { message }) => if message is Some {
            Directive::Acknowledge
        } else {
            Directive::RunCycle
        },
        (Directive::Acknowledge, Signal::Acknowledged { delivered }) => if delivered {
            Directive::AwaitResume
        } else {
            Directive::Stop
        },
        (Directive::AwaitResume, Signal::ResumeAwaited { message }) => if message is Some {
            Directive::RunCycle
        } else {
            Directive::Stop
        },
        (Directive::RunCycle, Signal::CycleRun { failed }) => if failed {
            Directive::ForwardError
        } else {
            Directive::CheckHalt
        },
        (Directive::ForwardError, Signal::ErrorForwarded { delivered }) => if delivered {
            Directive::CheckHalt
        } else {
            Directive::Stop
        },
        _ => Directive::Stop,
    }
}

/// Whether a run of signals can be reported, one after the other, to a task
/// that is about to do what `pending` says.
pub open spec fn admissible(pending: Directive, signals: Seq<Signal>) -> bool
    decreases signals.len(),
{
    signals.len() > 0 ==> answers(pending, signals[0]) && admissible(
        next(pending, signals[0]),
        signals.skip(1),
    )
}

/// What the task is about to do once a run of signals has been reported to it.
pub open spec fn after(pending: Directive, signals: Seq<Signal>) -> Directive
    decreases signals.len(),
{
    if signals.len() == 0 {
        pending
    } else {
        after(next(pending, signals[0]), signals.skip(1))
    }
}

/// How many cycles a run of signals starts in a task that is about to do what
/// `pending` says.
pub open spec fn cycles_started(pending: Directive, signals: Seq<Signal>) -> nat
    decreases signals.len(),
{
    if signals.len() == 0 {
        0
    } else {
        let then = next(pending, signals[0]);
        (if then == Directive::RunCycle {
            1nat
        } else {
            0nat
        }) + cycles_started(then, signals.skip(1))
    }
}

/// The message that ends a pause.
pub open spec fn resumes(signal: Signal) -> bool {
    signal matches Signal::ResumeAwaited { message: Some(_) }
}

/// The task of an actor.
#[derive(Clone, Debug, PartialEq, Eq)]
pub struct ActorTask {
    pending: Directive,
}

impl ActorTask {
    /// What the task is about to do.
    pub closed spec fn directive(&self) -> Directive {
        self.pending
    }

    /// The state of the actor.
    pub open spec fn spec_state(&self) -> ActorState {
        state_of(self.directive())
    }

    /// Starts a task: the actor runs, and the task begins at a cycle boundary.
    pub fn new() -> (task: ActorTask)
        ensures
            task.directive() == Directive::CheckHalt,
            task.spec_state() == ActorState::Running,
    {
        ActorTask { pending: Directive::CheckHalt }
    }

    /// What the task's driver does next.
    pub fn pending(&self) -> (pending: Directive)
        ensures
            pending == self.directive(),
    {
        self.pending
    }

    /// The state of the actor.
    pub fn state(&self) -> (state: ActorState)
        ensures
            state == self.spec_state(),
    {
        match self.pending {
            Directive::Acknowledge => ActorState::PauseRequested,
            Directive::AwaitResume => ActorState::Paused,
            Directive::Stop => ActorState::Halting,
            _ => ActorState::Running,
        }
    }

    /// Tells whether `signal` may be reported now.
    pub fn accepts(&self, signal: &Signal) -> (ok: bool)
        ensures
            ok == answers(self.directive(), *signal),
    {
        match (self.pending, signal) {
            (Directive::CheckHalt, Signal::HaltChecked { .. }) => true,
            (Directive::CheckPause, Signal::PauseChecked { message }) => match message {
                Some(pause) => *pause,
                None => true,
            },
            (Directive::Acknowledge, Signal::Acknowledged { .. }) => true,
            (Directive::AwaitResume, Signal::ResumeAwaited { message }) => match message {
                Some(pause) => !*pause,
                None => true,
            },
            (Directive::RunCycle, Signal::CycleRun { .. }) => true,
            (Directive::ForwardError, Signal::ErrorForwarded { .. }) => true,
            _ => false,
        }
    }

    /// Takes the driver's report on what the task last asked for and says what
    /// the driver does next.
    pub fn step(&mut self, signal: Signal) -> (then: Directive)
        requires
            answers(old(self).directive(), signal),
        ensures
            then == next(old(self).directive(), signal),
            final(self).directive() == then,
    {
        let then = match (self.pending, signal) {
            (Directive::CheckHalt, Signal::HaltChecked { requested }) => if requested {
                Directive::Stop
            } else {
                Directive::CheckPause
            },
            (Directive::CheckPause, Signal::PauseChecked { message }) => match message {
                Some(_) => Directive::Acknowledge,
                None => Directive::RunCycle,
            },
            (Directive::Acknowledge, Signal::Acknowledged { delivered }) => if delivered {
                Directive::AwaitResume
            } else {
                Directive::Stop
            },
            (Directive::AwaitResume, Signal::ResumeAwaited { message }) => match message {
                Some(_) => Directive::RunCycle,
                None => Directive::Stop,
            },
            (Directive::RunCycle, Signal::CycleRun { failed }) => if failed {
                Directive::ForwardError
            } else {
                Directive::CheckHalt
            },
            (Directive::ForwardError, Signal::ErrorForwarded { delivered }) => if delivered {
                Directive::CheckHalt
            } else {
                Directive::Stop
            },
            _ => Directive::Stop,
        };
        self.pending = then;
        then
    }
}

/// A task that has stopped takes no further report: the halt is final.
pub proof fn lemma_stop_is_final(signals: Seq<Signal>)
    requires
        admissible(Directive::Stop, signals),
    ensures
        signals.len() == 0,
{
}

/// While an actor is paused it starts no cycle: from the moment the pause is
/// acknowledged, whatever is reported to the task, no cycle starts before the
/// message that ends the pause has arrived, and the task is then still paused
/// or has stopped.
pub proof fn lemma_paused_runs_nothing(signals: Seq<Signal>)
    requires
        admissible(Directive::AwaitResume, signals),
        forall|i: int| 0 <= i < signals.len() ==> !resumes(#[trigger] signals[i]),
    ensures
        cycles_started(Directive::AwaitResume, signals) == 0,
        after(Directive::AwaitResume, signals) == Directive::AwaitResume || after(
            Directive::AwaitResume,
            signals,
        ) == Directive::Stop,
{
    if signals.len() > 0 {
        assert(!resumes(signals[0]));
        assert(next(Directive::AwaitResume, signals[0]) == Directive::Stop);
        lemma_stop_is_final(signals.skip(1));
        assert(cycles_started(Directive::Stop, signals.skip(1)) == 0);
        assert(after(Directive::Stop, signals.skip(1)) == Directive::Stop);
    }
}

/// A pause ends only with the message that ends it: the first cycle after an
/// acknowledged pause starts in answer to that message.
pub proof fn lemma_resume_starts_cycle(signal: Signal)
    requires
        answers(Directive::AwaitResume, signal),
    ensures
        next(Directive::AwaitResume, signal) == Directive::RunCycle <==> resumes(signal),
        resumes(signal) ==> signal == (Signal::ResumeAwaited { message: Some(RESUME) }),
{
    if resumes(signal) {
        let message = signal->ResumeAwaited_message;
        assert(message is Some);
        assert(message != Some(true));
        assert(message->Some_0 == false);
        assert(message == Some(false));
    }
}

/// A halt ends the task wherever the actor stands. A running actor sees the
/// request at the next cycle boundary, before it looks for a pause request and
/// before it starts a cycle. A paused actor, whose harness has let go of the
/// pause channel on halting, stops as soon as it sees the channel closed.
pub proof fn lemma_halt_stops_task()
    ensures
        next(Directive::CheckHalt, Signal::HaltChecked { requested: true }) == Directive::Stop,
        next(Directive::AwaitResume, Signal::ResumeAwaited { message: None }) == Directive::Stop,
        state_of(Directive::Stop) == ActorState::Halting,
{
}

/// Where nobody takes the error of a failed cycle, the task stops at once: it
/// starts no further cycle and takes no further report.
pub proof fn lemma_lost_receiver_stops_task(signals: Seq<Signal>)
    requires
        admissible(Directive::ForwardError, signals),
        signals.len() > 0,
        signals[0] == (Signal::ErrorForwarded { delivered: false }),
    ensures
        signals.len() == 1,
        after(Directive::ForwardError, signals) == Directive::Stop,
        cycles_started(Directive::ForwardError, signals) == 0,
{
    lemma_stop_is_final(signals.skip(1));
    assert(after(Directive::Stop, signals.skip(1)) == Directive::Stop);
    assert(cycles_started(Directive::Stop, signals.skip(1)) == 0);
}

/// The task looks for requests only between cycles: a cycle that has started
/// is reported on before anything else is, and a halt or a pause is looked for
/// only after that.
pub proof fn lemma_cycle_is_not_interrupted(signal: Signal)
    requires
        answers(Directive::RunCycle, signal),
    ensures
        signal is CycleRun,
        next(Directive::RunCycle, signal) == Directive::CheckHalt || next(
            Directive::RunCycle,
            signal,
        ) == Directive::ForwardError,
{
}

/// Whether a report is one that the driver makes once the harness has halted
/// the actor and nothing is left on the pause channel: the halt shows at the
/// next look for it, and the pause channel, which the harness has let go of,
/// shows empty to a look and closed to a wait.
pub open spec fn sees_halt(signal: Signal) -> bool {
    match signal {
        Signal::HaltChecked { requested } => requested,
        Signal::PauseChecked { message } => message is None,
        Signal::ResumeAwaited { message } => message is None,
        _ => true,
    }
}

/// How many reports a task takes at most, once its actor was halted, until it
/// stops.
pub open spec fn reports_until_stop(pending: Directive) -> nat {
    match pending {
        Directive::Stop => 0,
        Directive::CheckHalt => 1,
        Directive::AwaitResume => 1,
        Directive::Acknowledge => 2,
        Directive::ForwardError => 2,
        Directive::RunCycle => 3,
        Directive::CheckPause => 4,
    }
}

/// A halt takes effect at the next cycle boundary: once the actor was halted
/// and the pause channel is drained, the task takes no more than a handful of
/// reports, and it starts another cycle only if it had already looked for the
/// halt when the halt came; a cycle that is under way is finished and none
/// follows it.
pub proof fn lemma_halt_takes_effect(pending: Directive, signals: Seq<Signal>)
    requires
        admissible(pending, signals),
        forall|i: int| 0 <= i < signals.len() ==> sees_halt(#[trigger] signals[i]),
    ensures
        signals.len() <= reports_until_stop(pending),
        cycles_started(pending, signals) <= (if pending == Directive::CheckPause {
            1nat
        } else {
            0nat
        }),
        signals.len() == reports_until_stop(pending) ==> after(pending, signals)
            == Directive::Stop,
    decreases signals.len(),
{
    if signals.len() > 0 {
        let first = signals[0];
        let rest = signals.skip(1);
        assert(sees_halt(first));
        assert forall|i: int| 0 <= i < rest.len() implies sees_halt(#[trigger] rest[i]) by {
            assert(rest[i] == signals[i + 1]);
        }
        lemma_halt_takes_effect(next(pending, first), rest);
    }
}

} // verus!
