use omicron_stress::actor::task::{ActorState, ActorTask, Directive, Signal, PAUSE, RESUME};

fn report(task: &mut ActorTask, signal: Signal) -> Directive {
    assert!(task.accepts(&signal), "{:?} does not answer {:?}", signal, task.pending());
    let then = task.step(signal);
    assert_eq!(task.pending(), then);
    then
}

#[test]
fn a_task_starts_running_at_a_cycle_boundary() {
    let task = ActorTask::new();
    assert_eq!(task.pending(), Directive::CheckHalt);
    assert_eq!(task.state(), ActorState::Running);
}

#[test]
fn an_undisturbed_task_runs_cycle_after_cycle() {
    let mut task = ActorTask::new();
    for _ in 0..5 {
        assert_eq!(report(&mut task, Signal::HaltChecked { requested: false }), Directive::CheckPause);
        assert_eq!(report(&mut task, Signal::PauseChecked { message: None }), Directive::RunCycle);
        assert_eq!(task.state(), ActorState::Running);
        assert_eq!(report(&mut task, Signal::CycleRun { failed: false }), Directive::CheckHalt);
    }
}

#[test]
fn a_failed_cycle_is_forwarded_and_the_task_goes_on() {
    let mut task = ActorTask::new();
    report(&mut task, Signal::HaltChecked { requested: false });
    report(&mut task, Signal::PauseChecked { message: None });
    assert_eq!(report(&mut task, Signal::CycleRun { failed: true }), Directive::ForwardError);
    assert_eq!(task.state(), ActorState::Running);
    assert_eq!(report(&mut task, Signal::ErrorForwarded { delivered: true }), Directive::CheckHalt);
}

#[test]
fn a_dropped_error_receiver_stops_the_task() {
    let mut task = ActorTask::new();
    report(&mut task, Signal::HaltChecked { requested: false });
    report(&mut task, Signal::PauseChecked { message: None });
    report(&mut task, Signal::CycleRun { failed: true });
    assert_eq!(report(&mut task, Signal::ErrorForwarded { delivered: false }), Directive::Stop);
    assert_eq!(task.state(), ActorState::Halting);
    assert!(!task.accepts(&Signal::HaltChecked { requested: false }));
    assert!(!task.accepts(&Signal::CycleRun { failed: false }));
}

#[test]
fn a_halt_is_seen_before_anything_else_at_the_boundary() {
    let mut task = ActorTask::new();
    assert_eq!(report(&mut task, Signal::HaltChecked { requested: true }), Directive::Stop);
    assert_eq!(task.state(), ActorState::Halting);
}

#[test]
fn a_pause_is_acknowledged_and_held_until_resumed() {
    let mut task = ActorTask::new();
    report(&mut task, Signal::HaltChecked { requested: false });
    assert_eq!(
        report(&mut task, Signal::PauseChecked { message: Some(true) }),
        Directive::Acknowledge
    );
    assert_eq!(task.state(), ActorState::PauseRequested);
    assert_eq!(report(&mut task, Signal::Acknowledged { delivered: true }), Directive::AwaitResume);
    assert_eq!(task.state(), ActorState::Paused);
    // Nothing but the wait on the pause channel can be reported while paused.
    assert!(!task.accepts(&Signal::CycleRun { failed: false }));
    assert!(!task.accepts(&Signal::HaltChecked { requested: false }));
    assert!(!task.accepts(&Signal::PauseChecked { message: None }));
    assert_eq!(task.pending(), Directive::AwaitResume);
    assert_eq!(
        report(&mut task, Signal::ResumeAwaited { message: Some(false) }),
        Directive::RunCycle
    );
    assert_eq!(task.state(), ActorState::Running);
    assert_eq!(report(&mut task, Signal::CycleRun { failed: false }), Directive::CheckHalt);
}

#[test]
fn pause_then_halt_ends_the_task_without_another_cycle() {
    let mut task = ActorTask::new();
    let mut directives = Vec::new();
    directives.push(report(&mut task, Signal::HaltChecked { requested: false }));
    directives.push(report(&mut task, Signal::PauseChecked { message: Some(true) }));
    directives.push(report(&mut task, Signal::Acknowledged { delivered: true }));
    // The harness halts: it lets go of the pause channel, and the wait ends
    // with the channel closed.
    directives.push(report(&mut task, Signal::ResumeAwaited { message: None }));
    assert_eq!(
        directives,
        vec![Directive::CheckPause, Directive::Acknowledge, Directive::AwaitResume, Directive::Stop]
    );
    assert!(!directives.contains(&Directive::RunCycle));
    assert_eq!(task.state(), ActorState::Halting);
}

#[test]
fn an_acknowledgment_that_nobody_takes_stops_the_task() {
    let mut task = ActorTask::new();
    report(&mut task, Signal::HaltChecked { requested: false });
    report(&mut task, Signal::PauseChecked { message: Some(true) });
    assert_eq!(report(&mut task, Signal::Acknowledged { delivered: false }), Directive::Stop);
}

#[test]
fn pause_and_resume_must_alternate() {
    let mut task = ActorTask::new();
    report(&mut task, Signal::HaltChecked { requested: false });
    // A resume while running breaks the protocol.
    assert!(!task.accepts(&Signal::PauseChecked { message: Some(false) }));
    assert!(task.accepts(&Signal::PauseChecked { message: Some(true) }));
    report(&mut task, Signal::PauseChecked { message: Some(true) });
    report(&mut task, Signal::Acknowledged { delivered: true });
    // A second pause while paused breaks it too.
    assert!(!task.accepts(&Signal::ResumeAwaited { message: Some(true) }));
    assert!(task.accepts(&Signal::ResumeAwaited { message: Some(false) }));
    assert!(task.accepts(&Signal::ResumeAwaited { message: None }));
}

#[test]
fn a_signal_must_answer_the_pending_directive() {
    let task = ActorTask::new();
    assert!(task.accepts(&Signal::HaltChecked { requested: true }));
    assert!(!task.accepts(&Signal::PauseChecked { message: None }));
    assert!(!task.accepts(&Signal::Acknowledged { delivered: true }));
    assert!(!task.accepts(&Signal::ResumeAwaited { message: None }));
    assert!(!task.accepts(&Signal::CycleRun { failed: false }));
    assert!(!task.accepts(&Signal::ErrorForwarded { delivered: true }));
}

#[test]
fn true_asks_for_a_pause_and_false_ends_it() {
    assert!(PAUSE);
    assert!(!RESUME);
    let mut task = ActorTask::new();
    report(&mut task, Signal::HaltChecked { requested: false });
    assert_eq!(
        report(&mut task, Signal::PauseChecked { message: Some(PAUSE) }),
        Directive::Acknowledge
    );
    report(&mut task, Signal::Acknowledged { delivered: true });
    assert_eq!(
        report(&mut task, Signal::ResumeAwaited { message: Some(RESUME) }),
        Directive::RunCycle
    );
}
