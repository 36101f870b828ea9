use orbit_sim::step_loop::{emission_is_terminal, Emission, StepEvent, StepLoop};

#[test]
fn time_limit_ends_run_without_stepping() {
    let mut worker = StepLoop::new();
    assert!(!worker.finished);
    let m = worker.on_event(StepEvent::TimeLimitReached);
    assert_eq!(m, Emission::DoneMaxTime);
    assert!(worker.finished);
}

#[test]
fn failed_step_ends_run_with_error() {
    let mut worker = StepLoop::new();
    let m = worker.on_event(StepEvent::StepFailed);
    assert_eq!(m, Emission::Failed);
    assert!(worker.finished);
}

#[test]
fn deorbit_emits_exactly_one_done_message() {
    let mut worker = StepLoop::new();
    let mut terminal_messages: u32 = 0;

    for _ in 0..5 {
        let m = worker.on_event(StepEvent::StepCompleted {
            deorbited: false,
            limit_reached: false,
            budget_spent: false,
        });
        assert_eq!(m, Emission::Silent);
        assert!(!worker.finished);
    }

    let m = worker.on_event(StepEvent::StepCompleted {
        deorbited: true,
        limit_reached: false,
        budget_spent: false,
    });
    if emission_is_terminal(&m) {
        terminal_messages += 1;
    }
    assert_eq!(m, Emission::DoneDeorbited);
    assert_eq!(terminal_messages, 1);
    assert!(worker.finished);
}

#[test]
fn deorbit_wins_over_budget_and_limit() {
    let mut worker = StepLoop::new();
    let m = worker.on_event(StepEvent::StepCompleted {
        deorbited: true,
        limit_reached: true,
        budget_spent: true,
    });
    assert_eq!(m, Emission::DoneDeorbited);
    assert!(worker.finished);
}

#[test]
fn spent_budget_emits_progress() {
    let mut worker = StepLoop::new();
    let m = worker.on_event(StepEvent::StepCompleted {
        deorbited: false,
        limit_reached: false,
        budget_spent: true,
    });
    assert_eq!(m, Emission::Progress { done: false });
    assert!(!worker.finished);

    let m = worker.on_event(StepEvent::StepCompleted {
        deorbited: false,
        limit_reached: true,
        budget_spent: true,
    });
    assert_eq!(m, Emission::Progress { done: true });
    assert!(worker.finished);
}

#[test]
fn quiet_pass_stays_silent() {
    let mut worker = StepLoop::new();
    let m = worker.on_event(StepEvent::StepCompleted {
        deorbited: false,
        limit_reached: true,
        budget_spent: false,
    });
    assert_eq!(m, Emission::Silent);
    assert!(!worker.finished);
}

#[test]
fn terminal_classification() {
    assert!(!emission_is_terminal(&Emission::Silent));
    assert!(!emission_is_terminal(&Emission::Progress { done: false }));
    assert!(emission_is_terminal(&Emission::Progress { done: true }));
    assert!(emission_is_terminal(&Emission::DoneMaxTime));
    assert!(emission_is_terminal(&Emission::DoneDeorbited));
    assert!(emission_is_terminal(&Emission::Failed));
}
