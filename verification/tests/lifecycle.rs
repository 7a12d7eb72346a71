use opto_sync_desktop::lifecycle::{
    SyncLifecycleCommand, SyncLifecycleEvent, SyncLifecycleMachine, SyncLifecyclePhase,
    SyncLifecycleSnapshot, SyncLifecycleTransition, TransitionDisposition,
};

const PHASES: [SyncLifecyclePhase; 5] = [
    SyncLifecyclePhase::Idle,
    SyncLifecyclePhase::Acquiring,
    SyncLifecyclePhase::Running,
    SyncLifecyclePhase::Releasing,
    SyncLifecyclePhase::Closed,
];
const EVENTS: [SyncLifecycleEvent; 10] = [
    SyncLifecycleEvent::Wake,
    SyncLifecycleEvent::Join,
    SyncLifecycleEvent::BeginAcquire,
    SyncLifecycleEvent::AcquireGranted,
    SyncLifecycleEvent::AcquireDeferred,
    SyncLifecycleEvent::Cancel,
    SyncLifecycleEvent::CycleSettled,
    SyncLifecycleEvent::ReleaseSettled,
    SyncLifecycleEvent::Close,
    SyncLifecycleEvent::ProcessAbort,
];

fn apply(
    machine: &mut SyncLifecycleMachine,
    event: SyncLifecycleEvent,
    generation: Option<u64>,
) -> SyncLifecycleTransition {
    machine.dispatch(SyncLifecycleCommand { event, generation })
}

fn all_snapshots() -> Vec<SyncLifecycleSnapshot> {
    let mut out = Vec::new();
    for phase in PHASES {
        for wake_pending in [false, true] {
            for close_requested in [false, true] {
                for cancel_requested in [false, true] {
                    for permit_held in [false, true] {
                        for generation in [0_u64, 1_u64] {
                            out.push(SyncLifecycleSnapshot {
                                phase,
                                wake_pending,
                                close_requested,
                                cancel_requested,
                                permit_held,
                                generation,
                            });
                        }
                    }
                }
            }
        }
    }
    out
}

#[test]
fn happy_path_is_valid_and_close_is_terminal() {
    let mut machine = SyncLifecycleMachine::default();
    assert!(apply(&mut machine, SyncLifecycleEvent::Wake, None).applied());
    let begin = apply(&mut machine, SyncLifecycleEvent::BeginAcquire, None);
    let generation = begin.after.generation;
    assert_eq!(generation, 1);
    assert!(apply(
        &mut machine,
        SyncLifecycleEvent::AcquireGranted,
        Some(generation)
    )
    .applied());
    assert!(machine.state().may_run_sync_work());
    assert!(apply(
        &mut machine,
        SyncLifecycleEvent::CycleSettled,
        Some(generation)
    )
    .applied());
    assert!(apply(
        &mut machine,
        SyncLifecycleEvent::ReleaseSettled,
        Some(generation)
    )
    .applied());
    assert!(apply(&mut machine, SyncLifecycleEvent::Close, None).applied());
    assert_eq!(machine.state().phase, SyncLifecyclePhase::Closed);

    let before = machine.state();
    let rejected = apply(&mut machine, SyncLifecycleEvent::Wake, None);
    assert_eq!(rejected.disposition, TransitionDisposition::Rejected);
    assert_eq!(machine.state(), before);
}

#[test]
fn stale_completion_stutters() {
    let mut machine = SyncLifecycleMachine::default();
    apply(&mut machine, SyncLifecycleEvent::Wake, None);
    let begin = apply(&mut machine, SyncLifecycleEvent::BeginAcquire, None);
    let before = machine.state();
    let stale = apply(
        &mut machine,
        SyncLifecycleEvent::AcquireGranted,
        Some(begin.after.generation - 1),
    );
    assert_eq!(stale.disposition, TransitionDisposition::Stale);
    assert_eq!(stale.before, before);
    assert_eq!(stale.after, before);
    assert_eq!(machine.state(), before);
}

#[test]
fn trailing_wake_preserves_active_generation() {
    let mut machine = SyncLifecycleMachine::default();
    apply(&mut machine, SyncLifecycleEvent::Wake, None);
    let begin = apply(&mut machine, SyncLifecycleEvent::BeginAcquire, None);
    let generation = begin.after.generation;
    apply(
        &mut machine,
        SyncLifecycleEvent::AcquireGranted,
        Some(generation),
    );
    apply(&mut machine, SyncLifecycleEvent::Wake, None);
    assert!(machine.state().wake_pending);
    assert_eq!(machine.state().generation, generation);
    apply(
        &mut machine,
        SyncLifecycleEvent::CycleSettled,
        Some(generation),
    );
    apply(
        &mut machine,
        SyncLifecycleEvent::ReleaseSettled,
        Some(generation),
    );
    let next = apply(&mut machine, SyncLifecycleEvent::BeginAcquire, None);
    assert_eq!(next.after.generation, generation + 1);
}

#[test]
fn reducer_is_total_over_finite_input_space() {
    let mut examined = 0;
    for phase in PHASES {
        for wake_pending in [false, true] {
            for close_requested in [false, true] {
                for cancel_requested in [false, true] {
                    for permit_held in [false, true] {
                        for generation in [0_u64, 1_u64] {
                            let state = SyncLifecycleSnapshot {
                                phase,
                                wake_pending,
                                close_requested,
                                cancel_requested,
                                permit_held,
                                generation,
                            };
                            for event in EVENTS {
                                for command_generation in
                                    [None, Some(generation), Some(generation + 1)]
                                {
                                    let decision = SyncLifecycleMachine::reduce(
                                        state,
                                        SyncLifecycleCommand {
                                            event,
                                            generation: command_generation,
                                        },
                                    );
                                    examined += 1;
                                    assert_eq!(decision.before, state);
                                    match decision.disposition {
                                        TransitionDisposition::Applied => {
                                            assert!(state.is_valid());
                                            assert!(decision.after.is_valid());
                                        }
                                        TransitionDisposition::Rejected => {
                                            assert_eq!(decision.after, state);
                                        }
                                        TransitionDisposition::Stale => {
                                            assert!(event.requires_generation());
                                            assert_eq!(decision.after, state);
                                        }
                                    }
                                }
                            }
                        }
                    }
                }
            }
        }
    }
    assert_eq!(examined, 4_800);
}

#[test]
fn initial_snapshot_is_idle_and_valid() {
    let initial = SyncLifecycleSnapshot::initial();
    assert_eq!(initial, SyncLifecycleSnapshot::default());
    assert_eq!(SyncLifecycleMachine::default().state(), initial);
    assert_eq!(initial.phase, SyncLifecyclePhase::Idle);
    assert!(!initial.wake_pending);
    assert!(!initial.close_requested);
    assert!(!initial.cancel_requested);
    assert!(!initial.permit_held);
    assert_eq!(initial.generation, 0);
    assert!(initial.is_valid());
    assert!(initial.accepts_wake());
    assert!(!initial.may_run_sync_work());
}

#[test]
fn requires_generation_marks_exactly_the_settlements() {
    let settlements = [
        SyncLifecycleEvent::AcquireGranted,
        SyncLifecycleEvent::AcquireDeferred,
        SyncLifecycleEvent::CycleSettled,
        SyncLifecycleEvent::ReleaseSettled,
        SyncLifecycleEvent::ProcessAbort,
    ];
    for event in EVENTS {
        assert_eq!(event.requires_generation(), settlements.contains(&event));
    }
}

#[test]
fn command_constructors_set_the_generation() {
    assert_eq!(
        SyncLifecycleCommand::new(SyncLifecycleEvent::Wake),
        SyncLifecycleCommand { event: SyncLifecycleEvent::Wake, generation: None }
    );
    assert_eq!(
        SyncLifecycleCommand::generated(SyncLifecycleEvent::CycleSettled, 7),
        SyncLifecycleCommand { event: SyncLifecycleEvent::CycleSettled, generation: Some(7) }
    );
}

#[test]
fn validity_rules_on_concrete_snapshots() {
    let base = SyncLifecycleSnapshot::initial();
    // permit held outside an owning phase
    assert!(!SyncLifecycleSnapshot { permit_held: true, ..base }.is_valid());
    // running without the permit
    assert!(!SyncLifecycleSnapshot { phase: SyncLifecyclePhase::Running, ..base }.is_valid());
    // closed without a close request
    assert!(!SyncLifecycleSnapshot { phase: SyncLifecyclePhase::Closed, ..base }.is_valid());
    // a close request and a pending wake together
    assert!(!SyncLifecycleSnapshot { close_requested: true, wake_pending: true, ..base }.is_valid());
    // cancellation outside running
    assert!(!SyncLifecycleSnapshot { cancel_requested: true, ..base }.is_valid());
    let running = SyncLifecycleSnapshot {
        phase: SyncLifecyclePhase::Running,
        permit_held: true,
        cancel_requested: true,
        ..base
    };
    assert!(running.is_valid());
    assert!(!running.may_run_sync_work());
    assert!(SyncLifecycleSnapshot { cancel_requested: false, ..running }.may_run_sync_work());
    assert!(SyncLifecycleSnapshot { phase: SyncLifecyclePhase::Closed, close_requested: true, ..base }
        .is_valid());
}

#[test]
fn phase_labels() {
    let base = SyncLifecycleSnapshot::initial();
    let labels = [
        "Idle",
        "Acquiring ownership",
        "Synchronizing",
        "Releasing ownership",
        "Closed",
    ];
    for (phase, label) in PHASES.iter().zip(labels.iter()) {
        assert_eq!(SyncLifecycleSnapshot { phase: *phase, ..base }.phase_label(), *label);
    }
}

#[test]
fn invalid_state_rejects_everything() {
    let invalid = SyncLifecycleSnapshot {
        permit_held: true,
        ..SyncLifecycleSnapshot::initial()
    };
    for event in EVENTS {
        let decision = SyncLifecycleMachine::reduce(
            invalid,
            SyncLifecycleCommand { event, generation: Some(0) },
        );
        assert_eq!(decision.disposition, TransitionDisposition::Rejected);
        assert_eq!(decision.after, invalid);
    }
}

#[test]
fn settlement_without_generation_is_rejected() {
    let acquiring = SyncLifecycleSnapshot {
        phase: SyncLifecyclePhase::Acquiring,
        generation: 3,
        ..SyncLifecycleSnapshot::initial()
    };
    let decision = SyncLifecycleMachine::reduce(
        acquiring,
        SyncLifecycleCommand::new(SyncLifecycleEvent::AcquireGranted),
    );
    assert_eq!(decision.disposition, TransitionDisposition::Rejected);
    assert_eq!(decision.after, acquiring);
}

#[test]
fn next_preserves_validity_on_valid_states() {
    for state in all_snapshots().into_iter().filter(|s| s.is_valid()) {
        for event in EVENTS {
            let decision = SyncLifecycleMachine::reduce(
                state,
                SyncLifecycleCommand { event, generation: Some(state.generation) },
            );
            if decision.disposition == TransitionDisposition::Applied {
                assert!(decision.after.is_valid());
            }
        }
    }
}

#[test]
fn stale_settlement_stutters_in_every_valid_state() {
    for state in all_snapshots().into_iter().filter(|s| s.is_valid()) {
        for event in EVENTS.into_iter().filter(|e| e.requires_generation()) {
            let command = SyncLifecycleCommand::generated(event, state.generation + 5);
            let decision = SyncLifecycleMachine::reduce(state, command);
            assert_eq!(decision.disposition, TransitionDisposition::Stale);
            assert_eq!(decision.after, state);
            assert_eq!(decision.command, command);
        }
    }
}

#[test]
fn closed_is_terminal_for_every_command() {
    let closed = SyncLifecycleSnapshot {
        phase: SyncLifecyclePhase::Closed,
        close_requested: true,
        generation: 4,
        ..SyncLifecycleSnapshot::initial()
    };
    for event in EVENTS {
        for generation in [None, Some(3), Some(4)] {
            let decision =
                SyncLifecycleMachine::reduce(closed, SyncLifecycleCommand { event, generation });
            assert_ne!(decision.disposition, TransitionDisposition::Applied);
            assert_eq!(decision.after, closed);
        }
    }
}

#[test]
fn generation_advances_only_on_begin_acquire() {
    for state in all_snapshots() {
        for event in EVENTS {
            let decision = SyncLifecycleMachine::reduce(
                state,
                SyncLifecycleCommand { event, generation: Some(state.generation) },
            );
            if decision.applied() {
                if event == SyncLifecycleEvent::BeginAcquire {
                    assert_eq!(decision.after.generation, state.generation + 1);
                } else {
                    assert_eq!(decision.after.generation, state.generation);
                }
            }
        }
    }
}

#[test]
fn begin_acquire_at_generation_limit_is_rejected() {
    let idle = SyncLifecycleSnapshot {
        wake_pending: true,
        generation: u64::MAX,
        ..SyncLifecycleSnapshot::initial()
    };
    let decision = SyncLifecycleMachine::reduce(
        idle,
        SyncLifecycleCommand::new(SyncLifecycleEvent::BeginAcquire),
    );
    assert_eq!(decision.disposition, TransitionDisposition::Rejected);
    assert_eq!(decision.after, idle);
}

#[test]
fn close_while_running_cancels_and_revokes_sync_work() {
    let mut machine = SyncLifecycleMachine::default();
    apply(&mut machine, SyncLifecycleEvent::Wake, None);
    apply(&mut machine, SyncLifecycleEvent::BeginAcquire, None);
    apply(&mut machine, SyncLifecycleEvent::AcquireGranted, Some(1));
    assert!(machine.state().may_run_sync_work());
    let close = apply(&mut machine, SyncLifecycleEvent::Close, None);
    assert!(close.applied());
    let state = machine.state();
    assert_eq!(state.phase, SyncLifecyclePhase::Running);
    assert!(state.close_requested);
    assert!(state.cancel_requested);
    assert!(!state.may_run_sync_work());
    assert!(!state.accepts_wake());
    assert!(apply(&mut machine, SyncLifecycleEvent::CycleSettled, Some(1)).applied());
    assert!(apply(&mut machine, SyncLifecycleEvent::ReleaseSettled, Some(1)).applied());
    assert_eq!(machine.state().phase, SyncLifecyclePhase::Closed);
    assert!(!machine.state().permit_held);
}

#[test]
fn close_during_acquire_releases_instead_of_running() {
    let mut machine = SyncLifecycleMachine::default();
    apply(&mut machine, SyncLifecycleEvent::Wake, None);
    apply(&mut machine, SyncLifecycleEvent::BeginAcquire, None);
    assert!(apply(&mut machine, SyncLifecycleEvent::Close, None).applied());
    assert!(apply(&mut machine, SyncLifecycleEvent::AcquireGranted, Some(1)).applied());
    assert_eq!(machine.state().phase, SyncLifecyclePhase::Releasing);
    assert!(machine.state().permit_held);
    assert!(!machine.state().may_run_sync_work());
}

#[test]
fn deferred_acquire_and_abort_return_to_idle() {
    let mut machine = SyncLifecycleMachine::default();
    apply(&mut machine, SyncLifecycleEvent::Wake, None);
    apply(&mut machine, SyncLifecycleEvent::BeginAcquire, None);
    assert!(apply(&mut machine, SyncLifecycleEvent::Join, None).applied());
    assert!(apply(&mut machine, SyncLifecycleEvent::AcquireDeferred, Some(1)).applied());
    assert_eq!(machine.state().phase, SyncLifecyclePhase::Idle);
    assert!(!machine.state().permit_held);
    apply(&mut machine, SyncLifecycleEvent::Wake, None);
    apply(&mut machine, SyncLifecycleEvent::BeginAcquire, None);
    apply(&mut machine, SyncLifecycleEvent::AcquireGranted, Some(2));
    assert!(apply(&mut machine, SyncLifecycleEvent::Cancel, None).applied());
    assert!(!machine.state().may_run_sync_work());
    assert!(apply(&mut machine, SyncLifecycleEvent::ProcessAbort, Some(2)).applied());
    let state = machine.state();
    assert_eq!(state.phase, SyncLifecyclePhase::Idle);
    assert!(!state.cancel_requested);
    assert!(!state.permit_held);
    assert_eq!(state.generation, 2);
}

#[test]
fn rejected_dispatch_leaves_machine_unchanged() {
    let mut machine = SyncLifecycleMachine::default();
    let before = machine.state();
    let join = apply(&mut machine, SyncLifecycleEvent::Join, None);
    assert_eq!(join.disposition, TransitionDisposition::Rejected);
    assert_eq!(machine.state(), before);
    let begin = apply(&mut machine, SyncLifecycleEvent::BeginAcquire, None);
    assert_eq!(begin.disposition, TransitionDisposition::Rejected);
    assert_eq!(machine.state(), before);
}
