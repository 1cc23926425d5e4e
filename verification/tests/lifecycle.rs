use numflow::lifecycle::{
    LifecycleDirective, LifecycleEvent, LifecycleEventKind, LifecycleMachine, LifecyclePhase,
    PublishedLifecycleState,
};

fn event(kind: LifecycleEventKind, token: u32) -> LifecycleEvent {
    LifecycleEvent { kind, token }
}

fn suspend(machine: &mut LifecycleMachine, token: u32) {
    let transition = machine.handle_event(event(LifecycleEventKind::PowerSuspend, token));
    assert_eq!(transition.directive, LifecycleDirective::Suspend);
    assert!(machine.mark_suspended(transition.generation));
}

fn recover(machine: &mut LifecycleMachine, kind: LifecycleEventKind, token: u32) {
    let transition = machine.handle_event(event(kind, token));
    assert_eq!(transition.directive, LifecycleDirective::Recover);
    assert!(machine.complete_recovery(transition.generation, true));
}

#[test]
fn running_suspend_resume_returns_to_running() {
    let mut machine = LifecycleMachine::default();
    suspend(&mut machine, 1);
    assert_eq!(machine.phase(), LifecyclePhase::Suspended);
    recover(&mut machine, LifecycleEventKind::PowerResumeAutomatic, 2);
    assert_eq!(machine.phase(), LifecyclePhase::Running);
    assert_eq!(machine.published_state(), PublishedLifecycleState::Running);
}

#[test]
fn duplicate_suspend_is_idempotent() {
    let mut machine = LifecycleMachine::default();
    suspend(&mut machine, 1);
    let generation = machine.generation();
    let duplicate = machine.handle_event(event(LifecycleEventKind::PowerSuspend, 2));
    assert_eq!(
        duplicate.directive,
        LifecycleDirective::Ignore {
            reason: "duplicate-suspend"
        }
    );
    assert_eq!(machine.generation(), generation);
}

#[test]
fn automatic_user_and_unlock_produce_one_recovery_transaction() {
    let mut machine = LifecycleMachine::default();
    let lock = machine.handle_event(event(LifecycleEventKind::SessionLock, 1));
    assert_eq!(lock.directive, LifecycleDirective::Quiesce);
    suspend(&mut machine, 2);

    let automatic = machine.handle_event(event(LifecycleEventKind::PowerResumeAutomatic, 3));
    assert!(matches!(
        automatic.directive,
        LifecycleDirective::AwaitInteractive { .. }
    ));
    let generation = machine.generation();

    let user = machine.handle_event(event(LifecycleEventKind::PowerResumeUser, 4));
    assert!(matches!(
        user.directive,
        LifecycleDirective::AwaitInteractive { .. }
    ));
    let unlock = machine.handle_event(event(LifecycleEventKind::SessionUnlock, 5));
    assert_eq!(unlock.directive, LifecycleDirective::Recover);
    assert_eq!(unlock.generation, generation);
    assert!(machine.complete_recovery(generation, true));
    assert_eq!(machine.phase(), LifecyclePhase::Running);
}

#[test]
fn stale_suspend_token_cannot_regress_new_generation() {
    let mut machine = LifecycleMachine::default();
    suspend(&mut machine, 10);
    recover(&mut machine, LifecycleEventKind::PowerResumeAutomatic, 12);

    let stale = machine.handle_event(event(LifecycleEventKind::PowerSuspend, 11));
    assert_eq!(
        stale.directive,
        LifecycleDirective::Ignore {
            reason: "stale-generation-token"
        }
    );
    assert_eq!(machine.phase(), LifecyclePhase::Running);
}

#[test]
fn desktop_switch_after_resume_is_not_power_suspend() {
    let mut machine = LifecycleMachine::default();
    suspend(&mut machine, 1);
    recover(&mut machine, LifecycleEventKind::PowerResumeAutomatic, 2);

    let inactive = machine.handle_event(event(LifecycleEventKind::DesktopInactive, 3));
    assert_eq!(inactive.directive, LifecycleDirective::Quiesce);
    assert_eq!(machine.phase(), LifecyclePhase::Running);
    assert_eq!(
        machine.published_state(),
        PublishedLifecycleState::DesktopInactive
    );
    recover(&mut machine, LifecycleEventKind::DesktopReady, 4);
}

#[test]
fn lock_unlock_recovers_without_power_suspend() {
    let mut machine = LifecycleMachine::default();
    assert_eq!(
        machine
            .handle_event(event(LifecycleEventKind::SessionLock, 1))
            .directive,
        LifecycleDirective::Quiesce
    );
    assert_eq!(
        machine.published_state(),
        PublishedLifecycleState::SessionLocked
    );
    recover(&mut machine, LifecycleEventKind::SessionUnlock, 2);
}

#[test]
fn sleep_resume_unlock_waits_for_the_interactive_session() {
    let mut machine = LifecycleMachine::default();
    let _ = machine.handle_event(event(LifecycleEventKind::SessionLock, 1));
    suspend(&mut machine, 2);
    let resume = machine.handle_event(event(LifecycleEventKind::PowerResumeAutomatic, 3));
    assert!(matches!(
        resume.directive,
        LifecycleDirective::AwaitInteractive { .. }
    ));
    recover(&mut machine, LifecycleEventKind::SessionUnlock, 4);
}

#[test]
fn repeated_resume_events_do_not_start_duplicate_recovery() {
    let mut machine = LifecycleMachine::default();
    suspend(&mut machine, 1);
    let automatic = machine.handle_event(event(LifecycleEventKind::PowerResumeAutomatic, 2));
    assert_eq!(automatic.directive, LifecycleDirective::Recover);
    let user = machine.handle_event(event(LifecycleEventKind::PowerResumeUser, 3));
    assert_eq!(
        user.directive,
        LifecycleDirective::Ignore {
            reason: "recovery-already-in-progress"
        }
    );
    assert!(machine.complete_recovery(automatic.generation, true));

    let unlock = machine.handle_event(event(LifecycleEventKind::SessionUnlock, 4));
    assert!(matches!(
        unlock.directive,
        LifecycleDirective::Ignore { .. }
    ));
}

#[test]
fn phase_and_event_labels_name_the_states() {
    assert_eq!(LifecyclePhase::Running.label(), "Running");
    assert_eq!(LifecyclePhase::Suspended.label(), "Suspended");
    let mut machine = LifecycleMachine::default();
    assert_eq!(machine.generation(), 0);
    let transition = machine.handle_event(event(LifecycleEventKind::PowerSuspend, 1));
    assert_eq!(transition.from, LifecyclePhase::Running);
    assert_eq!(transition.to, LifecyclePhase::Suspending);
    assert_eq!(transition.generation, 1);
    assert_eq!(machine.published_state(), PublishedLifecycleState::Suspending);
    assert!(!machine.mark_suspended(transition.generation + 1));
    assert!(machine.mark_suspended(transition.generation));
}
