//! The input lifecycle across power suspend and resume, session lock and unlock, and desktop
//! switches: which directive each system event produces, with at most one recovery in flight.

use vstd::prelude::*;

verus! {

/// The power phase of the input runtime.
#[derive(Debug, Clone, Copy, PartialEq, Eq, Structural)]
pub enum LifecyclePhase {
    Running,
    Suspending,
    Suspended,
    Resuming,
}

/// The diagnostic label of a phase.
pub open spec fn phase_label(phase: LifecyclePhase) -> &'static str {
    match phase {
        LifecyclePhase::Running => "Running",
        LifecyclePhase::Suspending => "Suspending",
        LifecyclePhase::Suspended => "Suspended",
        LifecyclePhase::Resuming => "Resuming",
    }
}

impl LifecyclePhase {
    /// Returns the diagnostic label of this phase.
    pub fn label(self) -> (label: &'static str)
        ensures
            label == phase_label(self),
    {
        match self {
            LifecyclePhase::Running => "Running",
            LifecyclePhase::Suspending => "Suspending",
            LifecyclePhase::Suspended => "Suspended",
            LifecyclePhase::Resuming => "Resuming",
        }
    }
}

/// A system event that can affect keyboard input.
#[derive(Debug, Clone, Copy, PartialEq, Eq, Structural)]
pub enum LifecycleEventKind {
    PowerSuspend,
    PowerResumeAutomatic,
    PowerResumeUser,
    SessionLock,
    SessionUnlock,
    DesktopInactive,
    DesktopReady,
    ForegroundChanged,
    KeyboardDeviceChanged,
}

/// The diagnostic label of an event kind, named after the system notification.
pub open spec fn event_kind_label(kind: LifecycleEventKind) -> &'static str {
    match kind {
        LifecycleEventKind::PowerSuspend => "PBT_APMSUSPEND",
        LifecycleEventKind::PowerResumeAutomatic => "PBT_APMRESUMEAUTOMATIC",
        LifecycleEventKind::PowerResumeUser => "PBT_APMRESUMESUSPEND",
        LifecycleEventKind::SessionLock => "WTS_SESSION_LOCK",
        LifecycleEventKind::SessionUnlock => "WTS_SESSION_UNLOCK",
        LifecycleEventKind::DesktopInactive => "EVENT_SYSTEM_DESKTOPSWITCH:inactive",
        LifecycleEventKind::DesktopReady => "EVENT_SYSTEM_DESKTOPSWITCH:ready",
        LifecycleEventKind::ForegroundChanged => "EVENT_SYSTEM_FOREGROUND",
        LifecycleEventKind::KeyboardDeviceChanged => "WM_DEVICECHANGE:keyboard",
    }
}

impl LifecycleEventKind {
    /// Returns the diagnostic label of this event kind.
    pub fn label(self) -> (label: &'static str)
        ensures
            label == event_kind_label(self),
    {
        match self {
            LifecycleEventKind::PowerSuspend => "PBT_APMSUSPEND",
            LifecycleEventKind::PowerResumeAutomatic => "PBT_APMRESUMEAUTOMATIC",
            LifecycleEventKind::PowerResumeUser => "PBT_APMRESUMESUSPEND",
            LifecycleEventKind::SessionLock => "WTS_SESSION_LOCK",
            LifecycleEventKind::SessionUnlock => "WTS_SESSION_UNLOCK",
            LifecycleEventKind::DesktopInactive => "EVENT_SYSTEM_DESKTOPSWITCH:inactive",
            LifecycleEventKind::DesktopReady => "EVENT_SYSTEM_DESKTOPSWITCH:ready",
            LifecycleEventKind::ForegroundChanged => "EVENT_SYSTEM_FOREGROUND",
            LifecycleEventKind::KeyboardDeviceChanged => "WM_DEVICECHANGE:keyboard",
        }
    }
}

/// A system event with the token that orders it; later events carry larger tokens.
#[derive(Debug, Clone, Copy, PartialEq, Eq, Structural)]
pub struct LifecycleEvent {
    pub kind: LifecycleEventKind,
    pub token: u32,
}

/// What the runtime should do in answer to an event.
#[derive(Debug, Clone, Copy, PartialEq, Eq)]
pub enum LifecycleDirective {
    Ignore { reason: &'static str },
    Suspend,
    Quiesce,
    Recover,
    HealthCheck,
    AwaitInteractive { reason: &'static str },
}

/// The record of one handled event.
#[derive(Debug, Clone, Copy, PartialEq, Eq)]
pub struct LifecycleTransition {
    pub event: LifecycleEventKind,
    pub token: u32,
    pub from: LifecyclePhase,
    pub to: LifecyclePhase,
    pub generation: u32,
    pub directive: LifecycleDirective,
}

/// The state reported to the user interface.
#[derive(Debug, Clone, Copy, PartialEq, Eq, Structural)]
pub enum PublishedLifecycleState {
    Running,
    Suspending,
    Suspended,
    Resuming,
    SessionLocked,
    DesktopInactive,
}

/// Whether the user session is locked.
#[derive(Debug, Clone, Copy, PartialEq, Eq, Structural)]
pub enum SessionState {
    Unlocked,
    Locked,
}

/// Whether the input desktop is the one the runtime runs on.
#[derive(Debug, Clone, Copy, PartialEq, Eq, Structural)]
pub enum DesktopState {
    Active,
    Inactive,
}

/// Whether keyboard input is being handled or has been quiesced.
#[derive(Debug, Clone, Copy, PartialEq, Eq, Structural)]
pub enum InputState {
    Active,
    Quiesced,
}

/// Whether a recovery has been started and not completed.
#[derive(Debug, Clone, Copy, PartialEq, Eq, Structural)]
pub enum RecoveryState {
    Idle,
    Started,
}

/// The abstract state of the lifecycle machine.
pub struct LifecycleView {
    pub phase: LifecyclePhase,
    pub session: SessionState,
    pub desktop: DesktopState,
    pub input: InputState,
    pub recovery: RecoveryState,
    pub generation: u32,
    pub last_event_token: u32,
}

/// The state in which the machine starts: running, unlocked, active, generation and token 0.
pub open spec fn initial_lifecycle() -> LifecycleView {
    LifecycleView {
        phase: LifecyclePhase::Running,
        session: SessionState::Unlocked,
        desktop: DesktopState::Active,
        input: InputState::Active,
        recovery: RecoveryState::Idle,
        generation: 0,
        last_event_token: 0,
    }
}

/// The facts that hold in every reachable state: a recovery in flight means the machine is
/// resuming; while suspending or suspended input is quiesced; input is active only while
/// running on an unlocked, active desktop; and a machine that has left running has a non-zero
/// generation.
pub open spec fn lifecycle_invariant(state: LifecycleView) -> bool {
    &&& state.recovery == RecoveryState::Started ==> state.phase == LifecyclePhase::Resuming
    &&& (state.phase == LifecyclePhase::Suspending || state.phase == LifecyclePhase::Suspended)
        ==> state.input == InputState::Quiesced
    &&& state.input == InputState::Active ==> {
        &&& state.phase == LifecyclePhase::Running
        &&& state.session == SessionState::Unlocked
        &&& state.desktop == DesktopState::Active
    }
    &&& state.phase != LifecyclePhase::Running ==> state.generation != 0
}

/// The generation after an advance: the next one, skipping 0 when it wraps around.
pub open spec fn next_generation(generation: u32) -> u32 {
    if generation == 0xFFFF_FFFFu32 {
        1
    } else {
        (generation + 1) as u32
    }
}

/// Recovery is possible on an unlocked session with an active desktop.
pub open spec fn spec_can_recover(state: LifecycleView) -> bool {
    state.session == SessionState::Unlocked && state.desktop == DesktopState::Active
}

/// Starting a recovery unless one is in flight or the interactive desktop is unavailable.
pub open spec fn recover_or_wait_step(state: LifecycleView) -> (LifecycleView, LifecycleDirective) {
    if !spec_can_recover(state) {
        (state, LifecycleDirective::AwaitInteractive { reason: "interactive-desktop-unavailable" })
    } else if state.recovery == RecoveryState::Started {
        (state, LifecycleDirective::Ignore { reason: "recovery-already-in-progress" })
    } else {
        (LifecycleView { recovery: RecoveryState::Started, ..state }, LifecycleDirective::Recover)
    }
}

/// Recovering after a non-power event, or waiting while a power transition or the desktop
/// stands in the way.
pub open spec fn non_power_recovery_step(state: LifecycleView, unavailable_reason: &'static str) -> (
    LifecycleView,
    LifecycleDirective,
) {
    if state.phase == LifecyclePhase::Suspended || state.phase == LifecyclePhase::Suspending {
        (state, LifecycleDirective::AwaitInteractive { reason: "awaiting-authoritative-power-resume" })
    } else if !spec_can_recover(state) {
        (state, LifecycleDirective::AwaitInteractive { reason: unavailable_reason })
    } else if state.phase == LifecyclePhase::Running {
        recover_or_wait_step(
            LifecycleView {
                generation: next_generation(state.generation),
                phase: LifecyclePhase::Resuming,
                ..state
            },
        )
    } else {
        recover_or_wait_step(state)
    }
}

/// What a power suspend does.
pub open spec fn power_suspend_step(state: LifecycleView) -> (LifecycleView, LifecycleDirective) {
    match state.phase {
        LifecyclePhase::Running => (
            LifecycleView {
                generation: next_generation(state.generation),
                phase: LifecyclePhase::Suspending,
                input: InputState::Quiesced,
                recovery: RecoveryState::Idle,
                ..state
            },
            LifecycleDirective::Suspend,
        ),
        LifecyclePhase::Suspending | LifecyclePhase::Suspended => (
            state,
            LifecycleDirective::Ignore { reason: "duplicate-suspend" },
        ),
        LifecyclePhase::Resuming => (
            state,
            LifecycleDirective::Ignore { reason: "stale-suspend-during-recovery" },
        ),
    }
}

/// What a power resume, automatic or by the user, does.
pub open spec fn power_resume_step(state: LifecycleView) -> (LifecycleView, LifecycleDirective) {
    match state.phase {
        LifecyclePhase::Suspending | LifecyclePhase::Suspended => recover_or_wait_step(
            LifecycleView {
                generation: next_generation(state.generation),
                phase: LifecyclePhase::Resuming,
                recovery: RecoveryState::Idle,
                ..state
            },
        ),
        LifecyclePhase::Resuming => recover_or_wait_step(state),
        LifecyclePhase::Running => if state.input == InputState::Quiesced {
            recover_or_wait_step(
                LifecycleView {
                    generation: next_generation(state.generation),
                    phase: LifecyclePhase::Resuming,
                    ..state
                },
            )
        } else {
            (state, LifecycleDirective::Ignore { reason: "already-recovered" })
        },
    }
}

/// What locking the session does.
pub open spec fn session_lock_step(state: LifecycleView) -> (LifecycleView, LifecycleDirective) {
    if state.session == SessionState::Locked {
        (state, LifecycleDirective::Ignore { reason: "duplicate-session-lock" })
    } else {
        let next = LifecycleView {
            session: SessionState::Locked,
            input: InputState::Quiesced,
            recovery: RecoveryState::Idle,
            ..state
        };
        if state.input == InputState::Quiesced {
            (next, LifecycleDirective::Ignore { reason: "input-already-quiesced" })
        } else {
            (next, LifecycleDirective::Quiesce)
        }
    }
}

/// What unlocking the session does.
pub open spec fn session_unlock_step(state: LifecycleView) -> (LifecycleView, LifecycleDirective) {
    if state.session == SessionState::Unlocked && state.input == InputState::Active {
        (state, LifecycleDirective::Ignore { reason: "already-unlocked" })
    } else {
        non_power_recovery_step(
            LifecycleView { session: SessionState::Unlocked, ..state },
            "desktop-not-ready-after-unlock",
        )
    }
}

/// What losing the input desktop does.
pub open spec fn desktop_inactive_step(state: LifecycleView) -> (LifecycleView, LifecycleDirective) {
    if state.desktop == DesktopState::Inactive {
        (state, LifecycleDirective::Ignore { reason: "duplicate-desktop-inactive" })
    } else {
        let next = LifecycleView {
            desktop: DesktopState::Inactive,
            input: InputState::Quiesced,
            recovery: RecoveryState::Idle,
            ..state
        };
        if state.input == InputState::Quiesced {
            (next, LifecycleDirective::Ignore { reason: "input-already-quiesced" })
        } else {
            (next, LifecycleDirective::Quiesce)
        }
    }
}

/// What regaining the input desktop does.
pub open spec fn desktop_ready_step(state: LifecycleView) -> (LifecycleView, LifecycleDirective) {
    let next = LifecycleView { desktop: DesktopState::Active, ..state };
    if next.input == InputState::Active {
        (next, LifecycleDirective::Ignore { reason: "desktop-already-active" })
    } else {
        non_power_recovery_step(next, "session-still-locked")
    }
}

/// A health check is due only while everything is running normally.
pub open spec fn health_checkpoint_directive(state: LifecycleView) -> LifecycleDirective {
    if state.phase == LifecyclePhase::Running && state.session == SessionState::Unlocked
        && state.desktop == DesktopState::Active && state.input == InputState::Active {
        LifecycleDirective::HealthCheck
    } else {
        LifecycleDirective::Ignore { reason: "input-lifecycle-not-running" }
    }
}

/// What a fresh event of a kind does, once its token has been accepted.
pub open spec fn event_step(state: LifecycleView, kind: LifecycleEventKind) -> (
    LifecycleView,
    LifecycleDirective,
) {
    match kind {
        LifecycleEventKind::PowerSuspend => power_suspend_step(state),
        LifecycleEventKind::PowerResumeAutomatic => power_resume_step(state),
        LifecycleEventKind::PowerResumeUser => power_resume_step(state),
        LifecycleEventKind::SessionLock => session_lock_step(state),
        LifecycleEventKind::SessionUnlock => session_unlock_step(state),
        LifecycleEventKind::DesktopInactive => desktop_inactive_step(state),
        LifecycleEventKind::DesktopReady => desktop_ready_step(state),
        LifecycleEventKind::ForegroundChanged => (state, health_checkpoint_directive(state)),
        LifecycleEventKind::KeyboardDeviceChanged => (state, health_checkpoint_directive(state)),
    }
}

/// What handling an event does: an event whose token is not newer than the last accepted one
/// is ignored without any change; otherwise its token is recorded and its kind is handled.
pub open spec fn handle_event_step(state: LifecycleView, event: LifecycleEvent) -> (
    LifecycleView,
    LifecycleDirective,
) {
    if event.token <= state.last_event_token {
        (state, LifecycleDirective::Ignore { reason: "stale-generation-token" })
    } else {
        event_step(LifecycleView { last_event_token: event.token, ..state }, event.kind)
    }
}

/// What marking a suspend as complete does: only the current generation, while suspending.
pub open spec fn mark_suspended_step(state: LifecycleView, generation: u32) -> (LifecycleView, bool) {
    if state.generation != generation || state.phase != LifecyclePhase::Suspending {
        (state, false)
    } else {
        (LifecycleView { phase: LifecyclePhase::Suspended, ..state }, true)
    }
}

/// What completing a recovery does: only the current generation, while resuming; a successful
/// recovery on an available desktop returns to running with input active.
pub open spec fn complete_recovery_step(state: LifecycleView, generation: u32, succeeded: bool) -> (
    LifecycleView,
    bool,
) {
    if state.generation != generation || state.phase != LifecyclePhase::Resuming {
        (state, false)
    } else if succeeded && spec_can_recover(state) {
        (
            LifecycleView {
                recovery: RecoveryState::Idle,
                input: InputState::Active,
                phase: LifecyclePhase::Running,
                ..state
            },
            true,
        )
    } else {
        (LifecycleView { recovery: RecoveryState::Idle, ..state }, false)
    }
}

/// The state to report for a machine state.
pub open spec fn published_state_of(state: LifecycleView) -> PublishedLifecycleState {
    if state.session == SessionState::Locked {
        PublishedLifecycleState::SessionLocked
    } else {
        match state.phase {
            LifecyclePhase::Suspending => PublishedLifecycleState::Suspending,
            LifecyclePhase::Suspended => PublishedLifecycleState::Suspended,
            LifecyclePhase::Resuming => PublishedLifecycleState::Resuming,
            LifecyclePhase::Running => if state.desktop == DesktopState::Inactive || state.input
                == InputState::Quiesced {
                PublishedLifecycleState::DesktopInactive
            } else {
                PublishedLifecycleState::Running
            },
        }
    }
}

/// The initial state satisfies the lifecycle invariant.
pub proof fn lemma_initial_lifecycle_invariant()
    ensures
        lifecycle_invariant(initial_lifecycle()),
{
}

/// Every operation keeps the lifecycle invariant.
pub proof fn lemma_lifecycle_invariant_preserved(
    state: LifecycleView,
    event: LifecycleEvent,
    generation: u32,
    succeeded: bool,
)
    requires
        lifecycle_invariant(state),
    ensures
        lifecycle_invariant(handle_event_step(state, event).0),
        lifecycle_invariant(mark_suspended_step(state, generation).0),
        lifecycle_invariant(complete_recovery_step(state, generation, succeeded).0),
{
}

/// An event whose token is not newer than the last accepted one changes nothing and is
/// answered as stale; a newer one is recorded, so accepted tokens never go backwards.
pub proof fn lemma_event_tokens_order_events(state: LifecycleView, event: LifecycleEvent)
    ensures
        event.token <= state.last_event_token ==> handle_event_step(state, event) == (
            state,
            LifecycleDirective::Ignore { reason: "stale-generation-token" },
        ),
        event.token > state.last_event_token ==> handle_event_step(state, event).0.last_event_token
            == event.token,
        handle_event_step(state, event).0.last_event_token >= state.last_event_token,
{
}

/// An operation on the lifecycle machine: an event, marking a generation suspended, or the
/// outcome of a generation's recovery.
pub enum LifecycleOperation {
    Event(LifecycleEvent),
    MarkSuspended(u32),
    CompleteRecovery(u32, bool),
}

/// The state after one operation.
pub open spec fn operation_step(state: LifecycleView, operation: LifecycleOperation) -> LifecycleView {
    match operation {
        LifecycleOperation::Event(event) => handle_event_step(state, event).0,
        LifecycleOperation::MarkSuspended(generation) => mark_suspended_step(state, generation).0,
        LifecycleOperation::CompleteRecovery(generation, succeeded) => complete_recovery_step(
            state,
            generation,
            succeeded,
        ).0,
    }
}

/// The state after a sequence of operations, one after the other.
pub open spec fn run_operations(state: LifecycleView, operations: Seq<LifecycleOperation>) -> LifecycleView
    decreases operations.len(),
{
    if operations.len() == 0 {
        state
    } else {
        operation_step(run_operations(state, operations.drop_last()), operations.last())
    }
}

/// The largest of a starting token and the tokens of the events among a sequence of
/// operations.
pub open spec fn largest_token(start: u32, operations: Seq<LifecycleOperation>) -> u32
    decreases operations.len(),
{
    if operations.len() == 0 {
        start
    } else {
        let earlier = largest_token(start, operations.drop_last());
        match operations.last() {
            LifecycleOperation::Event(event) => if event.token > earlier {
                event.token
            } else {
                earlier
            },
            _ => earlier,
        }
    }
}

/// After any sequence of operations (events, generations marked suspended, recoveries
/// completed) the machine's last token is the largest event token it has been given (or the
/// one it started with, 0 for a new machine), so an event whose token is not larger than
/// every earlier one is answered as stale and changes nothing.
pub proof fn lemma_stale_tokens_after_any_history(
    state: LifecycleView,
    operations: Seq<LifecycleOperation>,
    event: LifecycleEvent,
)
    ensures
        run_operations(state, operations).last_event_token == largest_token(
            state.last_event_token,
            operations,
        ),
        event.token <= largest_token(state.last_event_token, operations) ==> handle_event_step(
            run_operations(state, operations),
            event,
        ) == (run_operations(state, operations), LifecycleDirective::Ignore {
            reason: "stale-generation-token",
        }),
    decreases operations.len(),
{
    if operations.len() > 0 {
        lemma_stale_tokens_after_any_history(state, operations.drop_last(), event);
        let before = run_operations(state, operations.drop_last());
        match operations.last() {
            LifecycleOperation::Event(last) => lemma_event_tokens_order_events(before, last),
            _ => {},
        }
    }
    lemma_event_tokens_order_events(run_operations(state, operations), event);
}

/// At most one recovery is in flight: while one is started no event asks for another, and an
/// event that asks for a recovery leaves the machine resuming with that recovery started.
pub proof fn lemma_single_recovery_in_flight(state: LifecycleView, event: LifecycleEvent)
    requires
        lifecycle_invariant(state),
    ensures
        state.recovery == RecoveryState::Started ==> handle_event_step(state, event).1
            != LifecycleDirective::Recover,
        handle_event_step(state, event).1 == LifecycleDirective::Recover ==> {
            &&& handle_event_step(state, event).0.recovery == RecoveryState::Started
            &&& handle_event_step(state, event).0.phase == LifecyclePhase::Resuming
        },
{
}

/// The generation changes only by one advance, which never yields 0; a suspend or a resume
/// out of a power transition always advances it, so a stale generation is never current again
/// before the counter wraps.
pub proof fn lemma_generation_advances(state: LifecycleView, event: LifecycleEvent)
    ensures
        ({
            let after = handle_event_step(state, event).0;
            after.generation == state.generation || after.generation == next_generation(
                state.generation,
            )
        }),
        next_generation(state.generation) != 0,
        handle_event_step(state, event).1 == LifecycleDirective::Suspend ==> handle_event_step(
            state,
            event,
        ).0.generation == next_generation(state.generation),
{
}

/// A successful recovery of the current generation on an available desktop returns the
/// machine to running, reported as running.
pub proof fn lemma_successful_recovery_runs(state: LifecycleView)
    requires
        lifecycle_invariant(state),
        state.phase == LifecyclePhase::Resuming,
        spec_can_recover(state),
    ensures
        complete_recovery_step(state, state.generation, true).1,
        published_state_of(complete_recovery_step(state, state.generation, true).0)
            == PublishedLifecycleState::Running,
        complete_recovery_step(state, state.generation, true).0.recovery == RecoveryState::Idle,
{
}

/// The state machine that turns system events into input-lifecycle directives.
#[derive(Debug, Clone, Copy, PartialEq, Eq, Structural)]
pub struct LifecycleMachine {
    phase: LifecyclePhase,
    session: SessionState,
    desktop: DesktopState,
    input: InputState,
    recovery: RecoveryState,
    generation: u32,
    last_event_token: u32,
}

impl View for LifecycleMachine {
    type V = LifecycleView;

    closed spec fn view(&self) -> LifecycleView {
        LifecycleView {
            phase: self.phase,
            session: self.session,
            desktop: self.desktop,
            input: self.input,
            recovery: self.recovery,
            generation: self.generation,
            last_event_token: self.last_event_token,
        }
    }
}

impl Default for LifecycleMachine {
    /// Returns the initial machine: running, unlocked, active, generation and token 0.
    fn default() -> (machine: Self)
        ensures
            machine@ == initial_lifecycle(),
    {
        LifecycleMachine {
            phase: LifecyclePhase::Running,
            session: SessionState::Unlocked,
            desktop: DesktopState::Active,
            input: InputState::Active,
            recovery: RecoveryState::Idle,
            generation: 0,
            last_event_token: 0,
        }
    }
}

impl LifecycleMachine {
    /// Handles one event and returns the record of the transition, including the directive.
    pub fn handle_event(&mut self, event: LifecycleEvent) -> (transition: LifecycleTransition)
        ensures
            (final(self)@, transition.directive) == handle_event_step(old(self)@, event),
            transition.event == event.kind,
            transition.token == event.token,
            transition.from == old(self)@.phase,
            transition.to == final(self)@.phase,
            transition.generation == final(self)@.generation,
    {
        let from = self.phase;
        if event.token <= self.last_event_token {
            return self.transition(
                event.kind,
                event.token,
                from,
                LifecycleDirective::Ignore { reason: "stale-generation-token" },
            );
        }
        self.last_event_token = event.token;
        let directive = match event.kind {
            LifecycleEventKind::PowerSuspend => self.handle_power_suspend(),
            LifecycleEventKind::PowerResumeAutomatic | LifecycleEventKind::PowerResumeUser => {
                self.handle_power_resume()
            },
            LifecycleEventKind::SessionLock => self.handle_session_lock(),
            LifecycleEventKind::SessionUnlock => self.handle_session_unlock(),
            LifecycleEventKind::DesktopInactive => self.handle_desktop_inactive(),
            LifecycleEventKind::DesktopReady => self.handle_desktop_ready(),
            LifecycleEventKind::ForegroundChanged | LifecycleEventKind::KeyboardDeviceChanged => {
                self.handle_health_checkpoint()
            },
        };
        self.transition(event.kind, event.token, from, directive)
    }

    /// Records that the suspend of a generation completed; refused for any other generation or
    /// phase.
    pub fn mark_suspended(&mut self, generation: u32) -> (marked: bool)
        ensures
            (final(self)@, marked) == mark_suspended_step(old(self)@, generation),
    {
        if self.generation != generation || self.phase != LifecyclePhase::Suspending {
            return false;
        }
        self.phase = LifecyclePhase::Suspended;
        true
    }

    /// Records the outcome of the recovery of a generation; returns whether input is running
    /// again.
    pub fn complete_recovery(&mut self, generation: u32, succeeded: bool) -> (running: bool)
        ensures
            (final(self)@, running) == complete_recovery_step(old(self)@, generation, succeeded),
    {
        if self.generation != generation || self.phase != LifecyclePhase::Resuming {
            return false;
        }
        self.recovery = RecoveryState::Idle;
        if succeeded && self.can_recover() {
            self.input = InputState::Active;
            self.phase = LifecyclePhase::Running;
            return true;
        }
        false
    }

    /// The current power phase.
    pub fn phase(&self) -> (phase: LifecyclePhase)
        ensures
            phase == self@.phase,
    {
        self.phase
    }

    /// The current generation.
    pub fn generation(&self) -> (generation: u32)
        ensures
            generation == self@.generation,
    {
        self.generation
    }

    /// The state to report to the user interface.
    pub fn published_state(&self) -> (state: PublishedLifecycleState)
        ensures
            state == published_state_of(self@),
    {
        if self.session == SessionState::Locked {
            return PublishedLifecycleState::SessionLocked;
        }
        match self.phase {
            LifecyclePhase::Suspending => PublishedLifecycleState::Suspending,
            LifecyclePhase::Suspended => PublishedLifecycleState::Suspended,
            LifecyclePhase::Resuming => PublishedLifecycleState::Resuming,
            LifecyclePhase::Running => {
                if self.desktop == DesktopState::Inactive || self.input == InputState::Quiesced {
                    PublishedLifecycleState::DesktopInactive
                } else {
                    PublishedLifecycleState::Running
                }
            },
        }
    }

    fn handle_power_suspend(&mut self) -> (directive: LifecycleDirective)
        ensures
            (final(self)@, directive) == power_suspend_step(old(self)@),
    {
        match self.phase {
            LifecyclePhase::Running => {
                self.advance_generation();
                self.phase = LifecyclePhase::Suspending;
                self.input = InputState::Quiesced;
                self.recovery = RecoveryState::Idle;
                LifecycleDirective::Suspend
            },
            LifecyclePhase::Suspending | LifecyclePhase::Suspended => {
                LifecycleDirective::Ignore { reason: "duplicate-suspend" }
            },
            LifecyclePhase::Resuming => {
                LifecycleDirective::Ignore { reason: "stale-suspend-during-recovery" }
            },
        }
    }

    fn handle_power_resume(&mut self) -> (directive: LifecycleDirective)
        ensures
            (final(self)@, directive) == power_resume_step(old(self)@),
    {
        match self.phase {
            LifecyclePhase::Suspending | LifecyclePhase::Suspended => {
                self.advance_generation();
                self.phase = LifecyclePhase::Resuming;
                self.recovery = RecoveryState::Idle;
                self.recover_or_wait()
            },
            LifecyclePhase::Resuming => self.recover_or_wait(),
            LifecyclePhase::Running => {
                if self.input == InputState::Quiesced {
                    self.advance_generation();
                    self.phase = LifecyclePhase::Resuming;
                    self.recover_or_wait()
                } else {
                    LifecycleDirective::Ignore { reason: "already-recovered" }
                }
            },
        }
    }

    fn handle_session_lock(&mut self) -> (directive: LifecycleDirective)
        ensures
            (final(self)@, directive) == session_lock_step(old(self)@),
    {
        if self.session == SessionState::Locked {
            return LifecycleDirective::Ignore { reason: "duplicate-session-lock" };
        }
        let already_quiesced = self.input == InputState::Quiesced;
        self.session = SessionState::Locked;
        self.input = InputState::Quiesced;
        self.recovery = RecoveryState::Idle;
        if already_quiesced {
            LifecycleDirective::Ignore { reason: "input-already-quiesced" }
        } else {
            LifecycleDirective::Quiesce
        }
    }

    fn handle_session_unlock(&mut self) -> (directive: LifecycleDirective)
        ensures
            (final(self)@, directive) == session_unlock_step(old(self)@),
    {
        if self.session == SessionState::Unlocked && self.input == InputState::Active {
            return LifecycleDirective::Ignore { reason: "already-unlocked" };
        }
        self.session = SessionState::Unlocked;
        self.start_non_power_recovery_or_wait("desktop-not-ready-after-unlock")
    }

    fn handle_desktop_inactive(&mut self) -> (directive: LifecycleDirective)
        ensures
            (final(self)@, directive) == desktop_inactive_step(old(self)@),
    {
        if self.desktop == DesktopState::Inactive {
            return LifecycleDirective::Ignore { reason: "duplicate-desktop-inactive" };
        }
        let already_quiesced = self.input == InputState::Quiesced;
        self.desktop = DesktopState::Inactive;
        self.input = InputState::Quiesced;
        self.recovery = RecoveryState::Idle;
        if already_quiesced {
            LifecycleDirective::Ignore { reason: "input-already-quiesced" }
        } else {
            LifecycleDirective::Quiesce
        }
    }

    fn handle_desktop_ready(&mut self) -> (directive: LifecycleDirective)
        ensures
            (final(self)@, directive) == desktop_ready_step(old(self)@),
    {
        self.desktop = DesktopState::Active;
        if self.input == InputState::Active {
            return LifecycleDirective::Ignore { reason: "desktop-already-active" };
        }
        self.start_non_power_recovery_or_wait("session-still-locked")
    }

    fn handle_health_checkpoint(&self) -> (directive: LifecycleDirective)
        ensures
            directive == health_checkpoint_directive(self@),
    {
        if self.phase == LifecyclePhase::Running && self.session == SessionState::Unlocked
            && self.desktop == DesktopState::Active && self.input == InputState::Active {
            LifecycleDirective::HealthCheck
        } else {
            LifecycleDirective::Ignore { reason: "input-lifecycle-not-running" }
        }
    }

    fn start_non_power_recovery_or_wait(&mut self, unavailable_reason: &'static str) -> (directive:
        LifecycleDirective)
        ensures
            (final(self)@, directive) == non_power_recovery_step(old(self)@, unavailable_reason),
    {
        if self.phase == LifecyclePhase::Suspended || self.phase == LifecyclePhase::Suspending {
            return LifecycleDirective::AwaitInteractive {
                reason: "awaiting-authoritative-power-resume",
            };
        }
        if !self.can_recover() {
            return LifecycleDirective::AwaitInteractive { reason: unavailable_reason };
        }
        if self.phase == LifecyclePhase::Running {
            self.advance_generation();
            self.phase = LifecyclePhase::Resuming;
        }
        self.recover_or_wait()
    }

    fn recover_or_wait(&mut self) -> (directive: LifecycleDirective)
        ensures
            (final(self)@, directive) == recover_or_wait_step(old(self)@),
    {
        if !self.can_recover() {
            return LifecycleDirective::AwaitInteractive {
                reason: "interactive-desktop-unavailable",
            };
        }
        if self.recovery == RecoveryState::Started {
            return LifecycleDirective::Ignore { reason: "recovery-already-in-progress" };
        }
        self.recovery = RecoveryState::Started;
        LifecycleDirective::Recover
    }

    fn can_recover(&self) -> (can: bool)
        ensures
            can == spec_can_recover(self@),
    {
        self.session == SessionState::Unlocked && self.desktop == DesktopState::Active
    }

    fn advance_generation(&mut self)
        ensures
            final(self)@ == (LifecycleView {
                generation: next_generation(old(self)@.generation),
                ..old(self)@
            }),
    {
        let next = self.generation.wrapping_add(1);
        self.generation = if next == 0 {
            1
        } else {
            next
        };
    }

    fn transition(
        &self,
        event: LifecycleEventKind,
        token: u32,
        from: LifecyclePhase,
        directive: LifecycleDirective,
    ) -> (transition: LifecycleTransition)
        ensures
            transition == (LifecycleTransition {
                event,
                token,
                from,
                to: self@.phase,
                generation: self@.generation,
                directive,
            }),
    {
        LifecycleTransition {
            event,
            token,
            from,
            to: self.phase,
            generation: self.generation,
            directive,
        }
    }
}

} // verus!
