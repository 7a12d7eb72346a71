use vstd::prelude::*;

verus! {

/// Phase of the sync lifecycle.
#[derive(Clone, Copy, Debug, PartialEq, Eq, Hash, Structural)]
pub enum SyncLifecyclePhase {
    Idle,
    Acquiring,
    Running,
    Releasing,
    Closed,
}

/// Events that drive the sync lifecycle.
#[derive(Clone, Copy, Debug, PartialEq, Eq, Hash, Structural)]
pub enum SyncLifecycleEvent {
    Wake,
    Join,
    BeginAcquire,
    AcquireGranted,
    AcquireDeferred,
    Cancel,
    CycleSettled,
    ReleaseSettled,
    Close,
    ProcessAbort,
}

impl SyncLifecycleEvent {
    /// The asynchronous settlements: events that must carry the generation
    /// of the acquisition they settle.
    pub open spec fn spec_requires_generation(self) -> bool {
        ||| self is AcquireGranted
        ||| self is AcquireDeferred
        ||| self is CycleSettled
        ||| self is ReleaseSettled
        ||| self is ProcessAbort
    }

    #[must_use]
    #[verifier::when_used_as_spec(spec_requires_generation)]
    pub fn requires_generation(self) -> (r: bool)
        ensures
            r == self.spec_requires_generation(),
    {
        match self {
            Self::Wake => false,
            Self::Join => false,
            Self::BeginAcquire => false,
            Self::AcquireGranted => true,
            Self::AcquireDeferred => true,
            Self::Cancel => false,
            Self::CycleSettled => true,
            Self::ReleaseSettled => true,
            Self::Close => false,
            Self::ProcessAbort => true,
        }
    }
}


/// How the reducer disposed of a command.
#[derive(Clone, Copy, Debug, PartialEq, Eq, Structural)]
pub enum TransitionDisposition {
    Applied,
    Rejected,
    Stale,
}

/// An event, optionally tagged with the generation of the acquisition it settles.
#[derive(Clone, Copy, Debug, PartialEq, Eq, Structural)]
pub struct SyncLifecycleCommand {
    pub event: SyncLifecycleEvent,
    pub generation: Option<u64>,
}

impl SyncLifecycleCommand {
    #[must_use]
    pub fn new(event: SyncLifecycleEvent) -> (c: Self)
        ensures
            c == (SyncLifecycleCommand { event, generation: None }),
    {
        Self { event, generation: None }
    }

    #[must_use]
    pub fn generated(event: SyncLifecycleEvent, generation: u64) -> (c: Self)
        ensures
            c == (SyncLifecycleCommand { event, generation: Some(generation) }),
    {
        Self { event, generation: Some(generation) }
    }
}

/// The observable state of the sync lifecycle.
#[derive(Clone, Copy, Debug, PartialEq, Eq, Hash, Structural)]
pub struct SyncLifecycleSnapshot {
    pub phase: SyncLifecyclePhase,
    pub wake_pending: bool,
    pub close_requested: bool,
    pub cancel_requested: bool,
    pub permit_held: bool,
    pub generation: u64,
}

/// The text shown for each phase.
pub open spec fn spec_phase_label(phase: SyncLifecyclePhase) -> Seq<char> {
    match phase {
        SyncLifecyclePhase::Idle => "Idle"@,
        SyncLifecyclePhase::Acquiring => "Acquiring ownership"@,
        SyncLifecyclePhase::Running => "Synchronizing"@,
        SyncLifecyclePhase::Releasing => "Releasing ownership"@,
        SyncLifecyclePhase::Closed => "Closed"@,
    }
}

impl SyncLifecycleSnapshot {
    /// The state a fresh machine starts in.
    pub open spec fn spec_initial() -> Self {
        SyncLifecycleSnapshot {
            phase: SyncLifecyclePhase::Idle,
            wake_pending: false,
            close_requested: false,
            cancel_requested: false,
            permit_held: false,
            generation: 0,
        }
    }

    /// Well-formedness: the permit is held exactly in the phases that own it,
    /// a closed machine has recorded the close request, a pending close and a
    /// pending wake never coexist, and cancellation only exists while running.
    pub open spec fn spec_is_valid(self) -> bool {
        &&& self.permit_held <==> (self.phase is Running || self.phase is Releasing)
        &&& self.phase is Closed ==> self.close_requested
        &&& !(self.close_requested && self.wake_pending)
        &&& self.cancel_requested ==> self.phase is Running
    }

    pub open spec fn spec_may_run_sync_work(self) -> bool {
        &&& self.phase is Running
        &&& self.permit_held
        &&& !self.cancel_requested
        &&& !self.close_requested
    }

    pub open spec fn spec_accepts_wake(self) -> bool {
        !(self.phase is Closed) && !self.close_requested
    }

    #[must_use]
    pub fn initial() -> (s: Self)
        ensures
            s == Self::spec_initial(),
            s.spec_is_valid(),
    {
        Self {
            phase: SyncLifecyclePhase::Idle,
            wake_pending: false,
            close_requested: false,
            cancel_requested: false,
            permit_held: false,
            generation: 0,
        }
    }

    #[must_use]
    #[verifier::when_used_as_spec(spec_is_valid)]
    pub fn is_valid(self) -> (r: bool)
        ensures
            r == self.spec_is_valid(),
    {
        let active_permit = match self.phase {
            SyncLifecyclePhase::Idle => false,
            SyncLifecyclePhase::Acquiring => false,
            SyncLifecyclePhase::Running => true,
            SyncLifecyclePhase::Releasing => true,
            SyncLifecyclePhase::Closed => false,
        };
        if self.permit_held != active_permit {
            return false;
        }
        if matches!(self.phase, SyncLifecyclePhase::Closed) {
            return self.close_requested && !self.wake_pending && !self.cancel_requested
                && !self.permit_held;
        }
        if self.close_requested && self.wake_pending {
            return false;
        }
        !self.cancel_requested || matches!(self.phase, SyncLifecyclePhase::Running)
    }

    /// Only this derived capability authorizes queue or network work.
    #[must_use]
    #[verifier::when_used_as_spec(spec_may_run_sync_work)]
    pub fn may_run_sync_work(self) -> (r: bool)
        ensures
            r == self.spec_may_run_sync_work(),
    {
        matches!(self.phase, SyncLifecyclePhase::Running) && self.permit_held
            && !self.cancel_requested && !self.close_requested
    }

    #[must_use]
    #[verifier::when_used_as_spec(spec_accepts_wake)]
    pub fn accepts_wake(self) -> (r: bool)
        ensures
            r == self.spec_accepts_wake(),
    {
        !matches!(self.phase, SyncLifecyclePhase::Closed) && !self.close_requested
    }

    #[must_use]
    pub fn phase_label(self) -> (r: &'static str)
        ensures
            r@ == spec_phase_label(self.phase),
    {
        match self.phase {
            SyncLifecyclePhase::Idle => "Idle",
            SyncLifecyclePhase::Acquiring => "Acquiring ownership",
            SyncLifecyclePhase::Running => "Synchronizing",
            SyncLifecyclePhase::Releasing => "Releasing ownership",
            SyncLifecyclePhase::Closed => "Closed",
        }
    }
}

impl Default for SyncLifecycleSnapshot {
    fn default() -> (s: Self)
        ensures
            s == Self::spec_initial(),
    {
        Self::initial()
    }
}

/// The reducer's decision on one command.
#[derive(Clone, Copy, Debug, PartialEq, Eq, Structural)]
pub struct SyncLifecycleTransition {
    pub disposition: TransitionDisposition,
    pub before: SyncLifecycleSnapshot,
    pub after: SyncLifecycleSnapshot,
    pub command: SyncLifecycleCommand,
}

impl SyncLifecycleTransition {
    #[must_use]
    pub fn applied(self) -> (r: bool)
        ensures
            r == (self.disposition is Applied),
    {
        matches!(self.disposition, TransitionDisposition::Applied)
    }
}

/// The successor of `state` under `event`, before any validity or generation
/// check; `None` where the event is not defined in the current state.
pub open spec fn spec_next(state: SyncLifecycleSnapshot, event: SyncLifecycleEvent) -> Option<
    SyncLifecycleSnapshot,
> {
    let closing = state.close_requested;
    let settled_phase = if closing {
        SyncLifecyclePhase::Closed
    } else {
        SyncLifecyclePhase::Idle
    };
    let owning = state.phase is Acquiring || state.phase is Running || state.phase is Releasing;
    match event {
        SyncLifecycleEvent::Wake => if state.spec_accepts_wake() {
            Some(SyncLifecycleSnapshot { wake_pending: true, ..state })
        } else {
            None
        },
        SyncLifecycleEvent::Join => if owning {
            Some(state)
        } else {
            None
        },
        SyncLifecycleEvent::BeginAcquire => if state.phase is Idle && state.wake_pending
            && !closing && state.generation < u64::MAX {
            Some(
                SyncLifecycleSnapshot {
                    phase: SyncLifecyclePhase::Acquiring,
                    wake_pending: false,
                    generation: (state.generation + 1) as u64,
                    ..state
                },
            )
        } else {
            None
        },
        SyncLifecycleEvent::AcquireGranted => if state.phase is Acquiring {
            Some(
                SyncLifecycleSnapshot {
                    phase: if closing {
                        SyncLifecyclePhase::Releasing
                    } else {
                        SyncLifecyclePhase::Running
                    },
                    permit_held: true,
                    cancel_requested: false,
                    ..state
                },
            )
        } else {
            None
        },
        SyncLifecycleEvent::AcquireDeferred => if state.phase is Acquiring {
            Some(
                SyncLifecycleSnapshot {
                    phase: settled_phase,
                    wake_pending: state.wake_pending && !closing,
                    cancel_requested: false,
                    permit_held: false,
                    ..state
                },
            )
        } else {
            None
        },
        SyncLifecycleEvent::Cancel => if state.phase is Running {
            Some(SyncLifecycleSnapshot { cancel_requested: true, ..state })
        } else {
            None
        },
        SyncLifecycleEvent::CycleSettled => if state.phase is Running && state.permit_held {
            Some(
                SyncLifecycleSnapshot {
                    phase: SyncLifecyclePhase::Releasing,
                    cancel_requested: false,
                    ..state
                },
            )
        } else {
            None
        },
        SyncLifecycleEvent::ReleaseSettled => if state.phase is Releasing && state.permit_held {
            Some(
                SyncLifecycleSnapshot {
                    phase: settled_phase,
                    wake_pending: state.wake_pending && !closing,
                    cancel_requested: false,
                    permit_held: false,
                    ..state
                },
            )
        } else {
            None
        },
        SyncLifecycleEvent::Close => if !(state.phase is Closed) {
            Some(
                SyncLifecycleSnapshot {
                    phase: if state.phase is Idle {
                        SyncLifecyclePhase::Closed
                    } else {
                        state.phase
                    },
                    wake_pending: false,
                    close_requested: true,
                    cancel_requested: state.phase is Running,
                    ..state
                },
            )
        } else {
            None
        },
        SyncLifecycleEvent::ProcessAbort => if owning {
            Some(
                SyncLifecycleSnapshot {
                    phase: settled_phase,
                    wake_pending: false,
                    cancel_requested: false,
                    permit_held: false,
                    ..state
                },
            )
        } else {
            None
        },
    }
}

/// A decision that leaves the state as it was.
pub open spec fn spec_unchanged(
    state: SyncLifecycleSnapshot,
    command: SyncLifecycleCommand,
    disposition: TransitionDisposition,
) -> SyncLifecycleTransition {
    SyncLifecycleTransition { disposition, before: state, after: state, command }
}

/// The reducer: an invalid state rejects everything; a settlement without a
/// generation is rejected and one from another generation is stale; an event
/// undefined in the state, or one whose successor would be invalid, is
/// rejected; otherwise the successor is applied.
pub open spec fn spec_reduce(state: SyncLifecycleSnapshot, command: SyncLifecycleCommand) -> SyncLifecycleTransition {
    if !state.spec_is_valid() {
        spec_unchanged(state, command, TransitionDisposition::Rejected)
    } else if command.event.spec_requires_generation() && command.generation is None {
        spec_unchanged(state, command, TransitionDisposition::Rejected)
    } else if command.event.spec_requires_generation() && command.generation != Some(
        state.generation,
    ) {
        spec_unchanged(state, command, TransitionDisposition::Stale)
    } else {
        match spec_next(state, command.event) {
            Some(next) => if next.spec_is_valid() {
                SyncLifecycleTransition {
                    disposition: TransitionDisposition::Applied,
                    before: state,
                    after: next,
                    command,
                }
            } else {
                spec_unchanged(state, command, TransitionDisposition::Rejected)
            },
            None => spec_unchanged(state, command, TransitionDisposition::Rejected),
        }
    }
}


/// The only mutable lifecycle authority in the native app shell.
///
/// The reducer is total. Undefined transitions fail closed, and asynchronous
/// settlements from an older generation stutter without mutating the snapshot.
#[derive(Debug)]
pub struct SyncLifecycleMachine {
    state: SyncLifecycleSnapshot,
}

impl View for SyncLifecycleMachine {
    type V = SyncLifecycleSnapshot;

    closed spec fn view(&self) -> SyncLifecycleSnapshot {
        self.state
    }
}

impl SyncLifecycleMachine {
    /// The machine only ever holds a valid snapshot.
    #[verifier::type_invariant]
    spec fn holds_valid_state(self) -> bool {
        self.state.spec_is_valid()
    }

    #[must_use]
    pub fn state(&self) -> (s: SyncLifecycleSnapshot)
        ensures
            s == self@,
            s.spec_is_valid(),
    {
        proof {
            use_type_invariant(self);
        }
        self.state
    }

    /// Reduce `command` against the current state and keep the successor only
    /// when the command was applied.
    pub fn dispatch(&mut self, command: SyncLifecycleCommand) -> (t: SyncLifecycleTransition)
        ensures
            t == spec_reduce(old(self)@, command),
            final(self)@ == (if t.disposition is Applied {
                t.after
            } else {
                old(self)@
            }),
            final(self)@.spec_is_valid(),
    {
        proof {
            use_type_invariant(&*self);
        }
        let decision = Self::reduce(self.state, command);
        if decision.applied() {
            self.state = decision.after;
        }
        decision
    }

    #[must_use]
    pub fn reduce(state: SyncLifecycleSnapshot, command: SyncLifecycleCommand) -> (t:
        SyncLifecycleTransition)
        ensures
            t == spec_reduce(state, command),
    {
        if !state.is_valid() {
            return SyncLifecycleTransition {
                disposition: TransitionDisposition::Rejected,
                before: state,
                after: state,
                command,
            };
        }
        if command.event.requires_generation() {
            let generation = match command.generation {
                Some(generation) => generation,
                None => {
                    return SyncLifecycleTransition {
                        disposition: TransitionDisposition::Rejected,
                        before: state,
                        after: state,
                        command,
                    };
                },
            };
            if generation != state.generation {
                return SyncLifecycleTransition {
                    disposition: TransitionDisposition::Stale,
                    before: state,
                    after: state,
                    command,
                };
            }
        }
        let next = match Self::next(state, command.event) {
            Some(next) => next,
            None => {
                return SyncLifecycleTransition {
                    disposition: TransitionDisposition::Rejected,
                    before: state,
                    after: state,
                    command,
                };
            },
        };
        if !next.is_valid() {
            return SyncLifecycleTransition {
                disposition: TransitionDisposition::Rejected,
                before: state,
                after: state,
                command,
            };
        }
        SyncLifecycleTransition {
            disposition: TransitionDisposition::Applied,
            before: state,
            after: next,
            command,
        }
    }

    fn next(state: SyncLifecycleSnapshot, event: SyncLifecycleEvent) -> (r: Option<
        SyncLifecycleSnapshot,
    >)
        ensures
            r == spec_next(state, event),
    {
        let mut next = state;
        match event {
            SyncLifecycleEvent::Wake => {
                if !state.accepts_wake() {
                    return None;
                }
                next.wake_pending = true;
            },
            SyncLifecycleEvent::Join => {
                let can_join = match state.phase {
                    SyncLifecyclePhase::Idle => false,
                    SyncLifecyclePhase::Acquiring => true,
                    SyncLifecyclePhase::Running => true,
                    SyncLifecyclePhase::Releasing => true,
                    SyncLifecyclePhase::Closed => false,
                };
                if !can_join {
                    return None;
                }
            },
            SyncLifecycleEvent::BeginAcquire => {
                if !matches!(state.phase, SyncLifecyclePhase::Idle) || !state.wake_pending
                    || state.close_requested {
                    return None;
                }
                next.phase = SyncLifecyclePhase::Acquiring;
                next.wake_pending = false;
                next.generation = match state.generation.checked_add(1) {
                    Some(generation) => generation,
                    None => {
                        return None;
                    },
                };
            },
            SyncLifecycleEvent::AcquireGranted => {
                if !matches!(state.phase, SyncLifecyclePhase::Acquiring) {
                    return None;
                }
                next.phase =
                    if state.close_requested {
                        SyncLifecyclePhase::Releasing
                    } else {
                        SyncLifecyclePhase::Running
                    };
                next.permit_held = true;
                next.cancel_requested = false;
            },
            SyncLifecycleEvent::AcquireDeferred => {
                if !matches!(state.phase, SyncLifecyclePhase::Acquiring) {
                    return None;
                }
                next.phase =
                    if state.close_requested {
                        SyncLifecyclePhase::Closed
                    } else {
                        SyncLifecyclePhase::Idle
                    };
                if state.close_requested {
                    next.wake_pending = false;
                }
                next.cancel_requested = false;
                next.permit_held = false;
            },
            SyncLifecycleEvent::Cancel => {
                if !matches!(state.phase, SyncLifecyclePhase::Running) {
                    return None;
                }
                next.cancel_requested = true;
            },
            SyncLifecycleEvent::CycleSettled => {
                if !matches!(state.phase, SyncLifecyclePhase::Running) || !state.permit_held {
                    return None;
                }
                next.phase = SyncLifecyclePhase::Releasing;
                next.cancel_requested = false;
            },
            SyncLifecycleEvent::ReleaseSettled => {
                if !matches!(state.phase, SyncLifecyclePhase::Releasing) || !state.permit_held {
                    return None;
                }
                next.phase =
                    if state.close_requested {
                        SyncLifecyclePhase::Closed
                    } else {
                        SyncLifecyclePhase::Idle
                    };
                if state.close_requested {
                    next.wake_pending = false;
                }
                next.cancel_requested = false;
                next.permit_held = false;
            },
            SyncLifecycleEvent::Close => {
                if matches!(state.phase, SyncLifecyclePhase::Closed) {
                    return None;
                }
                next.wake_pending = false;
                next.close_requested = true;
                if matches!(state.phase, SyncLifecyclePhase::Idle) {
                    next.phase = SyncLifecyclePhase::Closed;
                    next.cancel_requested = false;
                } else {
                    next.cancel_requested = matches!(state.phase, SyncLifecyclePhase::Running);
                }
            },
            SyncLifecycleEvent::ProcessAbort => {
                let can_abort = match state.phase {
                    SyncLifecyclePhase::Idle => false,
                    SyncLifecyclePhase::Acquiring => true,
                    SyncLifecyclePhase::Running => true,
                    SyncLifecyclePhase::Releasing => true,
                    SyncLifecyclePhase::Closed => false,
                };
                if !can_abort {
                    return None;
                }
                next.phase =
                    if state.close_requested {
                        SyncLifecyclePhase::Closed
                    } else {
                        SyncLifecyclePhase::Idle
                    };
                next.wake_pending = false;
                next.cancel_requested = false;
                next.permit_held = false;
            },
        }
        Some(next)
    }
}

impl Default for SyncLifecycleMachine {
    fn default() -> (m: Self)
        ensures
            m@ == SyncLifecycleSnapshot::spec_initial(),
    {
        SyncLifecycleMachine { state: SyncLifecycleSnapshot::initial() }
    }
}


/// Every defined transition out of a valid state lands in a valid state, so
/// the reducer's final validity check never fires on valid input.
pub proof fn lemma_next_preserves_validity(state: SyncLifecycleSnapshot, event: SyncLifecycleEvent)
    requires
        state.spec_is_valid(),
        spec_next(state, event) is Some,
    ensures
        spec_next(state, event).unwrap().spec_is_valid(),
{
}

/// The reducer fails closed: it always reports the state it started from and
/// the command it was given; whatever it does not apply leaves the state
/// unchanged; only settlements can be stale; and an applied transition goes
/// from a valid state to a valid state.
pub proof fn lemma_reduce_fails_closed(state: SyncLifecycleSnapshot, command: SyncLifecycleCommand)
    ensures
        spec_reduce(state, command).before == state,
        spec_reduce(state, command).command == command,
        !(spec_reduce(state, command).disposition is Applied) ==> spec_reduce(
            state,
            command,
        ).after == state,
        spec_reduce(state, command).disposition is Stale
            ==> command.event.spec_requires_generation(),
        spec_reduce(state, command).disposition is Applied ==> state.spec_is_valid()
            && spec_reduce(state, command).after.spec_is_valid(),
{
}

/// A settlement from another generation stutters: it is answered `Stale` and
/// the snapshot does not move.
pub proof fn lemma_stale_settlement_stutters(
    state: SyncLifecycleSnapshot,
    command: SyncLifecycleCommand,
    generation: u64,
)
    requires
        state.spec_is_valid(),
        command.event.spec_requires_generation(),
        command.generation == Some(generation),
        generation != state.generation,
    ensures
        spec_reduce(state, command) == spec_unchanged(state, command, TransitionDisposition::Stale),
{
}

/// Closed is terminal: no command is applied to a closed snapshot.
pub proof fn lemma_closed_is_terminal(state: SyncLifecycleSnapshot, command: SyncLifecycleCommand)
    requires
        state.phase is Closed,
    ensures
        !(spec_reduce(state, command).disposition is Applied),
        spec_reduce(state, command).after == state,
{
}

/// Only `BeginAcquire` moves the generation, and it moves it by exactly one;
/// every other applied event keeps the active generation.
pub proof fn lemma_generation_advances_only_on_acquire(
    state: SyncLifecycleSnapshot,
    command: SyncLifecycleCommand,
)
    requires
        spec_reduce(state, command).disposition is Applied,
    ensures
        command.event is BeginAcquire ==> spec_reduce(state, command).after.generation
            == state.generation + 1,
        !(command.event is BeginAcquire) ==> spec_reduce(state, command).after.generation
            == state.generation,
{
}

/// An applied close withdraws the authorization for sync work and refuses
/// further wakes.
pub proof fn lemma_close_revokes_sync_work(state: SyncLifecycleSnapshot, command: SyncLifecycleCommand)
    requires
        command.event is Close,
        spec_reduce(state, command).disposition is Applied,
    ensures
        spec_reduce(state, command).after.close_requested,
        !spec_reduce(state, command).after.spec_may_run_sync_work(),
        !spec_reduce(state, command).after.spec_accepts_wake(),
{
}

/// A deferred acquisition releases nothing it never held and settles the
/// machine: from any valid acquiring state, `AcquireDeferred` of the current
/// generation is applied, lands in `Closed` when a close was requested and in
/// `Idle` otherwise, holds no permit and no cancellation, drops a pending wake
/// only when closing, and keeps the generation and the close request.
pub proof fn lemma_acquire_deferred_settles(state: SyncLifecycleSnapshot)
    requires
        state.spec_is_valid(),
        state.phase is Acquiring,
    ensures
        ({
            let t = spec_reduce(
                state,
                SyncLifecycleCommand {
                    event: SyncLifecycleEvent::AcquireDeferred,
                    generation: Some(state.generation),
                },
            );
            &&& t.disposition is Applied
            &&& t.after == SyncLifecycleSnapshot {
                phase: if state.close_requested {
                    SyncLifecyclePhase::Closed
                } else {
                    SyncLifecyclePhase::Idle
                },
                wake_pending: if state.close_requested {
                    false
                } else {
                    state.wake_pending
                },
                close_requested: state.close_requested,
                cancel_requested: false,
                permit_held: false,
                generation: state.generation,
            }
        }),
{
}

/// A granted acquisition takes the permit: from any valid acquiring state,
/// `AcquireGranted` of the current generation is applied and lands in
/// `Running`, or in `Releasing` when a close was requested meanwhile.
pub proof fn lemma_acquire_granted_takes_permit(state: SyncLifecycleSnapshot)
    requires
        state.spec_is_valid(),
        state.phase is Acquiring,
    ensures
        ({
            let t = spec_reduce(
                state,
                SyncLifecycleCommand {
                    event: SyncLifecycleEvent::AcquireGranted,
                    generation: Some(state.generation),
                },
            );
            &&& t.disposition is Applied
            &&& t.after == SyncLifecycleSnapshot {
                phase: if state.close_requested {
                    SyncLifecyclePhase::Releasing
                } else {
                    SyncLifecyclePhase::Running
                },
                wake_pending: state.wake_pending,
                close_requested: state.close_requested,
                cancel_requested: false,
                permit_held: true,
                generation: state.generation,
            }
        }),
{
}

/// An abort ends any in-flight cycle: from every valid acquiring, running or
/// releasing state, `ProcessAbort` of the current generation is applied and
/// lands in `Closed` when a close was requested and in `Idle` otherwise, with
/// no permit, no pending wake and no cancellation, keeping the generation and
/// the close request. It is refused from `Idle` and `Closed`.
pub proof fn lemma_process_abort_settles(state: SyncLifecycleSnapshot)
    requires
        state.spec_is_valid(),
    ensures
        ({
            let t = spec_reduce(
                state,
                SyncLifecycleCommand {
                    event: SyncLifecycleEvent::ProcessAbort,
                    generation: Some(state.generation),
                },
            );
            &&& (state.phase is Idle || state.phase is Closed) ==> t.disposition is Rejected
            &&& !(state.phase is Idle || state.phase is Closed) ==> {
                &&& t.disposition is Applied
                &&& t.after == SyncLifecycleSnapshot {
                    phase: if state.close_requested {
                        SyncLifecyclePhase::Closed
                    } else {
                        SyncLifecyclePhase::Idle
                    },
                    wake_pending: false,
                    close_requested: state.close_requested,
                    cancel_requested: false,
                    permit_held: false,
                    generation: state.generation,
                }
            }
        }),
{
}

/// A settled release gives the permit back: from any valid releasing state,
/// `ReleaseSettled` of the current generation is applied and lands in `Closed`
/// when a close was requested and in `Idle` otherwise, with no permit.
pub proof fn lemma_release_settled_settles(state: SyncLifecycleSnapshot)
    requires
        state.spec_is_valid(),
        state.phase is Releasing,
    ensures
        ({
            let t = spec_reduce(
                state,
                SyncLifecycleCommand {
                    event: SyncLifecycleEvent::ReleaseSettled,
                    generation: Some(state.generation),
                },
            );
            &&& t.disposition is Applied
            &&& t.after == SyncLifecycleSnapshot {
                phase: if state.close_requested {
                    SyncLifecyclePhase::Closed
                } else {
                    SyncLifecyclePhase::Idle
                },
                wake_pending: if state.close_requested {
                    false
                } else {
                    state.wake_pending
                },
                close_requested: state.close_requested,
                cancel_requested: false,
                permit_held: false,
                generation: state.generation,
            }
        }),
{
}

/// Close is accepted from every valid state that is not yet closed: it records
/// the close request, drops a pending wake, closes an idle machine at once,
/// cancels a running cycle, and otherwise keeps the phase and the permit so the
/// cycle in flight can settle.
pub proof fn lemma_close_is_accepted_until_closed(state: SyncLifecycleSnapshot)
    requires
        state.spec_is_valid(),
        !(state.phase is Closed),
    ensures
        ({
            let t = spec_reduce(
                state,
                SyncLifecycleCommand { event: SyncLifecycleEvent::Close, generation: None },
            );
            &&& t.disposition is Applied
            &&& t.after == SyncLifecycleSnapshot {
                phase: if state.phase is Idle {
                    SyncLifecyclePhase::Closed
                } else {
                    state.phase
                },
                wake_pending: false,
                close_requested: true,
                cancel_requested: state.phase is Running,
                permit_held: state.permit_held,
                generation: state.generation,
            }
        }),
{
}

/// A close requested while a cycle is releasing is not lost: applying `Close`
/// and then `ReleaseSettled` of the current generation ends in `Closed`.
pub proof fn lemma_close_then_release_ends_closed(state: SyncLifecycleSnapshot)
    requires
        state.spec_is_valid(),
        state.phase is Releasing,
    ensures
        ({
            let closing = spec_reduce(
                state,
                SyncLifecycleCommand { event: SyncLifecycleEvent::Close, generation: None },
            );
            let released = spec_reduce(
                closing.after,
                SyncLifecycleCommand {
                    event: SyncLifecycleEvent::ReleaseSettled,
                    generation: Some(state.generation),
                },
            );
            &&& closing.disposition is Applied
            &&& released.disposition is Applied
            &&& released.after.phase is Closed
            &&& !released.after.permit_held
        }),
{
}

/// Sync work is authorized exactly in a running snapshot that holds the permit
/// and has neither a cancellation nor a close request pending; in particular
/// never while acquiring, releasing, idle or closed.
pub proof fn lemma_sync_work_only_while_running(state: SyncLifecycleSnapshot)
    ensures
        state.spec_may_run_sync_work() <==> (state.phase is Running && state.permit_held
            && !state.cancel_requested && !state.close_requested),
{
}

/// Settling a cycle withdraws its authorization: after an applied
/// `CycleSettled` the machine is releasing and may no longer run sync work.
pub proof fn lemma_cycle_settled_revokes_sync_work(
    state: SyncLifecycleSnapshot,
    command: SyncLifecycleCommand,
)
    requires
        command.event is CycleSettled,
        spec_reduce(state, command).disposition is Applied,
    ensures
        state.phase is Running,
        spec_reduce(state, command).after.phase is Releasing,
        spec_reduce(state, command).after.permit_held,
        !spec_reduce(state, command).after.spec_may_run_sync_work(),
{
}

/// A machine accepts wakes exactly while it is neither closed nor closing,
/// whether or not a wake is already pending; from every such valid state a
/// `Wake` is applied and only marks the wake as pending.
pub proof fn lemma_wake_accepted_while_open(state: SyncLifecycleSnapshot)
    ensures
        state.spec_accepts_wake() <==> (!(state.phase is Closed) && !state.close_requested),
        state.spec_is_valid() && !(state.phase is Closed) && !state.close_requested ==> {
            let t = spec_reduce(
                state,
                SyncLifecycleCommand { event: SyncLifecycleEvent::Wake, generation: None },
            );
            &&& t.disposition is Applied
            &&& t.after == SyncLifecycleSnapshot { wake_pending: true, ..state }
        },
{
}

} // verus!
