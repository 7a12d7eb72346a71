use vstd::prelude::*;

use crate::config::DesktopConfig;
use crate::lifecycle::{
    SyncLifecycleCommand, SyncLifecycleEvent, SyncLifecycleMachine, SyncLifecyclePhase,
    SyncLifecycleSnapshot, SyncLifecycleTransition, TransitionDisposition,
};
use crate::state::DesktopState;
use crate::ui;

verus! {

/// Why the desktop shell refused to run a sync cycle.
#[derive(Clone, Copy, Debug, PartialEq, Eq, Structural)]
pub enum DesktopAppError {
    LifecycleRejected { event: SyncLifecycleEvent, disposition: TransitionDisposition },
    SyncWorkNotAuthorized,
}

/// The name an event is shown by.
pub open spec fn spec_event_name(event: SyncLifecycleEvent) -> Seq<char> {
    match event {
        SyncLifecycleEvent::Wake => "Wake"@,
        SyncLifecycleEvent::Join => "Join"@,
        SyncLifecycleEvent::BeginAcquire => "BeginAcquire"@,
        SyncLifecycleEvent::AcquireGranted => "AcquireGranted"@,
        SyncLifecycleEvent::AcquireDeferred => "AcquireDeferred"@,
        SyncLifecycleEvent::Cancel => "Cancel"@,
        SyncLifecycleEvent::CycleSettled => "CycleSettled"@,
        SyncLifecycleEvent::ReleaseSettled => "ReleaseSettled"@,
        SyncLifecycleEvent::Close => "Close"@,
        SyncLifecycleEvent::ProcessAbort => "ProcessAbort"@,
    }
}

/// The name a disposition is shown by.
pub open spec fn spec_disposition_name(disposition: TransitionDisposition) -> Seq<char> {
    match disposition {
        TransitionDisposition::Applied => "Applied"@,
        TransitionDisposition::Rejected => "Rejected"@,
        TransitionDisposition::Stale => "Stale"@,
    }
}

/// The message an error is reported with.
pub open spec fn spec_error_message(error: DesktopAppError) -> Seq<char> {
    match error {
        DesktopAppError::LifecycleRejected { event, disposition } => "lifecycle rejected "@
            + spec_event_name(event) + " with disposition "@ + spec_disposition_name(disposition),
        DesktopAppError::SyncWorkNotAuthorized => "lifecycle did not authorize sync work"@,
    }
}

fn event_name(event: SyncLifecycleEvent) -> (r: &'static str)
    ensures
        r@ == spec_event_name(event),
{
    match event {
        SyncLifecycleEvent::Wake => "Wake",
        SyncLifecycleEvent::Join => "Join",
        SyncLifecycleEvent::BeginAcquire => "BeginAcquire",
        SyncLifecycleEvent::AcquireGranted => "AcquireGranted",
        SyncLifecycleEvent::AcquireDeferred => "AcquireDeferred",
        SyncLifecycleEvent::Cancel => "Cancel",
        SyncLifecycleEvent::CycleSettled => "CycleSettled",
        SyncLifecycleEvent::ReleaseSettled => "ReleaseSettled",
        SyncLifecycleEvent::Close => "Close",
        SyncLifecycleEvent::ProcessAbort => "ProcessAbort",
    }
}

fn disposition_name(disposition: TransitionDisposition) -> (r: &'static str)
    ensures
        r@ == spec_disposition_name(disposition),
{
    match disposition {
        TransitionDisposition::Applied => "Applied",
        TransitionDisposition::Rejected => "Rejected",
        TransitionDisposition::Stale => "Stale",
    }
}

impl DesktopAppError {
    /// The human-readable message for this error.
    pub fn to_string(&self) -> (r: String)
        ensures
            r@ == spec_error_message(*self),
    {
        match self {
            DesktopAppError::LifecycleRejected { event, disposition } => {
                let mut out = String::from_str("lifecycle rejected ");
                out.append(event_name(*event));
                out.append(" with disposition ");
                out.append(disposition_name(*disposition));
                out
            },
            DesktopAppError::SyncWorkNotAuthorized => String::from_str(
                "lifecycle did not authorize sync work",
            ),
        }
    }
}

/// What `apply` answers for `command` on a machine in `state`: the transition
/// when it was applied, and the refused event with its disposition otherwise.
pub open spec fn spec_apply_result(
    state: SyncLifecycleSnapshot,
    command: SyncLifecycleCommand,
) -> Result<SyncLifecycleTransition, DesktopAppError> {
    let t = crate::lifecycle::spec_reduce(state, command);
    if t.disposition is Applied {
        Ok(t)
    } else {
        Err(DesktopAppError::LifecycleRejected { event: command.event, disposition: t.disposition })
    }
}

/// Dispatch `command` and turn anything but an applied transition into an error.
pub fn apply(lifecycle: &mut SyncLifecycleMachine, command: SyncLifecycleCommand) -> (r: Result<
    SyncLifecycleTransition,
    DesktopAppError,
>)
    ensures
        r == spec_apply_result(old(lifecycle)@, command),
        final(lifecycle)@ == (match r {
            Ok(t) => t.after,
            Err(_) => old(lifecycle)@,
        }),
{
    let decision = lifecycle.dispatch(command);
    if decision.applied() {
        Ok(decision)
    } else {
        Err(DesktopAppError::LifecycleRejected { event: command.event, disposition: decision.disposition })
    }
}

/// The snapshot of a machine that holds the permit of acquisition `generation`
/// and is authorized to run sync work.
pub open spec fn spec_authorized(generation: u64) -> SyncLifecycleSnapshot {
    SyncLifecycleSnapshot {
        phase: SyncLifecyclePhase::Running,
        wake_pending: false,
        close_requested: false,
        cancel_requested: false,
        permit_held: true,
        generation,
    }
}

/// The snapshot of a machine that has settled and released acquisition
/// `generation`.
pub open spec fn spec_released(generation: u64) -> SyncLifecycleSnapshot {
    SyncLifecycleSnapshot {
        phase: SyncLifecyclePhase::Idle,
        wake_pending: false,
        close_requested: false,
        cancel_requested: false,
        permit_held: false,
        generation,
    }
}

/// A sync cycle whose permit is held: the endpoint is to be probed, and then
/// the cycle is completed with what the probe found.
pub struct SyncCycle {
    lifecycle: SyncLifecycleMachine,
    generation: u64,
    endpoint: String,
}

impl SyncCycle {
    #[verifier::type_invariant]
    spec fn holds_permit(self) -> bool {
        self.lifecycle@ == spec_authorized(self.generation)
    }

    pub closed spec fn spec_lifecycle(self) -> SyncLifecycleSnapshot {
        self.lifecycle@
    }

    pub closed spec fn spec_generation(self) -> u64 {
        self.generation
    }

    pub closed spec fn spec_endpoint(self) -> Seq<char> {
        self.endpoint@
    }

    /// The endpoint this cycle is authorized to probe.
    pub fn endpoint(&self) -> (r: &str)
        ensures
            r@ == self.spec_endpoint(),
    {
        self.endpoint.as_str()
    }

    /// The generation of the acquisition this cycle holds.
    pub fn generation(&self) -> (r: u64)
        ensures
            r == self.spec_generation(),
    {
        self.generation
    }

    /// The lifecycle snapshot while the probe runs.
    pub fn lifecycle_state(&self) -> (r: SyncLifecycleSnapshot)
        ensures
            r == self.spec_lifecycle(),
            r == spec_authorized(self.spec_generation()),
            r.spec_may_run_sync_work(),
    {
        proof {
            use_type_invariant(self);
        }
        self.lifecycle.state()
    }

    /// Settle the cycle and release its permit, then render the probe result
    /// with the released lifecycle snapshot.
    pub fn complete(self, probed: &DesktopState) -> (r: Result<String, DesktopAppError>)
        ensures
            r is Ok,
            r->Ok_0@ == ui::spec_render_with_lifecycle(
                *probed,
                spec_released(self.spec_generation()),
            ),
    {
        proof {
            use_type_invariant(&self);
        }
        let generation = self.generation;
        let mut lifecycle = self.lifecycle;
        apply(
            &mut lifecycle,
            SyncLifecycleCommand::generated(SyncLifecycleEvent::CycleSettled, generation),
        )?;
        apply(
            &mut lifecycle,
            SyncLifecycleCommand::generated(SyncLifecycleEvent::ReleaseSettled, generation),
        )?;
        Ok(ui::render_with_lifecycle(probed, lifecycle.state()))
    }
}

/// The native desktop shell.
pub struct DesktopApp {
    config: DesktopConfig,
}

impl DesktopApp {
    pub closed spec fn spec_api_base(&self) -> Seq<char> {
        self.config.api_base@
    }

    pub fn new(config: DesktopConfig) -> (app: Self)
        ensures
            app.spec_api_base() == config.api_base@,
    {
        Self { config }
    }

    pub fn api_base(&self) -> (r: &str)
        ensures
            r@ == self.spec_api_base(),
    {
        self.config.api_base.as_str()
    }

    /// Drive a fresh lifecycle machine to the point where it authorizes one
    /// probe: wake, begin acquiring, and take the granted permit.
    pub fn begin_sync_cycle(&self) -> (r: Result<SyncCycle, DesktopAppError>)
        ensures
            r is Ok,
            r->Ok_0.spec_generation() == 1,
            r->Ok_0.spec_lifecycle() == spec_authorized(1),
            r->Ok_0.spec_endpoint() == self.spec_api_base(),
    {
        let mut lifecycle = SyncLifecycleMachine::default();
        apply(&mut lifecycle, SyncLifecycleCommand::new(SyncLifecycleEvent::Wake))?;
        let begin = apply(
            &mut lifecycle,
            SyncLifecycleCommand::new(SyncLifecycleEvent::BeginAcquire),
        )?;
        let generation = begin.after.generation;
        apply(
            &mut lifecycle,
            SyncLifecycleCommand::generated(SyncLifecycleEvent::AcquireGranted, generation),
        )?;
        if !lifecycle.state().may_run_sync_work() {
            return Err(DesktopAppError::SyncWorkNotAuthorized);
        }
        Ok(SyncCycle { lifecycle, generation, endpoint: self.config.api_base.clone() })
    }
}

} // verus!
