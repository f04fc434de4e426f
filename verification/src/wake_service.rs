//! The wake service: the cancellable loop that keeps the system awake.
//!
//! The service is a state machine. It performs no effect itself: each call
//! hands back the next `WakeAction`, the caller carries it out and reports the
//! outcome as a `WakeEvent`. One instance makes one run, from `Idle` through
//! the running phases to `Stopped`; a later run takes a new instance.

use crate::domain::ScreenMode;
use crate::error::AppError;
use crate::platform::{DisplayControl, PlatformCapabilities, PowerRequest};
use std::sync::atomic::{AtomicBool, Ordering};
use std::sync::Arc;
use vstd::prelude::*;
use vstd::string::*;

verus! {

/// Seconds the loop rests between two cycles.
pub const WAKE_INTERVAL_SECS: u64 = 60;

/// Where a run stands, by the outcome it waits for.
#[derive(Clone, Copy, PartialEq, Eq, Debug, Structural)]
pub enum ServicePhase {
    /// Not started.
    Idle,
    /// Waiting for the display mode to be applied.
    ApplyingDisplayMode,
    /// Waiting for the input simulation resource.
    AcquiringInput,
    /// Waiting for the value of the shared flag.
    CheckingFlag,
    /// Waiting for the simulated input event to be sent.
    EmittingInput,
    /// Waiting for the interval to pass.
    Sleeping,
    /// Waiting for the normal power policy to be restored.
    Restoring,
    /// The run is over.
    Stopped,
}

/// The three states of a service's life.
#[derive(Clone, Copy, PartialEq, Eq, Debug, Structural)]
pub enum ServiceState {
    Idle,
    Running,
    Stopped,
}

/// The plain part of a service's state.
#[derive(Clone, Copy, PartialEq, Eq, Debug, Structural)]
pub struct Progress {
    /// The outcome the service waits for.
    pub phase: ServicePhase,
    /// The screen mode of the run; the default mode while idle.
    pub mode: ScreenMode,
    /// Whether the run simulates input activity in every cycle.
    pub simulate_input: bool,
    /// Whether the input simulation resource could not be acquired.
    pub failed: bool,
}

/// What the caller reports to the service.
#[derive(Debug)]
pub enum WakeEvent {
    /// A run with this screen mode is asked for.
    Start(ScreenMode),
    /// The last action was carried out.
    Completed,
    /// The input simulation resource is ready.
    InputAcquired,
    /// The input simulation resource could not be acquired.
    InputUnavailable { cause: String },
    /// Sending the simulated input event failed.
    EmissionFailed,
    /// The shared flag was read and had this value.
    FlagRead(bool),
}

/// The kind of an action, without what it carries.
#[derive(Clone, Copy, PartialEq, Eq, Debug, Structural)]
pub enum WakeStep {
    ApplyDisplayMode(ScreenMode),
    AcquireInput,
    CheckFlag,
    EmitInput,
    Sleep,
    RestoreNormalMode,
    Finish { failed: bool },
    Nothing,
}

/// What the caller is to do next.
#[derive(Debug)]
pub enum WakeAction {
    /// Hand `request` to the operating system, then report `Completed`.
    ApplyDisplayMode { mode: ScreenMode, request: PowerRequest },
    /// Acquire the input simulation resource, then report `InputAcquired` or
    /// `InputUnavailable`.
    AcquireInput,
    /// Read the shared flag and report `FlagRead`.
    CheckFlag,
    /// Send one neutral input event, then report `Completed` or
    /// `EmissionFailed`.
    EmitInput,
    /// Rest for `seconds`, then report `Completed`.
    Sleep { seconds: u64 },
    /// Hand `request` to the operating system, then report `Completed`.
    RestoreNormalMode { request: PowerRequest },
    /// The run is over with this result.
    Finish(Result<(), AppError>),
    /// The event was not the one awaited; nothing changed.
    Nothing,
}

impl WakeAction {
    /// The kind of this action.
    pub open spec fn step(&self) -> WakeStep {
        match self {
            WakeAction::ApplyDisplayMode { mode, .. } => WakeStep::ApplyDisplayMode(*mode),
            WakeAction::AcquireInput => WakeStep::AcquireInput,
            WakeAction::CheckFlag => WakeStep::CheckFlag,
            WakeAction::EmitInput => WakeStep::EmitInput,
            WakeAction::Sleep { .. } => WakeStep::Sleep,
            WakeAction::RestoreNormalMode { .. } => WakeStep::RestoreNormalMode,
            WakeAction::Finish(result) => WakeStep::Finish { failed: result is Err },
            WakeAction::Nothing => WakeStep::Nothing,
        }
    }
}

/// The state of a service that has not started.
pub open spec fn idle_progress() -> Progress {
    Progress {
        phase: ServicePhase::Idle,
        mode: ScreenMode::AllowScreenOff,
        simulate_input: false,
        failed: false,
    }
}

/// The wake strategy: whether a run has to simulate input activity. Where the
/// platform has a strong sleep-prevention primitive this is so only for
/// `KeepScreenOn`; elsewhere it is always so.
pub open spec fn input_simulation_needed(
    platform: PlatformCapabilities,
    mode: ScreenMode,
) -> bool {
    !platform.supports_strong_sleep_primitive || mode == ScreenMode::KeepScreenOn
}

/// The state of life that a phase belongs to.
pub open spec fn state_of(phase: ServicePhase) -> ServiceState {
    match phase {
        ServicePhase::Idle => ServiceState::Idle,
        ServicePhase::Stopped => ServiceState::Stopped,
        _ => ServiceState::Running,
    }
}

/// The state of the service after `event` was reported in state `p`.
pub open spec fn react(platform: PlatformCapabilities, p: Progress, event: WakeEvent) -> Progress {
    match (p.phase, event) {
        (ServicePhase::Idle, WakeEvent::Start(mode)) => Progress {
            phase: ServicePhase::ApplyingDisplayMode,
            mode,
            simulate_input: input_simulation_needed(platform, mode),
            failed: false,
        },
        (ServicePhase::ApplyingDisplayMode, WakeEvent::Completed) => Progress {
            phase: if p.simulate_input {
                ServicePhase::AcquiringInput
            } else {
                ServicePhase::CheckingFlag
            },
            ..p
        },
        (ServicePhase::AcquiringInput, WakeEvent::InputAcquired) => Progress {
            phase: ServicePhase::CheckingFlag,
            ..p
        },
        (ServicePhase::AcquiringInput, WakeEvent::InputUnavailable { .. }) => Progress {
            phase: ServicePhase::Restoring,
            failed: true,
            ..p
        },
        (ServicePhase::CheckingFlag, WakeEvent::FlagRead(true)) => Progress {
            phase: if p.simulate_input {
                ServicePhase::EmittingInput
            } else {
                ServicePhase::Sleeping
            },
            ..p
        },
        (ServicePhase::CheckingFlag, WakeEvent::FlagRead(false)) => Progress {
            phase: ServicePhase::Restoring,
            ..p
        },
        (ServicePhase::EmittingInput, WakeEvent::Completed) => Progress {
            phase: ServicePhase::Sleeping,
            ..p
        },
        (ServicePhase::EmittingInput, WakeEvent::EmissionFailed) => Progress {
            phase: ServicePhase::Sleeping,
            ..p
        },
        (ServicePhase::Sleeping, WakeEvent::Completed) => Progress {
            phase: ServicePhase::CheckingFlag,
            ..p
        },
        (ServicePhase::Restoring, WakeEvent::Completed) => Progress {
            phase: ServicePhase::Stopped,
            ..p
        },
        _ => p,
    }
}

/// The action that a phase opens with.
pub open spec fn step_of(p: Progress) -> WakeStep {
    match p.phase {
        ServicePhase::Idle => WakeStep::Nothing,
        ServicePhase::ApplyingDisplayMode => WakeStep::ApplyDisplayMode(p.mode),
        ServicePhase::AcquiringInput => WakeStep::AcquireInput,
        ServicePhase::CheckingFlag => WakeStep::CheckFlag,
        ServicePhase::EmittingInput => WakeStep::EmitInput,
        ServicePhase::Sleeping => WakeStep::Sleep,
        ServicePhase::Restoring => WakeStep::RestoreNormalMode,
        ServicePhase::Stopped => WakeStep::Finish { failed: p.failed },
    }
}

/// The kind of action that the service answers `event` with in state `p`:
/// the opening action of the phase it enters, and nothing where the event
/// was not awaited.
pub open spec fn step_issued(
    platform: PlatformCapabilities,
    p: Progress,
    event: WakeEvent,
) -> WakeStep {
    let q = react(platform, p, event);
    if q.phase == p.phase {
        WakeStep::Nothing
    } else {
        step_of(q)
    }
}

/// The state of the service after `events` were reported in order, from state `p`.
pub open spec fn progress_after(
    platform: PlatformCapabilities,
    p: Progress,
    events: Seq<WakeEvent>,
) -> Progress
    decreases events.len(),
{
    if events.len() == 0 {
        p
    } else {
        react(platform, progress_after(platform, p, events.drop_last()), events.last())
    }
}

/// The kinds of the actions that the service answers `events` with, one for
/// each event, from state `p`.
pub open spec fn steps_after(
    platform: PlatformCapabilities,
    p: Progress,
    events: Seq<WakeEvent>,
) -> Seq<WakeStep>
    decreases events.len(),
{
    if events.len() == 0 {
        Seq::empty()
    } else {
        steps_after(platform, p, events.drop_last()).push(
            step_issued(
                platform,
                progress_after(platform, p, events.drop_last()),
                events.last(),
            ),
        )
    }
}

/// How often `steps` ask for a display mode to be applied.
pub open spec fn applications(steps: Seq<WakeStep>) -> nat
    decreases steps.len(),
{
    if steps.len() == 0 {
        0
    } else {
        applications(steps.drop_last()) + if steps.last() is ApplyDisplayMode {
            1nat
        } else {
            0nat
        }
    }
}

/// How often `steps` ask for the normal power policy to be restored.
pub open spec fn restorations(steps: Seq<WakeStep>) -> nat
    decreases steps.len(),
{
    if steps.len() == 0 {
        0
    } else {
        restorations(steps.drop_last()) + if steps.last() is RestoreNormalMode {
            1nat
        } else {
            0nat
        }
    }
}

/// How often `steps` ask for input: for the resource or for an input event.
pub open spec fn input_requests(steps: Seq<WakeStep>) -> nat
    decreases steps.len(),
{
    if steps.len() == 0 {
        0
    } else {
        input_requests(steps.drop_last()) + if steps.last() is AcquireInput
            || steps.last() is EmitInput {
            1nat
        } else {
            0nat
        }
    }
}

/// The error of a run whose input simulation resource was not to be had.
pub open spec fn is_input_failure(error: AppError, cause: Seq<char>) -> bool {
    &&& error is InputSimulation
    &&& error.message() == "Failed to initialize input simulator"@
    &&& error.cause() == cause
    &&& error.hint()
        == "Ensure the application has necessary permissions for input simulation."@
}

/// Service that keeps the system awake through one run of the wake loop.
pub struct WakeService<C: DisplayControl> {
    /// Shared flag: the loop goes on while it is true.
    running: Arc<AtomicBool>,
    /// What the platform offers.
    platform: PlatformCapabilities,
    /// The platform's display controller.
    display_controller: C,
    /// Where the run stands.
    progress: Progress,
    /// Why the input simulation resource was not to be had, if it was not.
    failure_cause: String,
}

impl<C: DisplayControl> WakeService<C> {
    /// Where the run stands.
    pub closed spec fn progress(&self) -> Progress {
        self.progress
    }

    /// The shared flag the service reads: the one it was made with.
    pub closed spec fn flag(&self) -> Arc<AtomicBool> {
        self.running
    }

    /// The capabilities the service was made for.
    pub closed spec fn platform(&self) -> PlatformCapabilities {
        self.platform
    }

    /// The display controller the service owns.
    pub closed spec fn controller(&self) -> C {
        self.display_controller
    }

    /// The cause of the input failure; empty while there was none.
    pub closed spec fn failure_cause(&self) -> Seq<char> {
        self.failure_cause@
    }

    /// What `action` carries fits the service: the power requests are those
    /// of its display controller, the interval is the fixed one, and a run
    /// finishes with an error exactly if it failed to acquire input.
    pub open spec fn carries(&self, action: WakeAction) -> bool {
        match action {
            WakeAction::ApplyDisplayMode { mode, request } => request
                == self.controller().mode_request(mode),
            WakeAction::RestoreNormalMode { request } => request
                == self.controller().normal_request(),
            WakeAction::Sleep { seconds } => seconds == WAKE_INTERVAL_SECS,
            WakeAction::Finish(Err(error)) => is_input_failure(error, self.failure_cause()),
            _ => true,
        }
    }

    /// A new, idle service on the shared flag `running`.
    pub fn new(
        running: Arc<AtomicBool>,
        display_controller: C,
        platform: PlatformCapabilities,
    ) -> (service: Self)
        ensures
            service.flag() == running,
            service.progress() == idle_progress(),
            service.platform() == platform,
            service.controller() == display_controller,
            service.failure_cause() == Seq::<char>::empty(),
    {
        WakeService {
            running,
            platform,
            display_controller,
            progress: Progress {
                phase: ServicePhase::Idle,
                mode: ScreenMode::AllowScreenOff,
                simulate_input: false,
                failed: false,
            },
            failure_cause: String::new(),
        }
    }

    /// The phase the service is in.
    pub fn phase(&self) -> (phase: ServicePhase)
        ensures
            phase == self.progress().phase,
    {
        self.progress.phase
    }

    /// Whether the service is idle, running or stopped.
    pub fn state(&self) -> (state: ServiceState)
        ensures
            state == state_of(self.progress().phase),
    {
        match self.progress.phase {
            ServicePhase::Idle => ServiceState::Idle,
            ServicePhase::Stopped => ServiceState::Stopped,
            _ => ServiceState::Running,
        }
    }

    /// Reads the shared flag for a `CheckFlag` action, and never writes it.
    /// The value is whatever the control layer stored last, so nothing is
    /// promised of it.
    pub fn read_flag(&self) -> (event: WakeEvent)
        ensures
            event is FlagRead,
    {
        WakeEvent::FlagRead(self.running.load(Ordering::SeqCst))
    }

    /// Begins the run with `screen_mode`: the first action applies the
    /// display mode. On a service that has already started nothing happens.
    pub fn run(&mut self, screen_mode: ScreenMode) -> (action: WakeAction)
        ensures
            final(self).progress() == react(
                old(self).platform(),
                old(self).progress(),
                WakeEvent::Start(screen_mode),
            ),
            action.step() == step_issued(
                old(self).platform(),
                old(self).progress(),
                WakeEvent::Start(screen_mode),
            ),
            final(self).flag() == old(self).flag(),
            final(self).platform() == old(self).platform(),
            final(self).controller() == old(self).controller(),
            final(self).failure_cause() == old(self).failure_cause(),
            final(self).carries(action),
    {
        self.advance(WakeEvent::Start(screen_mode))
    }

    /// Takes the outcome of the last action and hands back the next one.
    /// An event that the current phase does not wait for changes nothing and
    /// is answered with `Nothing`.
    pub fn advance(&mut self, event: WakeEvent) -> (action: WakeAction)
        ensures
            final(self).progress() == react(old(self).platform(), old(self).progress(), event),
            action.step() == step_issued(old(self).platform(), old(self).progress(), event),
            final(self).flag() == old(self).flag(),
            final(self).platform() == old(self).platform(),
            final(self).controller() == old(self).controller(),
            final(self).failure_cause() == (match (old(self).progress().phase, event) {
                (ServicePhase::AcquiringInput, WakeEvent::InputUnavailable { cause }) => cause@,
                _ => old(self).failure_cause(),
            }),
            final(self).carries(action),
    {
        match self.progress.phase {
            ServicePhase::Idle => match event {
                WakeEvent::Start(mode) => {
                    self.progress.phase = ServicePhase::ApplyingDisplayMode;
                    self.progress.mode = mode;
                    self.progress.simulate_input = needs_input_simulation(self.platform, mode);
                    self.progress.failed = false;
                    let request = self.display_controller.set_display_mode(mode);
                    WakeAction::ApplyDisplayMode { mode, request }
                },
                _ => WakeAction::Nothing,
            },
            ServicePhase::ApplyingDisplayMode => match event {
                WakeEvent::Completed => {
                    if self.progress.simulate_input {
                        self.progress.phase = ServicePhase::AcquiringInput;
                        WakeAction::AcquireInput
                    } else {
                        self.progress.phase = ServicePhase::CheckingFlag;
                        WakeAction::CheckFlag
                    }
                },
                _ => WakeAction::Nothing,
            },
            ServicePhase::AcquiringInput => match event {
                WakeEvent::InputAcquired => {
                    self.progress.phase = ServicePhase::CheckingFlag;
                    WakeAction::CheckFlag
                },
                WakeEvent::InputUnavailable { cause } => {
                    self.progress.phase = ServicePhase::Restoring;
                    self.progress.failed = true;
                    self.failure_cause = cause;
                    let request = self.display_controller.restore_normal_mode();
                    WakeAction::RestoreNormalMode { request }
                },
                _ => WakeAction::Nothing,
            },
            ServicePhase::CheckingFlag => match event {
                WakeEvent::FlagRead(true) => {
                    if self.progress.simulate_input {
                        self.progress.phase = ServicePhase::EmittingInput;
                        WakeAction::EmitInput
                    } else {
                        self.progress.phase = ServicePhase::Sleeping;
                        WakeAction::Sleep { seconds: WAKE_INTERVAL_SECS }
                    }
                },
                WakeEvent::FlagRead(false) => {
                    self.progress.phase = ServicePhase::Restoring;
                    let request = self.display_controller.restore_normal_mode();
                    WakeAction::RestoreNormalMode { request }
                },
                _ => WakeAction::Nothing,
            },
            ServicePhase::EmittingInput => match event {
                WakeEvent::Completed | WakeEvent::EmissionFailed => {
                    self.progress.phase = ServicePhase::Sleeping;
                    WakeAction::Sleep { seconds: WAKE_INTERVAL_SECS }
                },
                _ => WakeAction::Nothing,
            },
            ServicePhase::Sleeping => match event {
                WakeEvent::Completed => {
                    self.progress.phase = ServicePhase::CheckingFlag;
                    WakeAction::CheckFlag
                },
                _ => WakeAction::Nothing,
            },
            ServicePhase::Restoring => match event {
                WakeEvent::Completed => {
                    self.progress.phase = ServicePhase::Stopped;
                    if self.progress.failed {
                        WakeAction::Finish(
                            Err(
                                AppError::InputSimulation {
                                    message: String::from_str(
                                        "Failed to initialize input simulator",
                                    ),
                                    cause: self.failure_cause.clone(),
                                    recovery_hint: "Ensure the application has necessary permissions for input simulation.",
                                },
                            ),
                        )
                    } else {
                        WakeAction::Finish(Ok(()))
                    }
                },
                _ => WakeAction::Nothing,
            },
            ServicePhase::Stopped => WakeAction::Nothing,
        }
    }
}

/// Decides the wake strategy: whether a run with `mode` on `platform` has to
/// simulate input activity.
pub fn needs_input_simulation(platform: PlatformCapabilities, mode: ScreenMode) -> (needed: bool)
    ensures
        needed == input_simulation_needed(platform, mode),
{
    !platform.supports_strong_sleep_primitive || mode.should_keep_display_on()
}

} // verus!
