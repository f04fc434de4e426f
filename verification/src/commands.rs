//! The control layer: toggling the wake state and changing the screen mode.
//!
//! Each operation comes in two parts. The first changes the in-memory state
//! and hands back the snapshot to persist. The second takes what came of
//! persisting it and hands back what is left to do: nothing, starting a wake
//! service, or restarting the running one.

use crate::domain::ScreenMode;
use crate::error::AppError;
use crate::persistence::{mode_name, stored_mode_name, AppState};
use crate::platform::{get_display_controller, DisplayController, PlatformCapabilities};
use crate::wake_service::{idle_progress, WakeService};
use std::sync::atomic::AtomicBool;
use std::sync::Arc;
use vstd::prelude::*;
use vstd::string::*;

verus! {

/// Milliseconds between clearing and setting the flag again in a restart, so
/// that the running loop sees the cleared flag and exits.
pub const SETTLE_DELAY_MILLIS: u64 = 100;

/// The mode value behind its lock, as an operation finds it.
#[derive(Clone, Copy, PartialEq, Eq, Debug, Structural)]
pub struct ModeCell {
    /// The mode that was stored last.
    pub mode: ScreenMode,
    /// Whether the lock is poisoned, so that the mode cannot be had or set.
    pub poisoned: bool,
}

/// The state that the control layer and the wake service share.
#[derive(Clone, Copy, PartialEq, Eq, Debug, Structural)]
pub struct AppStateManager {
    /// Whether the wake loop is to keep running.
    pub is_awake: bool,
    /// The current screen mode preference.
    pub screen_mode: ModeCell,
}

/// What is left to do after an operation, in this order.
#[derive(Clone, Copy, PartialEq, Eq, Debug, Structural)]
pub enum ControlAction {
    /// Store this value in the shared flag.
    StoreFlag(bool),
    /// Block for this long.
    Settle { millis: u64 },
    /// Make a new wake service with this mode and run it in the background.
    StartService(ScreenMode),
}

/// The state after a toggle: the flag negated, the mode cell untouched.
pub open spec fn toggled(state: AppStateManager) -> AppStateManager {
    AppStateManager { is_awake: !state.is_awake, ..state }
}

/// Whether a change to `new_mode` goes through: the platform has to support
/// the mode, and the mode cell must not be poisoned.
pub open spec fn mode_change_accepted(
    state: AppStateManager,
    new_mode: ScreenMode,
    platform: PlatformCapabilities,
) -> bool {
    new_mode.supported_on(platform) && !state.screen_mode.poisoned
}

/// The state after a change of mode to one that the platform supports: a
/// cell that is not poisoned holds the new mode, a poisoned one is left as
/// it was.
pub open spec fn with_mode(state: AppStateManager, new_mode: ScreenMode) -> AppStateManager {
    if state.screen_mode.poisoned {
        state
    } else {
        AppStateManager {
            screen_mode: ModeCell { mode: new_mode, poisoned: false },
            ..state
        }
    }
}

/// The snapshot of a state whose mode cell can be read.
pub open spec fn snapshot_of(state: AppStateManager) -> AppState {
    AppState { sleep_disabled: state.is_awake, screen_mode: state.screen_mode.mode }
}

/// The message for a poisoned lock met during `operation`.
pub open spec fn poisoned_message(operation: Seq<char>) -> Seq<char> {
    "Mutex poisoned during "@ + operation
        + ": poisoned lock: another task failed inside"@
}

/// The message for a mode that the platform does not support.
pub open spec fn unsupported_message(mode: ScreenMode) -> Seq<char> {
    "Screen mode "@ + stored_mode_name(mode) + " is not supported on this platform"@
}

/// The message for a state that could not be persisted.
pub open spec fn persist_failure_message(error: AppError) -> Seq<char> {
    "Failed to persist state: "@ + error.description()
}

/// Every service that `actions` start runs with a mode that the platform
/// supports.
pub open spec fn starts_only_supported(
    actions: Seq<ControlAction>,
    platform: PlatformCapabilities,
) -> bool {
    forall|i: int|
        0 <= i < actions.len() ==> (#[trigger] actions[i] matches ControlAction::StartService(mode)
            ==> mode.supported_on(platform))
}

/// The in-memory state to begin with after a state was loaded: the flag as
/// loaded, and the loaded mode where the platform supports it, `KeepScreenOn`
/// where it does not.
pub open spec fn state_at_startup(loaded: AppState, platform: PlatformCapabilities) -> AppStateManager {
    AppStateManager {
        is_awake: loaded.sleep_disabled,
        screen_mode: ModeCell { mode: loaded.screen_mode.effective_on(platform), poisoned: false },
    }
}

/// What is left to do at startup: a service is started exactly when the
/// loaded state has sleep prevention on, with the mode of `state_at_startup`.
pub open spec fn startup_actions(loaded: AppState, platform: PlatformCapabilities) -> Seq<
    ControlAction,
> {
    if loaded.sleep_disabled {
        seq![ControlAction::StartService(loaded.screen_mode.effective_on(platform))]
    } else {
        Seq::empty()
    }
}

/// What is left to do after a toggle was persisted: a service is started
/// exactly when the toggle switched sleep prevention on. It runs with the
/// current mode, or with `KeepScreenOn` should the platform not support that.
pub open spec fn toggle_actions(snapshot: AppState, platform: PlatformCapabilities) -> Seq<
    ControlAction,
> {
    if snapshot.sleep_disabled {
        seq![ControlAction::StartService(snapshot.screen_mode.effective_on(platform))]
    } else {
        Seq::empty()
    }
}

/// What is left to do after a change of mode was persisted: while awake the
/// loop is restarted, by clearing the flag, waiting, setting it again and
/// starting a service with the new mode, or with `KeepScreenOn` should the
/// platform not support that.
pub open spec fn mode_change_actions(snapshot: AppState, platform: PlatformCapabilities) -> Seq<
    ControlAction,
> {
    if snapshot.sleep_disabled {
        seq![
            ControlAction::StoreFlag(false),
            ControlAction::Settle { millis: SETTLE_DELAY_MILLIS },
            ControlAction::StoreFlag(true),
            ControlAction::StartService(snapshot.screen_mode.effective_on(platform)),
        ]
    } else {
        Seq::empty()
    }
}

fn unsupported_error(mode: ScreenMode) -> (message: String)
    ensures
        message@ == unsupported_message(mode),
{
    let mut message = String::from_str("Screen mode ");
    message.append(mode_name(mode));
    message.append(" is not supported on this platform");
    message
}

fn poisoned_error(operation: &str) -> (message: String)
    ensures
        message@ == poisoned_message(operation@),
{
    let mut message = String::from_str("Mutex poisoned during ");
    message.append(operation);
    message.append(": poisoned lock: another task failed inside");
    message
}

fn persist_error(error: &AppError) -> (message: String)
    ensures
        message@ == persist_failure_message(*error),
{
    let mut message = String::from_str("Failed to persist state: ");
    let description = error.describe();
    message.append(description.as_str());
    message
}

/// Toggles sleep prevention. The flag is negated in any case. With a mode
/// cell that can be read the result is the snapshot to persist; with a
/// poisoned one it is an error, and the flag stays negated.
pub fn toggle_sleep_impl(state: &mut AppStateManager) -> (result: Result<AppState, String>)
    ensures
        *final(state) == toggled(*old(state)),
        !old(state).screen_mode.poisoned ==> result == Ok::<AppState, String>(
            snapshot_of(toggled(*old(state))),
        ),
        old(state).screen_mode.poisoned ==> result is Err && result->Err_0@ == poisoned_message(
            "toggle_sleep"@,
        ),
{
    state.is_awake = !state.is_awake;
    if state.screen_mode.poisoned {
        return Err(poisoned_error("toggle_sleep"));
    }
    Ok(AppState { sleep_disabled: state.is_awake, screen_mode: state.screen_mode.mode })
}

/// Concludes a toggle once its snapshot was handed to storage. A failure to
/// persist is reported and nothing is started; the in-memory state stays as
/// the toggle left it. No service is started with a mode that the platform
/// does not support.
pub fn finish_toggle_sleep(
    snapshot: AppState,
    persisted: Result<(), AppError>,
    platform: PlatformCapabilities,
) -> (result: Result<Vec<ControlAction>, String>)
    ensures
        persisted is Ok ==> result is Ok && result->Ok_0@ == toggle_actions(snapshot, platform),
        persisted is Err ==> result is Err && result->Err_0@ == persist_failure_message(
            persisted->Err_0,
        ),
        result is Ok ==> starts_only_supported(result->Ok_0@, platform),
{
    match persisted {
        Ok(_) => {
            let mut actions: Vec<ControlAction> = Vec::new();
            if snapshot.sleep_disabled {
                actions.push(ControlAction::StartService(snapshot.screen_mode.effective(platform)));
            }
            assert(actions@ =~= toggle_actions(snapshot, platform));
            Ok(actions)
        },
        Err(error) => Err(persist_error(&error)),
    }
}

/// Changes the screen mode. The lock comes first: with a poisoned mode cell
/// the result is the error of the lock, whatever mode is asked for. With a
/// cell that can be written, a mode that the platform does not support is
/// rejected, and any other mode goes into the cell and into the snapshot to
/// persist. On an error the state stays as it was.
pub fn change_screen_mode_impl(
    state: &mut AppStateManager,
    new_mode: ScreenMode,
    platform: PlatformCapabilities,
) -> (result: Result<AppState, String>)
    ensures
        result is Ok <==> mode_change_accepted(*old(state), new_mode, platform),
        result is Ok ==> *final(state) == with_mode(*old(state), new_mode) && result->Ok_0
            == (AppState { sleep_disabled: old(state).is_awake, screen_mode: new_mode }),
        result is Err ==> *final(state) == *old(state),
        old(state).screen_mode.poisoned <==> result is Err && result->Err_0@ == poisoned_message(
            "change_screen_mode"@,
        ),
        !old(state).screen_mode.poisoned && !new_mode.supported_on(platform) <==> result is Err
            && result->Err_0@ == unsupported_message(new_mode),
{
    proof {
        messages_differ(new_mode, "change_screen_mode"@);
    }
    if state.screen_mode.poisoned {
        return Err(poisoned_error("change_screen_mode"));
    }
    if !new_mode.is_supported(platform) {
        return Err(unsupported_error(new_mode));
    }
    state.screen_mode.mode = new_mode;
    Ok(AppState { sleep_disabled: state.is_awake, screen_mode: new_mode })
}

/// Concludes a change of mode once its snapshot was handed to storage. A
/// failure to persist is reported and the loop is not restarted. No service
/// is started with a mode that the platform does not support.
pub fn finish_change_screen_mode(
    snapshot: AppState,
    persisted: Result<(), AppError>,
    platform: PlatformCapabilities,
) -> (result: Result<Vec<ControlAction>, String>)
    ensures
        persisted is Ok ==> result is Ok && result->Ok_0@ == mode_change_actions(
            snapshot,
            platform,
        ),
        persisted is Err ==> result is Err && result->Err_0@ == persist_failure_message(
            persisted->Err_0,
        ),
        result is Ok ==> starts_only_supported(result->Ok_0@, platform),
{
    match persisted {
        Ok(_) => {
            let mut actions: Vec<ControlAction> = Vec::new();
            if snapshot.sleep_disabled {
                actions.push(ControlAction::StoreFlag(false));
                actions.push(ControlAction::Settle { millis: SETTLE_DELAY_MILLIS });
                actions.push(ControlAction::StoreFlag(true));
                actions.push(ControlAction::StartService(snapshot.screen_mode.effective(platform)));
            }
            assert(actions@ =~= mode_change_actions(snapshot, platform));
            Ok(actions)
        },
        Err(error) => Err(persist_error(&error)),
    }
}

/// The in-memory state to begin with after `loaded` came from storage. Its
/// mode is one that the platform supports.
pub fn initial_state(loaded: AppState, platform: PlatformCapabilities) -> (state: AppStateManager)
    ensures
        state == state_at_startup(loaded, platform),
        state.screen_mode.mode.supported_on(platform),
{
    AppStateManager {
        is_awake: loaded.sleep_disabled,
        screen_mode: ModeCell { mode: loaded.screen_mode.effective(platform), poisoned: false },
    }
}

/// What is left to do once the state was loaded at startup: a service is
/// started exactly when sleep prevention was on, and never with a mode that
/// the platform does not support.
pub fn start_up(loaded: AppState, platform: PlatformCapabilities) -> (actions: Vec<ControlAction>)
    ensures
        actions@ == startup_actions(loaded, platform),
        starts_only_supported(actions@, platform),
{
    let mut actions: Vec<ControlAction> = Vec::new();
    if loaded.sleep_disabled {
        actions.push(ControlAction::StartService(loaded.screen_mode.effective(platform)));
    }
    assert(actions@ =~= startup_actions(loaded, platform));
    actions
}

/// The current wake state and screen mode, or an error if the mode cell is
/// poisoned.
pub fn get_state(state: &AppStateManager) -> (result: Result<(bool, ScreenMode), String>)
    ensures
        !state.screen_mode.poisoned ==> result == Ok::<(bool, ScreenMode), String>(
            (state.is_awake, state.screen_mode.mode),
        ),
        state.screen_mode.poisoned ==> result is Err && result->Err_0@ == poisoned_message(
            "get_state"@,
        ),
{
    if state.screen_mode.poisoned {
        return Err(poisoned_error("get_state"));
    }
    Ok((state.is_awake, state.screen_mode.mode))
}

/// Clears the flag for a quit, so that a running loop exits.
pub fn quit(state: &mut AppStateManager)
    ensures
        !final(state).is_awake,
        final(state).screen_mode == old(state).screen_mode,
{
    state.is_awake = false;
}

/// Makes the wake service for a run on the shared flag `is_awake`, with the
/// display controller of the platform. The service holds the flag that was
/// passed in and is idle; the caller runs it in the background with the mode
/// of the `StartService` action.
pub fn start_wake_service(is_awake: Arc<AtomicBool>, platform: PlatformCapabilities) -> (service:
    WakeService<DisplayController>)
    ensures
        service.flag() == is_awake,
        service.progress() == idle_progress(),
        service.platform() == platform,
        platform.supports_strong_sleep_primitive ==> service.controller() is Windows,
        !platform.supports_strong_sleep_primitive ==> service.controller() is NoOp,
{
    let display_controller = get_display_controller(platform);
    WakeService::new(is_awake, display_controller, platform)
}

/// Toggling twice gives back the state that was there before.
pub proof fn toggle_is_involution(state: AppStateManager)
    ensures
        toggled(toggled(state)) == state,
        snapshot_of(toggled(toggled(state))) == snapshot_of(state),
{
}

/// A toggle never touches the mode, and a change of mode never touches the
/// flag.
pub proof fn toggle_and_mode_change_are_independent(state: AppStateManager, new_mode: ScreenMode)
    ensures
        toggled(state).screen_mode == state.screen_mode,
        with_mode(state, new_mode).is_awake == state.is_awake,
        with_mode(toggled(state), new_mode) == toggled(with_mode(state, new_mode)),
{
}

/// The two errors of a change of mode never read the same.
pub proof fn messages_differ(mode: ScreenMode, operation: Seq<char>)
    ensures
        unsupported_message(mode) != poisoned_message(operation),
{
    reveal_strlit("Screen mode ");
    reveal_strlit("Mutex poisoned during ");
    assert(unsupported_message(mode)[0] == 'S');
    assert(poisoned_message(operation)[0] == 'M');
}

/// A mode that the platform does not support never gets into the state, and
/// no service is ever started with one: a state that begins as
/// `state_at_startup` holds a supported mode, a toggle and a change of mode
/// keep it so whatever mode is asked for, and what is left to do after
/// either, or at startup, starts services with supported modes only.
pub proof fn unsupported_mode_is_never_run(
    state: AppStateManager,
    loaded: AppState,
    new_mode: ScreenMode,
    platform: PlatformCapabilities,
)
    ensures
        state_at_startup(loaded, platform).screen_mode.mode.supported_on(platform),
        state.screen_mode.mode.supported_on(platform) ==> toggled(
            state,
        ).screen_mode.mode.supported_on(platform),
        state.screen_mode.mode.supported_on(platform) && mode_change_accepted(
            state,
            new_mode,
            platform,
        ) ==> with_mode(state, new_mode).screen_mode.mode.supported_on(platform),
        starts_only_supported(startup_actions(loaded, platform), platform),
        starts_only_supported(toggle_actions(loaded, platform), platform),
        starts_only_supported(mode_change_actions(loaded, platform), platform),
{
}

} // verus!
