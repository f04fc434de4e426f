//! What holds of every run of the wake service.

use crate::domain::ScreenMode;
use crate::platform::PlatformCapabilities;
use crate::wake_service::{
    applications, idle_progress, input_requests, input_simulation_needed, progress_after, react,
    restorations, state_of, step_issued, steps_after, Progress, ServicePhase, ServiceState,
    WakeEvent, WakeStep,
};
use vstd::prelude::*;

verus! {

/// The events of a run that finds the flag cleared at its first check and
/// meets no failure.
pub open spec fn run_without_cycle(platform: PlatformCapabilities, mode: ScreenMode) -> Seq<
    WakeEvent,
> {
    if input_simulation_needed(platform, mode) {
        seq![
            WakeEvent::Start(mode),
            WakeEvent::Completed,
            WakeEvent::InputAcquired,
            WakeEvent::FlagRead(false),
            WakeEvent::Completed,
        ]
    } else {
        seq![
            WakeEvent::Start(mode),
            WakeEvent::Completed,
            WakeEvent::FlagRead(false),
            WakeEvent::Completed,
        ]
    }
}

/// Reporting one more event applies `react` to the state and appends the
/// kind of the action that answers it.
pub proof fn one_more_event(
    platform: PlatformCapabilities,
    p: Progress,
    events: Seq<WakeEvent>,
    event: WakeEvent,
)
    ensures
        progress_after(platform, p, events.push(event)) == react(
            platform,
            progress_after(platform, p, events),
            event,
        ),
        steps_after(platform, p, events.push(event)) == steps_after(platform, p, events).push(
            step_issued(platform, progress_after(platform, p, events), event),
        ),
{
    assert(events.push(event).drop_last() =~= events);
}

/// A service that is started while the flag is already cleared applies the
/// display mode once, goes through no cycle of the loop, restores the normal
/// mode once and finishes with success.
pub proof fn cleared_flag_at_start_skips_the_loop(platform: PlatformCapabilities, mode: ScreenMode)
    ensures
        steps_after(platform, idle_progress(), run_without_cycle(platform, mode)) == (
        if input_simulation_needed(platform, mode) {
            seq![
                WakeStep::ApplyDisplayMode(mode),
                WakeStep::AcquireInput,
                WakeStep::CheckFlag,
                WakeStep::RestoreNormalMode,
                WakeStep::Finish { failed: false },
            ]
        } else {
            seq![
                WakeStep::ApplyDisplayMode(mode),
                WakeStep::CheckFlag,
                WakeStep::RestoreNormalMode,
                WakeStep::Finish { failed: false },
            ]
        }),
        progress_after(platform, idle_progress(), run_without_cycle(platform, mode)).phase
            == ServicePhase::Stopped,
{
    let start = idle_progress();
    let none = Seq::<WakeEvent>::empty();
    let applied = none.push(WakeEvent::Start(mode)).push(WakeEvent::Completed);
    one_more_event(platform, start, none, WakeEvent::Start(mode));
    one_more_event(platform, start, none.push(WakeEvent::Start(mode)), WakeEvent::Completed);
    let checking = if input_simulation_needed(platform, mode) {
        one_more_event(platform, start, applied, WakeEvent::InputAcquired);
        applied.push(WakeEvent::InputAcquired)
    } else {
        applied
    };
    one_more_event(platform, start, checking, WakeEvent::FlagRead(false));
    one_more_event(
        platform,
        start,
        checking.push(WakeEvent::FlagRead(false)),
        WakeEvent::Completed,
    );
    let events = checking.push(WakeEvent::FlagRead(false)).push(WakeEvent::Completed);
    assert(events =~= run_without_cycle(platform, mode));
    assert(steps_after(platform, start, events) =~= (if input_simulation_needed(platform, mode) {
        seq![
            WakeStep::ApplyDisplayMode(mode),
            WakeStep::AcquireInput,
            WakeStep::CheckFlag,
            WakeStep::RestoreNormalMode,
            WakeStep::Finish { failed: false },
        ]
    } else {
        seq![
            WakeStep::ApplyDisplayMode(mode),
            WakeStep::CheckFlag,
            WakeStep::RestoreNormalMode,
            WakeStep::Finish { failed: false },
        ]
    }));
}

/// Whatever is reported to a service, from its creation on: the display mode
/// is applied once as soon as the run has begun and never again, and the
/// normal mode is restored once as soon as the loop has ended and never
/// again. A stopped service has therefore done each exactly once, also where
/// it stopped because no input was to be had.
pub proof fn display_mode_applied_and_restored_once(
    platform: PlatformCapabilities,
    events: Seq<WakeEvent>,
)
    ensures
        applications(steps_after(platform, idle_progress(), events)) == (if progress_after(
            platform,
            idle_progress(),
            events,
        ).phase == ServicePhase::Idle {
            0nat
        } else {
            1nat
        }),
        restorations(steps_after(platform, idle_progress(), events)) == (if progress_after(
            platform,
            idle_progress(),
            events,
        ).phase == ServicePhase::Restoring || progress_after(
            platform,
            idle_progress(),
            events,
        ).phase == ServicePhase::Stopped {
            1nat
        } else {
            0nat
        }),
    decreases events.len(),
{
    if events.len() > 0 {
        let start = idle_progress();
        let earlier = events.drop_last();
        display_mode_applied_and_restored_once(platform, earlier);
        assert(events =~= earlier.push(events.last()));
        one_more_event(platform, start, earlier, events.last());
        assert(steps_after(platform, start, events).drop_last() =~= steps_after(
            platform,
            start,
            earlier,
        ));
    }
}

/// Whatever is reported to a service, the wake strategy is fixed when the run
/// begins, and a run that needs no input simulation never asks for input.
pub proof fn strategy_is_fixed_at_start(platform: PlatformCapabilities, events: Seq<WakeEvent>)
    ensures
        ({
            let end = progress_after(platform, idle_progress(), events);
            &&& end.phase == ServicePhase::Idle ==> end == idle_progress()
            &&& end.phase == ServicePhase::AcquiringInput || end.phase
                == ServicePhase::EmittingInput ==> end.simulate_input
            &&& end.phase != ServicePhase::Idle ==> end.simulate_input == input_simulation_needed(
                platform,
                end.mode,
            )
            &&& !end.simulate_input ==> input_requests(
                steps_after(platform, idle_progress(), events),
            ) == 0
            &&& end.failed ==> end.simulate_input && (end.phase == ServicePhase::Restoring
                || end.phase == ServicePhase::Stopped)
        }),
    decreases events.len(),
{
    if events.len() > 0 {
        let start = idle_progress();
        let earlier = events.drop_last();
        strategy_is_fixed_at_start(platform, earlier);
        assert(events =~= earlier.push(events.last()));
        one_more_event(platform, start, earlier, events.last());
        assert(steps_after(platform, start, events).drop_last() =~= steps_after(
            platform,
            start,
            earlier,
        ));
    }
}

/// A loop that rests while the flag is cleared ends with its next check: the
/// interval passes, the flag is read, the normal mode is restored and the run
/// finishes. No further cycle begins, and the result is that of the startup.
pub proof fn cleared_flag_ends_the_loop_within_one_interval(
    platform: PlatformCapabilities,
    resting: Progress,
)
    requires
        resting.phase == ServicePhase::Sleeping,
    ensures
        steps_after(
            platform,
            resting,
            seq![WakeEvent::Completed, WakeEvent::FlagRead(false), WakeEvent::Completed],
        ) == seq![
            WakeStep::CheckFlag,
            WakeStep::RestoreNormalMode,
            WakeStep::Finish { failed: resting.failed },
        ],
        progress_after(
            platform,
            resting,
            seq![WakeEvent::Completed, WakeEvent::FlagRead(false), WakeEvent::Completed],
        ) == (Progress { phase: ServicePhase::Stopped, ..resting }),
{
    let none = Seq::<WakeEvent>::empty();
    let woken = none.push(WakeEvent::Completed);
    let read = woken.push(WakeEvent::FlagRead(false));
    let events = read.push(WakeEvent::Completed);
    one_more_event(platform, resting, none, WakeEvent::Completed);
    one_more_event(platform, resting, woken, WakeEvent::FlagRead(false));
    one_more_event(platform, resting, read, WakeEvent::Completed);
    assert(events =~= seq![
        WakeEvent::Completed,
        WakeEvent::FlagRead(false),
        WakeEvent::Completed,
    ]);
    assert(steps_after(platform, resting, events) =~= seq![
        WakeStep::CheckFlag,
        WakeStep::RestoreNormalMode,
        WakeStep::Finish { failed: resting.failed },
    ]);
}

/// Input simulation is left out exactly where the platform's own primitive
/// keeps the system awake and the display may sleep. A mode that the
/// platform does not support therefore always runs with input simulation.
pub proof fn strategy_follows_the_platform(platform: PlatformCapabilities, mode: ScreenMode)
    ensures
        !input_simulation_needed(platform, mode) <==> platform.supports_strong_sleep_primitive
            && mode == ScreenMode::AllowScreenOff,
        !mode.supported_on(platform) ==> input_simulation_needed(platform, mode),
        mode == ScreenMode::KeepScreenOn ==> input_simulation_needed(platform, mode),
{
}

/// A stopped service stays stopped: every event leaves it as it is and is
/// answered with nothing, so no run begins again and nothing is restored twice.
pub proof fn stopped_is_final(platform: PlatformCapabilities, p: Progress, event: WakeEvent)
    requires
        p.phase == ServicePhase::Stopped,
    ensures
        react(platform, p, event) == p,
        step_issued(platform, p, event) == WakeStep::Nothing,
{
}

/// The life of a service only moves forward: an idle one stays idle or
/// starts running, a running one keeps running or stops.
pub proof fn life_moves_forward(platform: PlatformCapabilities, p: Progress, event: WakeEvent)
    ensures
        state_of(p.phase) == ServiceState::Idle ==> state_of(react(platform, p, event).phase)
            != ServiceState::Stopped,
        state_of(p.phase) == ServiceState::Running ==> state_of(react(platform, p, event).phase)
            != ServiceState::Idle,
        state_of(p.phase) == ServiceState::Stopped ==> state_of(react(platform, p, event).phase)
            == ServiceState::Stopped,
        p.phase == ServicePhase::Restoring ==> react(platform, p, event).phase
            == ServicePhase::Restoring || react(platform, p, event).phase
            == ServicePhase::Stopped,
{
}

/// A failed input event does not end the loop: the service rests and checks
/// the flag again, as after an event that was sent.
pub proof fn failed_emission_is_tolerated(platform: PlatformCapabilities, p: Progress)
    requires
        p.phase == ServicePhase::EmittingInput,
    ensures
        react(platform, p, WakeEvent::EmissionFailed) == react(platform, p, WakeEvent::Completed),
        react(platform, p, WakeEvent::EmissionFailed).phase == ServicePhase::Sleeping,
        step_issued(platform, p, WakeEvent::EmissionFailed) == WakeStep::Sleep,
{
}

} // verus!
