//! What holds of the controller, event by event and along whole traces.

use vstd::prelude::*;
use crate::controller::{Controller, Phase};
use crate::event::{Action, Event, KeyCode, Snapshot, THROTTLE_MILLIS};
use crate::rate::{lemma_counted_times, FrameRateSample, RateReading};
use crate::seed::lemma_plus_then_next;
use crate::surface::SurfaceConfig;

verus! {

/// No event of the trace asks the loop to end.
pub open spec fn never_exits(trace: Seq<(Event, Snapshot)>) -> bool {
    forall|i: int| 0 <= i < trace.len() ==> !(#[trigger] trace[i]).0.asks_exit()
}

/// The event announces a drawable area with at least one pixel.
pub open spec fn announces_area(event: Event) -> bool {
    event.announced_size() matches Some(size) && size.0 > 0 && size.1 > 0
}

/// The event announces a size with a zero dimension.
pub open spec fn announces_nothing(event: Event) -> bool {
    event.announced_size() matches Some(size) && (size.0 == 0 || size.1 == 0)
}

/// The last non-empty area announced along the trace, if there is one.
pub open spec fn last_area(trace: Seq<(Event, Snapshot)>) -> Option<(u32, u32)>
    decreases trace.len(),
{
    if trace.len() == 0 {
        None
    } else if announces_area(trace.last().0) {
        trace.last().0.announced_size()
    } else {
        last_area(trace.drop_last())
    }
}

/// Number of ticks in the trace.
pub open spec fn ticks_in(trace: Seq<(Event, Snapshot)>) -> nat
    decreases trace.len(),
{
    if trace.len() == 0 {
        0
    } else if trace.last().0 is MainEventsCleared {
        ticks_in(trace.drop_last()) + 1
    } else {
        ticks_in(trace.drop_last())
    }
}

/// Number of redraw requests in the trace that found a non-empty drawable
/// area, that is, the number of frames drawn.
pub open spec fn frames_in(trace: Seq<(Event, Snapshot)>) -> nat
    decreases trace.len(),
{
    if trace.len() == 0 {
        0
    } else if trace.last().0 is RedrawRequested && !trace.last().1.is_empty() {
        frames_in(trace.drop_last()) + 1
    } else {
        frames_in(trace.drop_last())
    }
}

/// Every tick of the trace comes before the window that opened at
/// `window_start` is full.
pub open spec fn ticks_within_window(trace: Seq<(Event, Snapshot)>, window_start: u64) -> bool {
    forall|i: int|
        0 <= i < trace.len() && (#[trigger] trace[i]).0 is MainEventsCleared
            ==> !FrameRateSample::opened_at(window_start).due(trace[i].1.now)
}

/// Once the loop has ended, no event changes the state or asks for anything
/// but to exit.
pub proof fn lemma_exit_is_final(state: Controller, trace: Seq<(Event, Snapshot)>)
    requires
        !state.running(),
    ensures
        state.run(trace) == state,
        forall|i: int| 0 <= i < trace.len() ==> #[trigger] state.actions(trace)[i] == Action::Exit,
    decreases trace.len(),
{
    if trace.len() > 0 {
        lemma_exit_is_final(state, trace.drop_last());
    }
    assert forall|i: int| 0 <= i < trace.len() implies #[trigger] state.actions(trace)[i]
        == Action::Exit by {
        lemma_exit_is_final(state, trace.take(i));
    }
}

/// The loop ends only when an event asks for it.
pub proof fn lemma_runs_until_asked(start: Controller, trace: Seq<(Event, Snapshot)>)
    requires
        start.running(),
        never_exits(trace),
    ensures
        start.run(trace).running(),
    decreases trace.len(),
{
    if trace.len() > 0 {
        assert(!trace[trace.len() - 1].0.asks_exit());
        lemma_runs_until_asked(start, trace.drop_last());
    }
}

/// Every state reached from a well-formed one is well-formed: the active
/// surface configuration never has a zero dimension.
pub proof fn lemma_run_keeps_wf(start: Controller, trace: Seq<(Event, Snapshot)>)
    requires
        start.wf(),
    ensures
        start.run(trace).wf(),
    decreases trace.len(),
{
    if trace.len() > 0 {
        lemma_run_keeps_wf(start, trace.drop_last());
    }
}

/// While the loop runs, the active surface configuration is the one for the
/// last non-empty area announced, or the one it started with when none was.
pub proof fn lemma_surface_follows_last_area(start: Controller, trace: Seq<(Event, Snapshot)>)
    requires
        start.running(),
        never_exits(trace),
    ensures
        start.run(trace).surface.active == match last_area(trace) {
            Some(size) => SurfaceConfig::for_size(size.0, size.1),
            None => start.surface.active,
        },
    decreases trace.len(),
{
    if trace.len() > 0 {
        assert(!trace[trace.len() - 1].0.asks_exit());
        lemma_surface_follows_last_area(start, trace.drop_last());
        lemma_runs_until_asked(start, trace.drop_last());
    }
}

/// After any run of size announcements with non-zero dimensions, the active
/// configuration is the one for the last size announced.
pub proof fn lemma_last_resize_wins(start: Controller, trace: Seq<(Event, Snapshot)>)
    requires
        start.running(),
        trace.len() > 0,
        forall|i: int| 0 <= i < trace.len() ==> announces_area((#[trigger] trace[i]).0),
    ensures
        trace.last().0.announced_size() matches Some(size) && start.run(trace).surface.active
            == SurfaceConfig::for_size(size.0, size.1),
{
    assert(announces_area(trace[trace.len() - 1].0));
    lemma_surface_follows_last_area(start, trace);
}

/// A size announcement with a zero dimension changes nothing and asks for
/// nothing: the configuration in use stays in use.
pub proof fn lemma_empty_resize_is_ignored(state: Controller, event: Event, snapshot: Snapshot)
    requires
        announces_nothing(event),
    ensures
        state.step(event, snapshot) == state,
        state.running() ==> state.action(event, snapshot) == Action::Wait,
{
}

/// A size announcement with non-zero dimensions installs the configuration
/// for that size and asks the caller to build it.
pub proof fn lemma_resize_reconfigures(state: Controller, event: Event, snapshot: Snapshot)
    requires
        state.running(),
        announces_area(event),
    ensures
        event.announced_size() matches Some(size) && {
            let config = SurfaceConfig::for_size(size.0, size.1);
            &&& config.wf()
            &&& state.step(event, snapshot).surface.active == config
            &&& state.action(event, snapshot) == (Action::Reconfigure { config })
        },
{
}

/// While the loop runs, the seed has advanced by exactly the number of ticks,
/// modulo 2^32, whatever else happened in between.
pub proof fn lemma_seed_counts_ticks(start: Controller, trace: Seq<(Event, Snapshot)>)
    requires
        start.running(),
        never_exits(trace),
    ensures
        start.run(trace).seed == start.seed.plus(ticks_in(trace)),
    decreases trace.len(),
{
    if trace.len() > 0 {
        assert(!trace[trace.len() - 1].0.asks_exit());
        let before = trace.drop_last();
        lemma_seed_counts_ticks(start, before);
        lemma_runs_until_asked(start, before);
        lemma_plus_then_next(start.seed, ticks_in(before));
    }
}

/// A tick moves the seed to its successor and nothing else does; past
/// `u32::MAX` the successor is zero.
pub proof fn lemma_seed_steps_on_tick(state: Controller, event: Event, snapshot: Snapshot)
    requires
        state.running(),
    ensures
        event is MainEventsCleared ==> state.step(event, snapshot).seed == state.seed.next(),
        !(event is MainEventsCleared) ==> state.step(event, snapshot).seed == state.seed,
        state.seed.value == u32::MAX ==> state.seed.next().value == 0,
        state.seed.value < u32::MAX ==> state.seed.next().value == state.seed.value + 1,
{
}

/// While the loop runs and no tick finds the window full, the sample has
/// counted exactly the frames drawn and the window has not moved.
pub proof fn lemma_rate_counts_drawn_frames(start: Controller, trace: Seq<(Event, Snapshot)>)
    requires
        start.running(),
        never_exits(trace),
        ticks_within_window(trace, start.rate.window_start),
    ensures
        start.run(trace).rate == start.rate.counted_times(frames_in(trace)),
        start.run(trace).displayed == start.displayed,
    decreases trace.len(),
{
    if trace.len() > 0 {
        assert(!trace[trace.len() - 1].0.asks_exit());
        let before = trace.drop_last();
        assert(ticks_within_window(before, start.rate.window_start)) by {
            assert forall|i: int|
                0 <= i < before.len() && (#[trigger] before[i]).0 is MainEventsCleared
                    implies !FrameRateSample::opened_at(start.rate.window_start).due(
                before[i].1.now,
            ) by {
                assert(before[i] == trace[i]);
            }
        }
        lemma_rate_counts_drawn_frames(start, before);
        lemma_runs_until_asked(start, before);
        lemma_counted_times(start.rate, frames_in(before));
    }
}

/// If exactly `k` frames are drawn while a window is open, the tick that
/// finds the window full reports `k` frames over the time since the window
/// opened, puts that reading on display, and leaves a new window opened at
/// the time of the tick with no frames in it.
pub proof fn lemma_window_reports_drawn_frames(
    start: Controller,
    trace: Seq<(Event, Snapshot)>,
    snapshot: Snapshot,
)
    requires
        start.running(),
        start.rate.accumulated_frames == 0,
        never_exits(trace),
        ticks_within_window(trace, start.rate.window_start),
        frames_in(trace) <= usize::MAX,
        start.rate.due(snapshot.now),
    ensures
        ({
            let before = start.run(trace);
            let reading = RateReading {
                frames: frames_in(trace) as usize,
                elapsed_nanos: (snapshot.now - start.rate.window_start) as u64,
            };
            &&& reading.wf()
            &&& before.action(Event::MainEventsCleared, snapshot) == (Action::RequestRedraw {
                refreshed: Some(reading),
            })
            &&& before.step(Event::MainEventsCleared, snapshot).displayed == Some(reading)
            &&& before.step(Event::MainEventsCleared, snapshot).rate == FrameRateSample::opened_at(
                snapshot.now,
            )
        }),
{
    lemma_rate_counts_drawn_frames(start, trace);
    lemma_runs_until_asked(start, trace);
    lemma_counted_times(start.rate, frames_in(trace));
}

/// With an empty drawable area a redraw request draws nothing: the only
/// thing asked for is a sleep of a tenth of a second, no frame is counted,
/// and nothing but the phase changes.
pub proof fn lemma_empty_area_throttles(state: Controller, snapshot: Snapshot)
    requires
        state.running(),
        snapshot.is_empty(),
    ensures
        state.action(Event::RedrawRequested, snapshot) == (Action::Throttle {
            millis: THROTTLE_MILLIS,
        }),
        THROTTLE_MILLIS == 100,
        state.step(Event::RedrawRequested, snapshot) == (Controller {
            phase: Phase::Throttled,
            ..state
        }),
{
}

/// A frame is asked for exactly when a running loop gets a redraw request
/// with a non-empty drawable area, and that frame is drawn at the area's
/// size, with the current seed, into the active surface configuration.
pub proof fn lemma_renders_only_on_redraw(state: Controller, event: Event, snapshot: Snapshot)
    ensures
        state.action(event, snapshot) is Render <==> state.running() && event is RedrawRequested
            && !snapshot.is_empty(),
        state.action(event, snapshot) matches Action::Render { plan } ==> plan.seed == state.seed
            && plan.surface == state.surface.active && plan.width == snapshot.drawable_width
            && plan.height == snapshot.drawable_height && plan.width > 0 && plan.height > 0,
{
}

/// A frame drawn after a trace goes to the surface configured for the last
/// non-empty area the trace announced: no earlier size leaks into it.
pub proof fn lemma_frame_targets_last_area(
    start: Controller,
    trace: Seq<(Event, Snapshot)>,
    snapshot: Snapshot,
)
    requires
        start.running(),
        never_exits(trace),
        !snapshot.is_empty(),
    ensures
        start.run(trace).action(Event::RedrawRequested, snapshot) matches Action::Render { plan }
            && plan.surface == match last_area(trace) {
            Some(size) => SurfaceConfig::for_size(size.0, size.1),
            None => start.surface.active,
        },
{
    lemma_surface_follows_last_area(start, trace);
    lemma_runs_until_asked(start, trace);
}

/// Fullscreen changes exactly when Return is released while alt is held,
/// and then it flips.
pub proof fn lemma_fullscreen_rule(state: Controller, event: Event, snapshot: Snapshot)
    ensures
        ({
            let after = state.step(event, snapshot);
            let toggles = state.running() && state.mode.alt_held && (event matches Event::KeyReleased {
                code,
                modifiers,
            } && code == KeyCode::Return);
            &&& toggles ==> after.mode.is_fullscreen == !state.mode.is_fullscreen
            &&& toggles ==> state.action(event, snapshot) == (Action::SetFullscreen {
                fullscreen: !state.mode.is_fullscreen,
            })
            &&& !toggles ==> after.mode.is_fullscreen == state.mode.is_fullscreen
            &&& !toggles ==> !(state.action(event, snapshot) is SetFullscreen)
            &&& toggles ==> after.seed == state.seed && after.rate == state.rate && after.surface
                == state.surface && after.phase == state.phase
        }),
{
}

} // verus!
