//! The frame loop controller: one state, one transition per event.

use vstd::prelude::*;
use crate::event::{Action, Event, FramePlan, KeyCode, OverlayRequest, Snapshot, THROTTLE_MILLIS};
use crate::rate::{FrameRateSample, RateReading};
use crate::seed::FrameSeed;
use crate::surface::{SurfaceConfig, SurfaceManager};

verus! {

/// Where the loop rests between two events. A redraw that is drawn counts its
/// frame on the way into `Rendering`.
#[derive(Clone, Copy, Debug, PartialEq, Eq, Structural)]
pub enum Phase {
    /// Waiting for the next tick.
    Idle,
    /// A frame is being built and submitted.
    Rendering,
    /// The drawable area is empty; the loop sleeps instead of drawing.
    Throttled,
    /// The loop has ended. Nothing leaves this phase.
    Exited,
}

/// Window mode, as changed by input.
#[derive(Clone, Copy, Debug, PartialEq, Eq, Structural)]
pub struct WindowModeState {
    pub is_fullscreen: bool,
    pub alt_held: bool,
}

/// All state of the loop.
#[derive(Clone, Copy, Debug, PartialEq, Eq)]
pub struct Controller {
    pub phase: Phase,
    pub mode: WindowModeState,
    pub seed: FrameSeed,
    pub rate: FrameRateSample,
    /// The rate on display: the reading of the last window that closed.
    pub displayed: Option<RateReading>,
    pub surface: SurfaceManager,
}

/// Title of the window.
pub fn window_title() -> (title: &'static str)
    ensures
        title@ == "Noise Generator"@,
{
    "Noise Generator"
}

impl Controller {
    /// The surface is configured for a non-empty area, and the rate on
    /// display, if any, comes from a full window.
    pub open spec fn wf(self) -> bool {
        &&& self.surface.wf()
        &&& (self.displayed matches Some(reading) ==> reading.wf())
    }

    pub open spec fn running(self) -> bool {
        self.phase != Phase::Exited
    }

    /// The state at startup: windowed, seed zero, first window open at `now`,
    /// nothing on display, surface configured for the window's size.
    pub open spec fn started(width: u32, height: u32, now: u64) -> Controller {
        Controller {
            phase: Phase::Idle,
            mode: WindowModeState { is_fullscreen: false, alt_held: false },
            seed: FrameSeed { value: 0 },
            rate: FrameRateSample::opened_at(now),
            displayed: None,
            surface: SurfaceManager { active: SurfaceConfig::for_size(width, height) },
        }
    }

    /// The state once the loop has been told to end.
    pub open spec fn exited(self) -> Controller {
        Controller { phase: Phase::Exited, ..self }
    }

    /// The state after a key went up.
    pub open spec fn key_released(self, code: KeyCode) -> Controller {
        match code {
            KeyCode::Escape => self.exited(),
            KeyCode::Return => if self.mode.alt_held {
                Controller {
                    mode: WindowModeState {
                        is_fullscreen: !self.mode.is_fullscreen,
                        alt_held: self.mode.alt_held,
                    },
                    ..self
                }
            } else {
                self
            },
            KeyCode::Other => self,
        }
    }

    /// The state after the drawable area was announced to have this size.
    pub open spec fn resized(self, width: u32, height: u32) -> Controller {
        if width > 0 && height > 0 {
            Controller {
                surface: SurfaceManager { active: SurfaceConfig::for_size(width, height) },
                ..self
            }
        } else {
            self
        }
    }

    /// The state after a tick at time `now`.
    pub open spec fn ticked(self, now: u64) -> Controller {
        Controller {
            phase: Phase::Idle,
            seed: self.seed.next(),
            rate: self.rate.polled(now),
            displayed: match self.rate.reading(now) {
                Some(reading) => Some(reading),
                None => self.displayed,
            },
            ..self
        }
    }

    /// The state after a redraw request.
    pub open spec fn redrawn(self, snapshot: Snapshot) -> Controller {
        if snapshot.is_empty() {
            Controller { phase: Phase::Throttled, ..self }
        } else {
            Controller { phase: Phase::Rendering, rate: self.rate.counted(), ..self }
        }
    }

    /// The frame to draw into an area of the snapshot's size.
    pub open spec fn frame_plan(self, snapshot: Snapshot) -> FramePlan {
        FramePlan {
            seed: self.seed,
            surface: self.surface.active,
            width: snapshot.drawable_width,
            height: snapshot.drawable_height,
            overlay: OverlayRequest::centered(
                self.displayed,
                snapshot.drawable_width,
                snapshot.drawable_height,
            ),
        }
    }

    /// The state after `event`, delivered with `snapshot`.
    pub open spec fn step(self, event: Event, snapshot: Snapshot) -> Controller {
        if !self.running() {
            self
        } else {
            match event {
                Event::Close => self.exited(),
                Event::KeyReleased { code, modifiers } => self.key_released(code),
                Event::Resized { width, height } => self.resized(width, height),
                Event::ScaleFactorChanged { width, height } => self.resized(width, height),
                Event::ModifiersChanged { alt } => Controller {
                    mode: WindowModeState { is_fullscreen: self.mode.is_fullscreen, alt_held: alt },
                    ..self
                },
                Event::MainEventsCleared => self.ticked(snapshot.now),
                Event::RedrawRequested => self.redrawn(snapshot),
            }
        }
    }

    /// What the caller is to do after `event`, delivered with `snapshot`.
    pub open spec fn action(self, event: Event, snapshot: Snapshot) -> Action {
        if !self.running() {
            Action::Exit
        } else {
            match event {
                Event::Close => Action::Exit,
                Event::KeyReleased { code, modifiers } => match code {
                    KeyCode::Escape => Action::Exit,
                    KeyCode::Return => if self.mode.alt_held {
                        Action::SetFullscreen { fullscreen: !self.mode.is_fullscreen }
                    } else {
                        Action::Wait
                    },
                    KeyCode::Other => Action::Wait,
                },
                Event::Resized { width, height } => Controller::resize_action(width, height),
                Event::ScaleFactorChanged { width, height } => Controller::resize_action(
                    width,
                    height,
                ),
                Event::ModifiersChanged { alt } => Action::Wait,
                Event::MainEventsCleared => Action::RequestRedraw {
                    refreshed: self.rate.reading(snapshot.now),
                },
                Event::RedrawRequested => if snapshot.is_empty() {
                    Action::Throttle { millis: THROTTLE_MILLIS }
                } else {
                    Action::Render { plan: self.frame_plan(snapshot) }
                },
            }
        }
    }

    /// What a size announcement asks of the caller.
    pub open spec fn resize_action(width: u32, height: u32) -> Action {
        if width > 0 && height > 0 {
            Action::Reconfigure { config: SurfaceConfig::for_size(width, height) }
        } else {
            Action::Wait
        }
    }

    /// The state after every event of `trace`, in order.
    pub open spec fn run(self, trace: Seq<(Event, Snapshot)>) -> Controller
        decreases trace.len(),
    {
        if trace.len() == 0 {
            self
        } else {
            self.run(trace.drop_last()).step(trace.last().0, trace.last().1)
        }
    }

    /// The actions asked for along `trace`, one per event.
    pub open spec fn actions(self, trace: Seq<(Event, Snapshot)>) -> Seq<Action> {
        Seq::new(
            trace.len(),
            |i: int| self.run(trace.take(i)).action(trace[i].0, trace[i].1),
        )
    }

    /// Starts the loop for a window whose drawable area is `width` by `height`
    /// pixels, with the clock reading `now`.
    pub fn new(width: u32, height: u32, now: u64) -> (controller: Controller)
        requires
            width > 0,
            height > 0,
        ensures
            controller == Controller::started(width, height, now),
            controller.wf(),
            controller.running(),
    {
        Controller {
            phase: Phase::Idle,
            mode: WindowModeState { is_fullscreen: false, alt_held: false },
            seed: FrameSeed::new(0),
            rate: FrameRateSample::new(now),
            displayed: None,
            surface: SurfaceManager::new(width, height),
        }
    }

    /// Reacts to one event.
    ///
    /// * A close request or the release of Escape ends the loop; every later
    ///   event is answered with `Exit` and changes nothing.
    /// * The release of Return while alt is held toggles fullscreen.
    /// * A new size with both dimensions non-zero reconfigures the surface; one
    ///   with a zero dimension is ignored.
    /// * A tick polls the rate window, advances the seed and asks for a redraw.
    /// * A redraw request with an empty drawable area throttles; any other
    ///   counts a frame and renders it.
    pub fn handle_event(&mut self, event: Event, snapshot: Snapshot) -> (action: Action)
        ensures
            *final(self) == old(self).step(event, snapshot),
            action == old(self).action(event, snapshot),
            old(self).wf() ==> final(self).wf(),
    {
        match self.phase {
            Phase::Exited => {
                return Action::Exit;
            },
            _ => {},
        }
        match event {
            Event::Close => self.exit(),
            Event::KeyReleased { code, modifiers: _ } => match code {
                KeyCode::Escape => self.exit(),
                KeyCode::Return => self.toggle_fullscreen(),
                KeyCode::Other => Action::Wait,
            },
            Event::Resized { width, height } => self.resize(width, height),
            Event::ScaleFactorChanged { width, height } => self.resize(width, height),
            Event::ModifiersChanged { alt } => {
                self.mode.alt_held = alt;
                Action::Wait
            },
            Event::MainEventsCleared => self.tick(snapshot.now),
            Event::RedrawRequested => self.redraw(snapshot),
        }
    }

    /// Reacts to each event of `trace` in turn and collects the actions.
    pub fn replay(&mut self, trace: &Vec<(Event, Snapshot)>) -> (actions: Vec<Action>)
        ensures
            *final(self) == old(self).run(trace@),
            actions@ == old(self).actions(trace@),
            old(self).wf() ==> final(self).wf(),
    {
        let mut actions: Vec<Action> = Vec::new();
        let mut i: usize = 0;
        assert(trace@.take(0) =~= Seq::empty());
        while i < trace.len()
            invariant
                i <= trace@.len(),
                *self == old(self).run(trace@.take(i as int)),
                actions@.len() == i,
                forall|k: int|
                    0 <= k < i ==> #[trigger] actions@[k] == old(self).run(trace@.take(k)).action(
                        trace@[k].0,
                        trace@[k].1,
                    ),
                old(self).wf() ==> self.wf(),
            decreases trace@.len() - i,
        {
            let (event, snapshot) = trace[i];
            let action = self.handle_event(event, snapshot);
            actions.push(action);
            proof {
                let next = trace@.take(i + 1);
                assert(next.drop_last() =~= trace@.take(i as int));
                assert(next.last() == trace@[i as int]);
            }
            i += 1;
        }
        assert(trace@.take(i as int) =~= trace@);
        assert(actions@ =~= old(self).actions(trace@));
        actions
    }

    fn exit(&mut self) -> (action: Action)
        ensures
            *final(self) == old(self).exited(),
            action == Action::Exit,
    {
        self.phase = Phase::Exited;
        Action::Exit
    }

    fn toggle_fullscreen(&mut self) -> (action: Action)
        ensures
            *final(self) == old(self).key_released(KeyCode::Return),
            action == if old(self).mode.alt_held {
                Action::SetFullscreen { fullscreen: !old(self).mode.is_fullscreen }
            } else {
                Action::Wait
            },
    {
        if self.mode.alt_held {
            let fullscreen = !self.mode.is_fullscreen;
            self.mode.is_fullscreen = fullscreen;
            Action::SetFullscreen { fullscreen }
        } else {
            Action::Wait
        }
    }

    fn resize(&mut self, width: u32, height: u32) -> (action: Action)
        ensures
            *final(self) == old(self).resized(width, height),
            action == Controller::resize_action(width, height),
    {
        if width != 0 && height != 0 {
            let config = self.surface.configure(width, height);
            Action::Reconfigure { config }
        } else {
            Action::Wait
        }
    }

    fn tick(&mut self, now: u64) -> (action: Action)
        ensures
            *final(self) == old(self).ticked(now),
            action == (Action::RequestRedraw { refreshed: old(self).rate.reading(now) }),
            old(self).wf() ==> final(self).wf(),
    {
        let refreshed = self.rate.poll(now);
        match refreshed {
            Some(reading) => {
                self.displayed = Some(reading);
            },
            None => {},
        }
        self.seed.advance();
        self.phase = Phase::Idle;
        Action::RequestRedraw { refreshed }
    }

    fn redraw(&mut self, snapshot: Snapshot) -> (action: Action)
        ensures
            *final(self) == old(self).redrawn(snapshot),
            action == if snapshot.is_empty() {
                Action::Throttle { millis: THROTTLE_MILLIS }
            } else {
                Action::Render { plan: old(self).frame_plan(snapshot) }
            },
    {
        if snapshot.drawable_width == 0 || snapshot.drawable_height == 0 {
            self.phase = Phase::Throttled;
            Action::Throttle { millis: THROTTLE_MILLIS }
        } else {
            let plan = FramePlan {
                seed: self.seed,
                surface: self.surface.active(),
                width: snapshot.drawable_width,
                height: snapshot.drawable_height,
                overlay: OverlayRequest::new(
                    self.displayed,
                    snapshot.drawable_width,
                    snapshot.drawable_height,
                ),
            };
            self.rate.count_frame();
            self.phase = Phase::Rendering;
            Action::Render { plan }
        }
    }
}

} // verus!
