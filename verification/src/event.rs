//! What the window hands to the controller, and what the controller asks for
//! in return.

use vstd::prelude::*;
use crate::params::FloatBits;
use crate::rate::RateReading;
use crate::seed::FrameSeed;
use crate::surface::SurfaceConfig;

verus! {

/// Time the loop sleeps when there is nothing to draw on, in milliseconds.
pub const THROTTLE_MILLIS: u64 = 100;

/// Bit pattern of the number one: each channel of the overlay's colour.
pub const OVERLAY_CHANNEL_BITS: u32 = 0x3F80_0000;

/// Bit pattern of the number forty: the overlay's text scale.
pub const OVERLAY_SCALE_BITS: u32 = 0x4220_0000;

/// A key, as far as the controller tells keys apart.
#[derive(Clone, Copy, Debug, PartialEq, Eq, Structural)]
pub enum KeyCode {
    Escape,
    Return,
    Other,
}

/// The modifier keys reported together with a key event.
#[derive(Clone, Copy, Debug, PartialEq, Eq, Structural)]
pub struct Modifiers {
    pub shift: bool,
    pub ctrl: bool,
    pub alt: bool,
    pub logo: bool,
}

/// An event delivered by the window.
#[derive(Clone, Copy, Debug, PartialEq, Eq, Structural)]
pub enum Event {
    /// The user asked to close the window.
    Close,
    /// A key went up. The modifiers reported here are not consulted; the
    /// controller goes by the state it tracks from `ModifiersChanged`.
    KeyReleased { code: KeyCode, modifiers: Modifiers },
    /// The drawable area has a new size.
    Resized { width: u32, height: u32 },
    /// The scale factor changed, leaving the drawable area at this size.
    ScaleFactorChanged { width: u32, height: u32 },
    /// The alt key is now held, or no longer.
    ModifiersChanged { alt: bool },
    /// All pending events have been delivered: one tick of the loop.
    MainEventsCleared,
    /// The window wants its contents drawn.
    RedrawRequested,
}

/// What the caller reads from its surroundings when it delivers an event:
/// the clock, in nanoseconds since an origin of its choice, and the current
/// size of the drawable area.
#[derive(Clone, Copy, Debug, PartialEq, Eq, Structural)]
pub struct Snapshot {
    pub now: u64,
    pub drawable_width: u32,
    pub drawable_height: u32,
}

#[derive(Clone, Copy, Debug, PartialEq, Eq, Structural)]
pub enum HorizontalAlign {
    Left,
    Center,
    Right,
}

#[derive(Clone, Copy, Debug, PartialEq, Eq, Structural)]
pub enum VerticalAlign {
    Top,
    Center,
    Bottom,
}

/// A colour, one number per channel.
#[derive(Clone, Copy, Debug, PartialEq, Eq, Structural)]
pub struct Rgba {
    pub red: FloatBits,
    pub green: FloatBits,
    pub blue: FloatBits,
    pub alpha: FloatBits,
}

/// The text to lay over the frame. The caller writes `rate` out as text (an
/// empty string while there is none) and hands the request to the text
/// service, once to measure it and once to draw it.
#[derive(Clone, Copy, Debug, PartialEq, Eq)]
pub struct OverlayRequest {
    pub rate: Option<RateReading>,
    pub position_x: u32,
    pub position_y: u32,
    pub h_align: HorizontalAlign,
    pub v_align: VerticalAlign,
    pub color: Rgba,
    pub scale: FloatBits,
}

/// Everything the controller decides about one frame.
#[derive(Clone, Copy, Debug, PartialEq, Eq)]
pub struct FramePlan {
    /// Seed of this frame.
    pub seed: FrameSeed,
    /// The surface configuration whose image chain the frame is taken from:
    /// the one active when the frame was planned.
    pub surface: SurfaceConfig,
    /// Current size in pixels of the drawable area.
    pub width: u32,
    pub height: u32,
    pub overlay: OverlayRequest,
}

/// One piece of the work of drawing a frame.
#[derive(Clone, Copy, Debug, PartialEq, Eq, Structural)]
pub enum FrameStep {
    /// Take the next presentable image from the surface.
    AcquireImage,
    /// Ask the text service for the bounds of the overlay.
    MeasureOverlay,
    /// Encode the effect's draw, with this frame's parameters.
    DrawEffect,
    /// Encode the overlay's draw into the same image.
    DrawOverlay,
    /// Submit everything encoded as one command buffer.
    Submit,
    /// Present the image.
    Present,
    /// Take back the staging memory the frame used, to completion.
    ReclaimStaging,
}

/// What the caller is to do after an event.
#[derive(Clone, Copy, Debug, PartialEq, Eq)]
pub enum Action {
    /// Nothing; wait for the next event.
    Wait,
    /// Leave the event loop.
    Exit,
    /// Make the window borderless fullscreen, or windowed again.
    SetFullscreen { fullscreen: bool },
    /// Build a new image chain from `config`, dropping the one in use.
    Reconfigure { config: SurfaceConfig },
    /// Ask the window for a redraw. `refreshed` is the new rate to display,
    /// when a measurement window closed on this tick.
    RequestRedraw { refreshed: Option<RateReading> },
    /// Touch nothing on the GPU and sleep this long.
    Throttle { millis: u64 },
    /// Draw, submit and present one frame.
    Render { plan: FramePlan },
}

impl Snapshot {
    pub fn new(now: u64, drawable_width: u32, drawable_height: u32) -> (snapshot: Snapshot)
        ensures
            snapshot == (Snapshot { now, drawable_width, drawable_height }),
    {
        Snapshot { now, drawable_width, drawable_height }
    }

    /// The drawable area has no pixels.
    pub open spec fn is_empty(self) -> bool {
        self.drawable_width == 0 || self.drawable_height == 0
    }
}

impl Event {
    /// The size an event announces, for the two kinds of event that carry one.
    pub open spec fn announced_size(self) -> Option<(u32, u32)> {
        match self {
            Event::Resized { width, height } => Some((width, height)),
            Event::ScaleFactorChanged { width, height } => Some((width, height)),
            _ => None,
        }
    }

    /// The event asks the loop to end.
    pub open spec fn asks_exit(self) -> bool {
        match self {
            Event::Close => true,
            Event::KeyReleased { code, modifiers } => code == KeyCode::Escape,
            _ => false,
        }
    }
}

impl FramePlan {
    /// The work of one frame, in the order it is done. The effect is drawn
    /// before the overlay, both are submitted together before the image is
    /// presented, and staging memory is taken back last. A step that fails is
    /// fatal; no step is retried or skipped.
    pub open spec fn sequence() -> Seq<FrameStep> {
        seq![
            FrameStep::AcquireImage,
            FrameStep::MeasureOverlay,
            FrameStep::DrawEffect,
            FrameStep::DrawOverlay,
            FrameStep::Submit,
            FrameStep::Present,
            FrameStep::ReclaimStaging,
        ]
    }

    /// The steps to carry out for this frame, first to last.
    pub fn steps(&self) -> (steps: Vec<FrameStep>)
        ensures
            steps@ == FramePlan::sequence(),
    {
        let mut steps: Vec<FrameStep> = Vec::new();
        steps.push(FrameStep::AcquireImage);
        steps.push(FrameStep::MeasureOverlay);
        steps.push(FrameStep::DrawEffect);
        steps.push(FrameStep::DrawOverlay);
        steps.push(FrameStep::Submit);
        steps.push(FrameStep::Present);
        steps.push(FrameStep::ReclaimStaging);
        steps
    }
}

impl OverlayRequest {
    /// The overlay of a frame of the given size: the rate in white, forty
    /// units tall, centred on the middle of the frame.
    pub open spec fn centered(rate: Option<RateReading>, width: u32, height: u32)
        -> OverlayRequest {
        OverlayRequest {
            rate,
            position_x: width / 2,
            position_y: height / 2,
            h_align: HorizontalAlign::Center,
            v_align: VerticalAlign::Center,
            color: Rgba {
                red: FloatBits { bits: OVERLAY_CHANNEL_BITS },
                green: FloatBits { bits: OVERLAY_CHANNEL_BITS },
                blue: FloatBits { bits: OVERLAY_CHANNEL_BITS },
                alpha: FloatBits { bits: OVERLAY_CHANNEL_BITS },
            },
            scale: FloatBits { bits: OVERLAY_SCALE_BITS },
        }
    }

    pub fn new(rate: Option<RateReading>, width: u32, height: u32) -> (request: OverlayRequest)
        ensures
            request == OverlayRequest::centered(rate, width, height),
    {
        let channel = FloatBits { bits: OVERLAY_CHANNEL_BITS };
        OverlayRequest {
            rate,
            position_x: width / 2,
            position_y: height / 2,
            h_align: HorizontalAlign::Center,
            v_align: VerticalAlign::Center,
            color: Rgba { red: channel, green: channel, blue: channel, alpha: channel },
            scale: FloatBits { bits: OVERLAY_SCALE_BITS },
        }
    }
}

} // verus!
