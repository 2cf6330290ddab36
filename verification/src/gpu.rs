//! What is asked of the GPU: the device, the effect pipeline, and the draw
//! that renders the effect.

use vstd::prelude::*;
use crate::params::{ByteOrder, RenderParameters, PAYLOAD_SIZE};
use crate::surface::ColorFormat;

verus! {

/// Vertices drawn per frame: two triangles covering the viewport.
pub const VERTEX_COUNT: u32 = 6;

/// Instances drawn per frame.
pub const INSTANCE_COUNT: u32 = 1;

/// Initial capacity in bytes of the staging belt used for text uploads.
pub const STAGING_CAPACITY: u64 = 1024;

#[derive(Clone, Copy, Debug, PartialEq, Eq, Structural)]
pub enum PowerPreference {
    LowPower,
    HighPerformance,
}

/// What the loop needs from the adapter and the device.
#[derive(Clone, Copy, Debug, PartialEq, Eq, Structural)]
pub struct DeviceRequest {
    pub power_preference: PowerPreference,
    /// The device must offer push constants.
    pub push_constants: bool,
    /// Bytes of push constants the device must accept.
    pub max_push_constant_size: u32,
    pub staging_capacity: u64,
}

#[derive(Clone, Copy, Debug, PartialEq, Eq, Structural)]
pub enum Topology {
    PointList,
    LineList,
    LineStrip,
    TriangleList,
    TriangleStrip,
}

#[derive(Clone, Copy, Debug, PartialEq, Eq, Structural)]
pub enum Face {
    Front,
    Back,
}

#[derive(Clone, Copy, Debug, PartialEq, Eq, Structural)]
pub enum FrontFace {
    CounterClockwise,
    Clockwise,
}

#[derive(Clone, Copy, Debug, PartialEq, Eq, Structural)]
pub enum PolygonMode {
    Fill,
    Line,
    Point,
}

#[derive(Clone, Copy, Debug, PartialEq, Eq, Structural)]
pub enum ShaderStage {
    Vertex,
    Fragment,
    Compute,
}

/// The fixed description of the effect's render pipeline.
#[derive(Clone, Copy, Debug, PartialEq, Eq)]
pub struct EffectPipeline {
    pub topology: Topology,
    pub cull_mode: Option<Face>,
    pub front_face: FrontFace,
    pub polygon_mode: PolygonMode,
    pub depth_stencil: bool,
    pub blending: bool,
    /// Format of the single colour target.
    pub target_format: ColorFormat,
    /// Number of vertex buffers bound; the vertex stage makes its own vertices.
    pub vertex_buffers: u32,
    /// The stage that reads the push constants, and their byte range.
    pub constants_stage: ShaderStage,
    pub constants_start: u32,
    pub constants_end: u32,
}

/// One encoded draw of the effect: push `payload` at `offset` to `stage`,
/// then draw the given ranges of vertices and instances. Encoding it neither
/// submits nor presents anything.
#[derive(Debug, PartialEq, Eq)]
pub struct DrawCommand {
    pub stage: ShaderStage,
    pub offset: u32,
    pub payload: Vec<u8>,
    pub first_vertex: u32,
    pub end_vertex: u32,
    pub first_instance: u32,
    pub end_instance: u32,
}

impl DeviceRequest {
    /// A high-performance adapter and a device with push constants of at
    /// least the payload's size.
    pub open spec fn standard() -> DeviceRequest {
        DeviceRequest {
            power_preference: PowerPreference::HighPerformance,
            push_constants: true,
            max_push_constant_size: PAYLOAD_SIZE,
            staging_capacity: STAGING_CAPACITY,
        }
    }

    pub fn new() -> (request: DeviceRequest)
        ensures
            request == DeviceRequest::standard(),
    {
        DeviceRequest {
            power_preference: PowerPreference::HighPerformance,
            push_constants: true,
            max_push_constant_size: PAYLOAD_SIZE,
            staging_capacity: STAGING_CAPACITY,
        }
    }
}

impl EffectPipeline {
    /// Triangle list, back faces culled, counter-clockwise front, filled, no
    /// depth or stencil, no blending, no vertex buffers, one colour target of
    /// the given format, and the payload as push constants of the fragment
    /// stage.
    pub open spec fn standard(target_format: ColorFormat) -> EffectPipeline {
        EffectPipeline {
            topology: Topology::TriangleList,
            cull_mode: Some(Face::Back),
            front_face: FrontFace::CounterClockwise,
            polygon_mode: PolygonMode::Fill,
            depth_stencil: false,
            blending: false,
            target_format,
            vertex_buffers: 0,
            constants_stage: ShaderStage::Fragment,
            constants_start: 0,
            constants_end: PAYLOAD_SIZE,
        }
    }

    pub open spec fn wf(self) -> bool {
        self == EffectPipeline::standard(self.target_format)
    }

    pub fn new(target_format: ColorFormat) -> (pipeline: EffectPipeline)
        ensures
            pipeline == EffectPipeline::standard(target_format),
            pipeline.wf(),
    {
        EffectPipeline {
            topology: Topology::TriangleList,
            cull_mode: Some(Face::Back),
            front_face: FrontFace::CounterClockwise,
            polygon_mode: PolygonMode::Fill,
            depth_stencil: false,
            blending: false,
            target_format,
            vertex_buffers: 0,
            constants_stage: ShaderStage::Fragment,
            constants_start: 0,
            constants_end: PAYLOAD_SIZE,
        }
    }

    /// Encodes the draw of one frame: the packed parameters for the stage and
    /// offset this pipeline declares, six vertices, one instance.
    pub fn draw(&self, params: &RenderParameters) -> (command: DrawCommand)
        ensures
            command.stage == self.constants_stage,
            command.offset == self.constants_start,
            command.payload@ == params.layout(ByteOrder::Little) || command.payload@
                == params.layout(ByteOrder::Big),
            command.payload@.len() == PAYLOAD_SIZE,
            self.wf() ==> command.offset + command.payload@.len() == self.constants_end,
            command.first_vertex == 0,
            command.end_vertex == VERTEX_COUNT,
            command.first_instance == 0,
            command.end_instance == INSTANCE_COUNT,
    {
        DrawCommand {
            stage: self.constants_stage,
            offset: self.constants_start,
            payload: params.pack(),
            first_vertex: 0,
            end_vertex: VERTEX_COUNT,
            first_instance: 0,
            end_instance: INSTANCE_COUNT,
        }
    }
}

/// The payload fills the pipeline's push-constant range exactly, and the
/// device is asked for no less.
pub proof fn lemma_payload_fits(target_format: ColorFormat, order: ByteOrder, params: RenderParameters)
    ensures
        EffectPipeline::standard(target_format).constants_end - EffectPipeline::standard(
            target_format,
        ).constants_start == params.layout(order).len(),
        params.layout(order).len() <= DeviceRequest::standard().max_push_constant_size,
{
}

} // verus!
