//! The fixed render pipeline: the shader program, the layout of a vertex in
//! its buffer, and the state that turns vertices into blended pixels.
//!
//! There is one pipeline for the whole life of the program. Nothing here
//! depends on anything but the colour format of the surface.

use vstd::prelude::*;

verus! {

/// Entry point of the vertex stage in [`SHADER_SOURCE`].
pub const VERTEX_ENTRY: &'static str = "vs_main";

/// Entry point of the fragment stage in [`SHADER_SOURCE`].
pub const FRAGMENT_ENTRY: &'static str = "fs_main";

/// The shader program. The vertex stage passes the 2D position on as a
/// clip-space position with z = 0 and w = 1. The fragment stage gives every
/// covered pixel the same opaque green.
pub const SHADER_SOURCE: &'static str = "
struct VSOut {
    @builtin(position) pos: vec4<f32>,
};

@vertex
fn vs_main(@location(0) in_pos: vec2<f32>) -> VSOut {
    var out: VSOut;
    out.pos = vec4<f32>(in_pos, 0.0, 1.0);
    return out;
}

@fragment
fn fs_main() -> @location(0) vec4<f32> {
    return vec4<f32>(0.1, 0.8, 0.2, 1.0);
}
";

/// Bytes of one 32-bit float component.
pub const COMPONENT_BYTES: u64 = 4;

/// How a vertex attribute is stored: 32-bit floats, one to four of them.
#[derive(Clone, Copy, Debug, PartialEq, Eq, Structural)]
pub enum AttributeFormat {
    Float32,
    Float32x2,
    Float32x3,
    Float32x4,
}

/// Whether the vertex buffer advances per vertex or per instance.
#[derive(Clone, Copy, Debug, PartialEq, Eq, Structural)]
pub enum StepMode {
    Vertex,
    Instance,
}

/// One input of the vertex stage.
#[derive(Clone, Copy, Debug, PartialEq, Eq, Structural)]
pub struct VertexAttribute {
    pub format: AttributeFormat,
    /// Byte offset within a vertex.
    pub offset: u64,
    /// The `@location` that the vertex stage reads it from.
    pub shader_location: u32,
}

/// How vertices lie in the vertex buffer.
#[derive(Debug)]
pub struct VertexLayout {
    /// Bytes from one vertex to the next.
    pub array_stride: u64,
    pub step_mode: StepMode,
    pub attributes: Vec<VertexAttribute>,
}

/// How vertices group into primitives.
#[derive(Clone, Copy, Debug, PartialEq, Eq, Structural)]
pub enum Topology {
    PointList,
    LineList,
    LineStrip,
    TriangleList,
    TriangleStrip,
}

/// The winding that marks a triangle as facing the viewer.
#[derive(Clone, Copy, Debug, PartialEq, Eq, Structural)]
pub enum FrontFace {
    CounterClockwise,
    Clockwise,
}

/// A side of a triangle.
#[derive(Clone, Copy, Debug, PartialEq, Eq, Structural)]
pub enum Face {
    Front,
    Back,
}

/// How a triangle is filled.
#[derive(Clone, Copy, Debug, PartialEq, Eq, Structural)]
pub enum PolygonMode {
    Fill,
    Line,
    Point,
}

/// How a new colour combines with the one already in the target.
#[derive(Clone, Copy, Debug, PartialEq, Eq, Structural)]
pub enum Blend {
    /// The new colour replaces the old one.
    Replace,
    /// The old colour shows through by the new colour's alpha.
    Alpha,
    /// As `Alpha`, for colours already multiplied by their alpha.
    PremultipliedAlpha,
}

/// The state of the render pipeline.
#[derive(Debug)]
pub struct PipelineSettings {
    pub vertex_entry: &'static str,
    pub fragment_entry: &'static str,
    pub vertex_layout: VertexLayout,
    /// Colour format of the one render target.
    pub target_format: wgpu::TextureFormat,
    pub blend: Option<Blend>,
    /// Whether all four colour channels are written.
    pub write_all_channels: bool,
    pub topology: Topology,
    pub front_face: FrontFace,
    /// The side that is not drawn, if any.
    pub cull: Option<Face>,
    pub polygon_mode: PolygonMode,
    pub unclipped_depth: bool,
    pub conservative: bool,
    /// Whether a depth or stencil test takes place.
    pub depth_stencil: bool,
    /// Samples per pixel.
    pub sample_count: u32,
}

impl AttributeFormat {
    /// Number of float components.
    pub open spec fn components(self) -> nat {
        match self {
            AttributeFormat::Float32 => 1,
            AttributeFormat::Float32x2 => 2,
            AttributeFormat::Float32x3 => 3,
            AttributeFormat::Float32x4 => 4,
        }
    }

    /// Bytes that an attribute of this format takes.
    pub fn byte_size(self) -> (bytes: u64)
        ensures
            bytes == COMPONENT_BYTES * self.components(),
    {
        match self {
            AttributeFormat::Float32 => COMPONENT_BYTES,
            AttributeFormat::Float32x2 => 2 * COMPONENT_BYTES,
            AttributeFormat::Float32x3 => 3 * COMPONENT_BYTES,
            AttributeFormat::Float32x4 => 4 * COMPONENT_BYTES,
        }
    }
}

impl VertexLayout {
    /// Every attribute lies within one vertex.
    pub open spec fn well_formed(self) -> bool {
        forall|i: int|
            0 <= i < self.attributes@.len() ==> (#[trigger] self.attributes@[i]).offset
                + COMPONENT_BYTES * self.attributes@[i].format.components() <= self.array_stride
    }
}

/// The layout of the vertex buffer: tightly packed positions of two floats,
/// read per vertex at `@location(0)`.
pub fn vertex_layout() -> (layout: VertexLayout)
    ensures
        layout.array_stride == 8,
        layout.step_mode == StepMode::Vertex,
        layout.attributes@ == seq![
            VertexAttribute { format: AttributeFormat::Float32x2, offset: 0, shader_location: 0 },
        ],
        layout.well_formed(),
{
    let position = VertexAttribute {
        format: AttributeFormat::Float32x2,
        offset: 0,
        shader_location: 0,
    };
    let mut attributes: Vec<VertexAttribute> = Vec::with_capacity(1);
    attributes.push(position);
    VertexLayout {
        array_stride: position.format.byte_size(),
        step_mode: StepMode::Vertex,
        attributes,
    }
}

/// The pipeline state for a surface of colour format `target_format`:
/// a list of triangles, counter-clockwise ones facing the viewer, back
/// faces culled, filled, alpha-blended into all channels, with no depth or
/// stencil test and one sample per pixel.
pub fn pipeline_settings(target_format: wgpu::TextureFormat) -> (settings: PipelineSettings)
    ensures
        settings.vertex_entry@ == VERTEX_ENTRY@,
        settings.fragment_entry@ == FRAGMENT_ENTRY@,
        settings.vertex_layout.array_stride == 8,
        settings.vertex_layout.step_mode == StepMode::Vertex,
        settings.vertex_layout.attributes@ == seq![
            VertexAttribute { format: AttributeFormat::Float32x2, offset: 0, shader_location: 0 },
        ],
        settings.vertex_layout.well_formed(),
        settings.target_format == target_format,
        settings.blend == Some(Blend::Alpha),
        settings.write_all_channels,
        settings.topology == Topology::TriangleList,
        settings.front_face == FrontFace::CounterClockwise,
        settings.cull == Some(Face::Back),
        settings.polygon_mode == PolygonMode::Fill,
        !settings.unclipped_depth,
        !settings.conservative,
        !settings.depth_stencil,
        settings.sample_count == 1,
{
    PipelineSettings {
        vertex_entry: VERTEX_ENTRY,
        fragment_entry: FRAGMENT_ENTRY,
        vertex_layout: vertex_layout(),
        target_format,
        blend: Some(Blend::Alpha),
        write_all_channels: true,
        topology: Topology::TriangleList,
        front_face: FrontFace::CounterClockwise,
        cull: Some(Face::Back),
        polygon_mode: PolygonMode::Fill,
        unclipped_depth: false,
        conservative: false,
        depth_stencil: false,
        sample_count: 1,
    }
}

} // verus!
