//! The plan for one frame: what to do with the outcome of acquiring the
//! next presentable texture, and what the one render pass of a frame holds.
//!
//! A failed acquisition never ends the program. The frame is skipped, and
//! the next redraw tries again.

use vstd::prelude::*;
use crate::geometry::Mesh;

verus! {

/// Why no presentable texture could be acquired.
#[derive(Clone, Copy, Debug, PartialEq, Eq, Structural)]
pub enum AcquireError {
    Timeout,
    /// The surface has changed; a resize will bring a new one.
    Outdated,
    /// The swap chain is gone and has to be set up again.
    Lost,
    OutOfMemory,
    Other,
}

/// A colour, each channel in hundredths.
#[derive(Clone, Copy, Debug, PartialEq, Eq, Structural)]
pub struct Color {
    pub r: u8,
    pub g: u8,
    pub b: u8,
    pub a: u8,
}

/// Width of an index in the index buffer.
#[derive(Clone, Copy, Debug, PartialEq, Eq, Structural)]
pub enum IndexFormat {
    Uint16,
    Uint32,
}

/// One indexed draw call.
#[derive(Clone, Copy, Debug, PartialEq, Eq, Structural)]
pub struct DrawCall {
    /// The indices `first_index .. end_index` are drawn.
    pub first_index: u32,
    pub end_index: u32,
    /// Added to every index before it names a vertex.
    pub base_vertex: i32,
    /// The instances `first_instance .. end_instance` are drawn.
    pub first_instance: u32,
    pub end_instance: u32,
}

/// The one render pass of a frame.
#[derive(Clone, Copy, Debug, PartialEq, Eq, Structural)]
pub struct RenderPass {
    /// The colour that the target is cleared to before drawing.
    pub clear: Color,
    /// Whether what was drawn is kept in the target.
    pub store: bool,
    /// The slot that the vertex buffer is bound to.
    pub vertex_slot: u32,
    pub index_format: IndexFormat,
    pub draw: DrawCall,
}

/// What to do with a frame.
#[derive(Clone, Copy, Debug, PartialEq, Eq, Structural)]
pub enum FrameStep {
    /// Record the pass, submit it and present the texture.
    Draw(RenderPass),
    /// Configure the surface again with the current configuration, and skip
    /// the frame.
    Reconfigure,
    /// Skip the frame.
    Skip,
    /// Report the error, and skip the frame.
    Report(AcquireError),
}

/// The background: a dark blue-grey, opaque.
pub open spec fn background_color() -> Color {
    Color { r: 5, g: 5, b: 8, a: 100 }
}

/// The draw call that covers `index_count` indices from the first one, with
/// no vertex offset, once.
pub open spec fn full_draw(index_count: u32) -> DrawCall {
    DrawCall {
        first_index: 0,
        end_index: index_count,
        base_vertex: 0,
        first_instance: 0,
        end_instance: 1,
    }
}

/// The pass that clears to the background and draws `index_count` 16-bit
/// indices in one call.
pub open spec fn frame_pass(index_count: u32) -> RenderPass {
    RenderPass {
        clear: background_color(),
        store: true,
        vertex_slot: 0,
        index_format: IndexFormat::Uint16,
        draw: full_draw(index_count),
    }
}

/// What to do with a frame after `acquired`, where `index_count` indices
/// are to be drawn.
pub open spec fn frame_step(acquired: Result<(), AcquireError>, index_count: u32) -> FrameStep {
    match acquired {
        Ok(_) => FrameStep::Draw(frame_pass(index_count)),
        Err(AcquireError::Lost) => FrameStep::Reconfigure,
        Err(AcquireError::Outdated) => FrameStep::Skip,
        Err(error) => FrameStep::Report(error),
    }
}

impl FrameStep {
    /// Whether the frame reaches the screen.
    pub open spec fn presents(self) -> bool {
        self is Draw
    }
}

/// The colour that every frame is cleared to.
pub fn background() -> (color: Color)
    ensures
        color == background_color(),
{
    Color { r: 5, g: 5, b: 8, a: 100 }
}

/// The render pass that draws all of `mesh` in one indexed draw call.
pub fn render_pass(mesh: &Mesh) -> (pass: RenderPass)
    ensures
        pass == frame_pass(mesh@.indices.len() as u32),
        pass.draw.first_index == 0,
        pass.draw.end_index == mesh@.indices.len(),
        pass.draw.end_index as nat == 3 * mesh@.triangles(),
{
    let draw = DrawCall {
        first_index: 0,
        end_index: mesh.index_count(),
        base_vertex: 0,
        first_instance: 0,
        end_instance: 1,
    };
    RenderPass {
        clear: background(),
        store: true,
        vertex_slot: 0,
        index_format: IndexFormat::Uint16,
        draw,
    }
}

/// Decides what becomes of a frame once the next presentable texture was
/// asked for.
///
/// With a texture in hand the frame is drawn: one pass, one draw call over
/// the whole index range of `mesh`. A lost surface is configured again and
/// the frame skipped; an outdated one only has the frame skipped; any other
/// error is reported and the frame skipped.
pub fn plan_frame(acquired: Result<(), AcquireError>, mesh: &Mesh) -> (step: FrameStep)
    ensures
        step == frame_step(acquired, mesh@.indices.len() as u32),
        step.presents() <==> acquired is Ok,
        step == FrameStep::Reconfigure <==> acquired == Err::<(), AcquireError>(AcquireError::Lost),
        step == FrameStep::Skip <==> acquired == Err::<(), AcquireError>(AcquireError::Outdated),
{
    match acquired {
        Ok(_) => FrameStep::Draw(render_pass(mesh)),
        Err(AcquireError::Lost) => FrameStep::Reconfigure,
        Err(AcquireError::Outdated) => FrameStep::Skip,
        Err(error) => FrameStep::Report(error),
    }
}

} // verus!
