use rectbatch::frame::{
    background, plan_frame, render_pass, AcquireError, Color, DrawCall, FrameStep, IndexFormat,
    RenderPass,
};
use rectbatch::geometry::{scene_rects, Mesh};

fn scene_pass() -> RenderPass {
    RenderPass {
        clear: Color { r: 5, g: 5, b: 8, a: 100 },
        store: true,
        vertex_slot: 0,
        index_format: IndexFormat::Uint16,
        draw: DrawCall {
            first_index: 0,
            end_index: 30,
            base_vertex: 0,
            first_instance: 0,
            end_instance: 1,
        },
    }
}

#[test]
fn background_is_dark_and_opaque() {
    let color = background();
    assert_eq!(color, Color { r: 5, g: 5, b: 8, a: 100 });
    let channels = [color.r, color.g, color.b, color.a].map(|c| c as f64 / 100.0);
    assert_eq!(channels, [0.05, 0.05, 0.08, 1.0]);
}

#[test]
fn one_draw_call_spans_the_whole_index_range() {
    let mesh = Mesh::build(&scene_rects());
    let pass = render_pass(&mesh);
    assert_eq!(pass, scene_pass());
    assert_eq!(pass.draw.end_index, mesh.index_count());
    assert_eq!(pass.draw.end_index - pass.draw.first_index, 3 * mesh.triangle_count());
}

#[test]
fn an_empty_mesh_draws_nothing() {
    let mesh = Mesh::build(&[]);
    let pass = render_pass(&mesh);
    assert_eq!(pass.draw.first_index, 0);
    assert_eq!(pass.draw.end_index, 0);
    assert_eq!(pass.draw.end_instance, 1);
}

#[test]
fn an_acquired_texture_is_drawn_to() {
    let mesh = Mesh::build(&scene_rects());
    assert_eq!(plan_frame(Ok(()), &mesh), FrameStep::Draw(scene_pass()));
}

#[test]
fn a_lost_surface_is_configured_again() {
    let mesh = Mesh::build(&scene_rects());
    assert_eq!(plan_frame(Err(AcquireError::Lost), &mesh), FrameStep::Reconfigure);
}

#[test]
fn an_outdated_surface_skips_the_frame() {
    let mesh = Mesh::build(&scene_rects());
    assert_eq!(plan_frame(Err(AcquireError::Outdated), &mesh), FrameStep::Skip);
}

#[test]
fn other_errors_are_reported() {
    let mesh = Mesh::build(&scene_rects());
    for error in [AcquireError::Timeout, AcquireError::OutOfMemory, AcquireError::Other] {
        assert_eq!(plan_frame(Err(error), &mesh), FrameStep::Report(error));
    }
}

#[test]
fn a_failed_frame_is_followed_by_a_drawn_one() {
    let mesh = Mesh::build(&scene_rects());
    let outcomes = [
        Err(AcquireError::Lost),
        Ok(()),
        Err(AcquireError::Other),
        Ok(()),
        Err(AcquireError::Outdated),
        Ok(()),
    ];
    let drawn: Vec<bool> = outcomes
        .iter()
        .map(|o| matches!(plan_frame(*o, &mesh), FrameStep::Draw(_)))
        .collect();
    assert_eq!(drawn, vec![false, true, false, true, false, true]);
}
