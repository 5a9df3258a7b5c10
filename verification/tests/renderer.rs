use scene2d::gfx::{FrameStart, FrameState, GameRenderer};
use scene2d::gpu::command::Command;
use scene2d::gpu::error::Error;
use scene2d::gpu::main_pipeline::{Instance, View, INDEX_SIZE, INSTANCE_SIZE, VERTEX_SIZE};

fn bits(columns: [[f32; 3]; 3]) -> [[u32; 3]; 3] {
    columns.map(|c| c.map(f32::to_bits))
}

fn identity() -> [[f32; 3]; 3] {
    [[1.0, 0.0, 0.0], [0.0, 1.0, 0.0], [0.0, 0.0, 1.0]]
}

#[test]
fn new_renderer_rests_with_an_identity_view() {
    let renderer = GameRenderer::new();
    assert_eq!(renderer.state(), FrameState::Idle);
    assert_eq!(renderer.main_pipeline().view().camera, bits(identity()));
    assert_eq!(renderer.draws().len(), 1);
    assert!(renderer.draws()[0].instances.is_empty());
}

#[test]
fn test_mesh_is_the_white_unit_square() {
    let renderer = GameRenderer::new();
    let mesh = renderer.test_mesh();
    assert_eq!(mesh.index_count(), 6);
    assert_eq!(mesh.vertex_buffer().size(), 4 * VERTEX_SIZE);
    assert_eq!(mesh.index_buffer().size(), 6 * INDEX_SIZE);
    assert_eq!(mesh.instance_buffer().size(), 0);
    let scalars: [f32; 24] = [
        0.0, 0.0, 1.0, 1.0, 1.0, 1.0, //
        1.0, 0.0, 1.0, 1.0, 1.0, 1.0, //
        0.0, 1.0, 1.0, 1.0, 1.0, 1.0, //
        1.0, 1.0, 1.0, 1.0, 1.0, 1.0,
    ];
    let mut vertex_bytes = Vec::new();
    for scalar in scalars {
        vertex_bytes.extend_from_slice(&scalar.to_ne_bytes());
    }
    assert_eq!(mesh.vertex_buffer().contents, vertex_bytes);
    let mut index_bytes = Vec::new();
    for index in [0u16, 1, 2, 2, 1, 3] {
        index_bytes.extend_from_slice(&index.to_ne_bytes());
    }
    assert_eq!(mesh.index_buffer().contents, index_bytes);
}

#[test]
fn frame_goes_from_idle_to_recording_to_submitted_to_idle() {
    let mut renderer = GameRenderer::new();
    assert_eq!(renderer.state(), FrameState::Idle);
    assert_eq!(renderer.begin_frame(Ok(())), FrameStart::Record);
    assert_eq!(renderer.state(), FrameState::Recording);
    let commands = renderer.render(View::new(bits(identity())), Instance::new(bits(identity())));
    assert_eq!(renderer.state(), FrameState::Submitted);
    assert_eq!(commands.last(), Some(&Command::Submit));
    renderer.end_frame();
    assert_eq!(renderer.state(), FrameState::Idle);
}

#[test]
fn lost_target_skips_the_frame() {
    for error in [Error::SurfaceLost, Error::SurfaceOutdated, Error::SurfaceTimeout] {
        let mut renderer = GameRenderer::new();
        assert_eq!(renderer.begin_frame(Err(error)), FrameStart::RecreateSwapChain);
        assert_eq!(renderer.state(), FrameState::Idle);
        // The next tick draws as if nothing had happened.
        assert_eq!(renderer.begin_frame(Ok(())), FrameStart::Record);
        assert_eq!(renderer.state(), FrameState::Recording);
    }
}

#[test]
fn fatal_error_aborts() {
    for error in
        [Error::OutOfMemory, Error::NoAdapter, Error::DeviceRequest, Error::PipelineConstruction]
    {
        let mut renderer = GameRenderer::new();
        assert_eq!(renderer.begin_frame(Err(error)), FrameStart::Abort(error));
        assert_eq!(renderer.state(), FrameState::Idle);
    }
}

#[test]
fn frame_draws_the_test_mesh_once_at_the_player() {
    let mut renderer = GameRenderer::new();
    let player = [[1.0f32, 0.0, 0.0], [0.0, 1.0, 0.0], [2.5, -4.0, 1.0]];
    let camera = [[0.2f32, 0.0, 0.0], [0.0, 0.2 * 16.0 / 9.0, 0.0], [0.0, 0.0, 1.0]];
    renderer.begin_frame(Ok(()));
    let commands = renderer.render(View::new(bits(camera)), Instance::new(bits(player)));
    let draw_calls: Vec<&Command> =
        commands.iter().filter(|c| matches!(c, Command::DrawIndexed { .. })).collect();
    assert_eq!(
        draw_calls,
        vec![&Command::DrawIndexed {
            index_start: 0,
            index_end: 6,
            base_vertex: 0,
            instance_start: 0,
            instance_end: 1,
        }]
    );
    assert_eq!(commands.len(), 11);
    assert_eq!(commands[0], Command::WriteViewUniform);
    assert_eq!(commands[1], Command::RebuildInstanceBuffer { draw: 0 });
    assert_eq!(renderer.main_pipeline().view().camera, bits(camera));
    let mut uniform = Vec::new();
    for column in camera {
        for scalar in column {
            uniform.extend_from_slice(&scalar.to_ne_bytes());
        }
        uniform.extend_from_slice(&[0, 0, 0, 0]);
    }
    assert_eq!(renderer.main_pipeline().view_buffer().contents, uniform);
    let mut staged = Vec::new();
    for column in player {
        for scalar in column {
            staged.extend_from_slice(&scalar.to_ne_bytes());
        }
    }
    assert_eq!(renderer.test_mesh().instance_buffer().contents, staged);
    assert_eq!(renderer.test_mesh().instance_buffer().size(), INSTANCE_SIZE);
    assert_eq!(renderer.draws()[0].instances.len(), 1);
}

#[test]
fn every_frame_stages_only_its_own_player() {
    let mut renderer = GameRenderer::new();
    for step in 0..3 {
        let player = [[1.0f32, 0.0, 0.0], [0.0, 1.0, 0.0], [step as f32, 0.0, 1.0]];
        assert_eq!(renderer.begin_frame(Ok(())), FrameStart::Record);
        renderer.render(View::new(bits(identity())), Instance::new(bits(player)));
        renderer.end_frame();
        let staged = &renderer.test_mesh().instance_buffer().contents;
        assert_eq!(staged.len(), INSTANCE_SIZE);
        assert_eq!(&staged[24..28], &(step as f32).to_ne_bytes());
        assert_eq!(renderer.test_mesh().index_count(), 6);
    }
}
