use scene2d::gpu::buffer::BufferUsage;
use scene2d::gpu::command::{Color, Command, IndexFormat, Stream, ONE_F64};
use scene2d::gpu::main_pipeline::{
    Draw, Instance, MainPipeline, Mesh, MeshData, Vertex, View, INSTANCE_SIZE, VIEW_SIZE,
};

fn bits(columns: [[f32; 3]; 3]) -> [[u32; 3]; 3] {
    columns.map(|c| c.map(f32::to_bits))
}

fn identity() -> [[f32; 3]; 3] {
    [[1.0, 0.0, 0.0], [0.0, 1.0, 0.0], [0.0, 0.0, 1.0]]
}

fn shift(x: f32, y: f32) -> [[f32; 3]; 3] {
    [[1.0, 0.0, 0.0], [0.0, 1.0, 0.0], [x, y, 1.0]]
}

fn image(matrices: &[[[f32; 3]; 3]]) -> Vec<u8> {
    let mut bytes = Vec::new();
    for matrix in matrices {
        for column in matrix {
            for scalar in column {
                bytes.extend_from_slice(&scalar.to_ne_bytes());
            }
        }
    }
    bytes
}

fn instances(matrices: &[[[f32; 3]; 3]]) -> Vec<Instance> {
    matrices.iter().map(|m| Instance::new(bits(*m))).collect()
}

fn quad(pipeline: &mut MainPipeline) -> Mesh {
    let white = [1.0f32.to_bits(); 4];
    let (zero, one) = (0.0f32.to_bits(), 1.0f32.to_bits());
    let vertices = [
        Vertex::new([zero, zero], white),
        Vertex::new([one, zero], white),
        Vertex::new([zero, one], white),
        Vertex::new([one, one], white),
    ];
    pipeline.create_mesh(&MeshData { vertices: &vertices, indices: &[0, 1, 2, 2, 1, 3] })
}

fn triangle(pipeline: &mut MainPipeline) -> Mesh {
    let red = [1.0f32, 0.0, 0.0, 1.0].map(f32::to_bits);
    let (zero, one) = (0.0f32.to_bits(), 1.0f32.to_bits());
    let vertices = [
        Vertex::new([zero, zero], red),
        Vertex::new([one, zero], red),
        Vertex::new([zero, one], red),
    ];
    pipeline.create_mesh(&MeshData { vertices: &vertices, indices: &[0, 1, 2] })
}

const BLACK: Color = Color { r: 0, g: 0, b: 0, a: ONE_F64 };

fn header() -> Vec<Command> {
    vec![
        Command::BeginRenderPass { clear: BLACK, store: true },
        Command::SetPipeline,
        Command::SetBindGroup { index: 0 },
    ]
}

fn block(draw: usize, index_end: u32, instance_end: u32) -> Vec<Command> {
    vec![
        Command::SetVertexBuffer { slot: 0, draw, stream: Stream::Vertices },
        Command::SetVertexBuffer { slot: 1, draw, stream: Stream::Instances },
        Command::SetIndexBuffer { draw, format: IndexFormat::Uint16 },
        Command::DrawIndexed {
            index_start: 0,
            index_end,
            base_vertex: 0,
            instance_start: 0,
            instance_end,
        },
    ]
}

fn draw_calls(commands: &[Command]) -> Vec<Command> {
    commands.iter().copied().filter(|c| matches!(c, Command::DrawIndexed { .. })).collect()
}

#[test]
fn background_is_opaque_black() {
    assert_eq!(f64::from_bits(BLACK.r), 0.0);
    assert_eq!(f64::from_bits(BLACK.g), 0.0);
    assert_eq!(f64::from_bits(BLACK.b), 0.0);
    assert_eq!(f64::from_bits(BLACK.a), 1.0);
}

#[test]
fn one_instance_at_identity_draws_six_indices_once() {
    let mut pipeline = MainPipeline::new(View::new(bits(identity())));
    let mesh = quad(&mut pipeline);
    let mut draws = vec![Draw { mesh, instances: instances(&[identity()]) }];
    let commands = pipeline.render(&mut draws);
    let mut expected = vec![Command::WriteViewUniform, Command::RebuildInstanceBuffer { draw: 0 }];
    expected.extend(header());
    expected.extend(block(0, 6, 1));
    expected.extend([Command::EndRenderPass, Command::Submit]);
    assert_eq!(commands, expected);
    assert_eq!(draw_calls(&commands).len(), 1);
    assert_eq!(draws[0].mesh.instance_buffer().contents, image(&[identity()]));
}

#[test]
fn wide_window_view_reaches_the_uniform_buffer() {
    // 16:9, zoom one fifth: scale (0.2, 0.2 * 16 / 9).
    let scale = scene2d::gfx::view_scale(1920, 1080).unwrap();
    let x = scale.x.num as f32 / scale.x.den as f32;
    let y = scale.y.num as f32 / scale.y.den as f32;
    let camera = [[x, 0.0, 0.0], [0.0, y, 0.0], [0.0, 0.0, 1.0]];
    let mut pipeline = MainPipeline::new(View::new(bits(identity())));
    pipeline.set_view(View::new(bits(camera)));
    let mesh = quad(&mut pipeline);
    let mut draws = vec![Draw { mesh, instances: instances(&[identity()]) }];
    let commands = pipeline.render(&mut draws);
    assert_eq!(commands[0], Command::WriteViewUniform);
    let uniform = &pipeline.view_buffer().contents;
    assert_eq!(uniform.len(), VIEW_SIZE);
    assert_eq!(&uniform[0..4], &x.to_ne_bytes());
    assert_eq!(&uniform[20..24], &y.to_ne_bytes());
    assert_eq!(&uniform[40..44], &1.0f32.to_ne_bytes());
    assert_eq!(&uniform[12..16], &[0, 0, 0, 0]);
    assert!((x - 0.2).abs() < 1e-6);
    assert!((y - 0.2 * 16.0 / 9.0).abs() < 1e-6);
    assert_eq!(draw_calls(&commands), vec![block(0, 6, 1)[3]]);
}

#[test]
fn three_instances_are_staged_in_the_order_supplied() {
    let mut pipeline = MainPipeline::new(View::new(bits(identity())));
    let mesh = quad(&mut pipeline);
    let transforms = [shift(1.0, 2.0), shift(-3.5, 0.25), shift(0.0, 9.0)];
    let mut draws = vec![Draw { mesh, instances: instances(&transforms) }];
    let commands = pipeline.render(&mut draws);
    let staged = draws[0].mesh.instance_buffer();
    assert_eq!(staged.size(), 3 * INSTANCE_SIZE);
    assert_eq!(staged.contents, image(&transforms));
    assert_eq!(&staged.contents[0..36], &image(&[shift(1.0, 2.0)])[..]);
    assert_eq!(&staged.contents[36..72], &image(&[shift(-3.5, 0.25)])[..]);
    assert_eq!(&staged.contents[72..108], &image(&[shift(0.0, 9.0)])[..]);
    assert_eq!(staged.label, "Main Instance Buffer");
    assert_eq!(staged.usage, BufferUsage::vertices());
    assert_eq!(draws[0].mesh.instance_count(), 3);
    assert_eq!(draw_calls(&commands), vec![block(0, 6, 3)[3]]);
}

#[test]
fn empty_instance_list_still_gives_a_whole_pass() {
    let mut pipeline = MainPipeline::new(View::new(bits(identity())));
    let mesh = quad(&mut pipeline);
    let mut draws = vec![Draw { mesh, instances: Vec::new() }];
    let commands = pipeline.render(&mut draws);
    let mut expected = vec![Command::WriteViewUniform, Command::RebuildInstanceBuffer { draw: 0 }];
    expected.extend(header());
    expected.extend(block(0, 6, 0));
    expected.extend([Command::EndRenderPass, Command::Submit]);
    assert_eq!(commands, expected);
    assert_eq!(draws[0].mesh.instance_buffer().size(), 0);
    assert_eq!(draws[0].mesh.instance_count(), 0);
}

#[test]
fn frame_without_draws_clears_and_submits() {
    let mut pipeline = MainPipeline::new(View::new(bits(identity())));
    let mut draws: Vec<Draw> = Vec::new();
    let commands = pipeline.render(&mut draws);
    let mut expected = vec![Command::WriteViewUniform];
    expected.extend(header());
    expected.extend([Command::EndRenderPass, Command::Submit]);
    assert_eq!(commands, expected);
    assert!(draws.is_empty());
}

#[test]
fn instance_buffer_follows_the_list_of_every_frame() {
    let mut pipeline = MainPipeline::new(View::new(bits(identity())));
    let mesh = quad(&mut pipeline);
    let mut draws = vec![Draw { mesh, instances: Vec::new() }];
    let frames: [&[[[f32; 3]; 3]]; 5] = [
        &[shift(1.0, 1.0), shift(2.0, 2.0), shift(3.0, 3.0)],
        &[shift(4.0, 4.0)],
        &[],
        &[shift(5.0, 5.0), shift(6.0, 6.0)],
        &[shift(7.0, 7.0), shift(8.0, 8.0)],
    ];
    for frame in frames {
        draws[0].instances = instances(frame);
        let commands = pipeline.render(&mut draws);
        assert_eq!(draws[0].mesh.instance_buffer().size(), frame.len() * INSTANCE_SIZE);
        assert_eq!(draws[0].mesh.instance_count(), frame.len());
        assert_eq!(draws[0].mesh.instance_buffer().contents, image(frame));
        assert_eq!(draw_calls(&commands), vec![block(0, 6, frame.len() as u32)[3]]);
    }
}

#[test]
fn rendering_twice_records_the_same_frame() {
    let mut pipeline = MainPipeline::new(View::new(bits(shift(0.5, 0.5))));
    let mesh = quad(&mut pipeline);
    let transforms = [shift(1.0, 2.0), shift(3.0, 4.0)];
    let mut draws = vec![Draw { mesh, instances: instances(&transforms) }];
    let first = pipeline.render(&mut draws);
    let first_uniform = pipeline.view_buffer().contents.clone();
    let first_instances = draws[0].mesh.instance_buffer().contents.clone();
    let second = pipeline.render(&mut draws);
    assert_eq!(first, second);
    assert_eq!(pipeline.view_buffer().contents, first_uniform);
    assert_eq!(draws[0].mesh.instance_buffer().contents, first_instances);
}

#[test]
fn rendering_never_touches_geometry_or_instance_lists() {
    let mut pipeline = MainPipeline::new(View::new(bits(identity())));
    let mesh = quad(&mut pipeline);
    let vertex_bytes = mesh.vertex_buffer().contents.clone();
    let index_bytes = mesh.index_buffer().contents.clone();
    let transforms = [shift(1.0, 2.0), shift(3.0, 4.0)];
    let mut draws = vec![Draw { mesh, instances: instances(&transforms) }];
    pipeline.render(&mut draws);
    assert_eq!(draws.len(), 1);
    assert_eq!(draws[0].mesh.index_count(), 6);
    assert_eq!(draws[0].mesh.vertex_buffer().contents, vertex_bytes);
    assert_eq!(draws[0].mesh.index_buffer().contents, index_bytes);
    assert_eq!(draws[0].instances.len(), 2);
    assert_eq!(draws[0].instances[0].transform, bits(shift(1.0, 2.0)));
    assert_eq!(draws[0].instances[1].transform, bits(shift(3.0, 4.0)));
}

#[test]
fn rendering_keeps_the_view_and_writes_it_anew() {
    let mut pipeline = MainPipeline::new(View::new(bits(identity())));
    let camera = [[0.2f32, 0.0, 0.0], [0.0, 0.3, 0.0], [0.0, 0.0, 1.0]];
    pipeline.set_view(View::new(bits(camera)));
    let stale = pipeline.view_buffer().contents.clone();
    let mut draws: Vec<Draw> = Vec::new();
    pipeline.render(&mut draws);
    assert_eq!(pipeline.view().camera, bits(camera));
    assert_ne!(pipeline.view_buffer().contents, stale);
    let mut expected = Vec::new();
    for column in camera {
        for scalar in column {
            expected.extend_from_slice(&scalar.to_ne_bytes());
        }
        expected.extend_from_slice(&[0, 0, 0, 0]);
    }
    assert_eq!(pipeline.view_buffer().contents, expected);
    assert_eq!(pipeline.view_buffer().usage, BufferUsage::uniforms());
    assert_eq!(pipeline.view_buffer().label, "Main View Buffer");
}

#[test]
fn meshes_are_drawn_in_the_order_given() {
    let mut pipeline = MainPipeline::new(View::new(bits(identity())));
    let quad = quad(&mut pipeline);
    let triangle = triangle(&mut pipeline);
    let mut draws = vec![
        Draw { mesh: quad, instances: instances(&[shift(1.0, 0.0), shift(2.0, 0.0)]) },
        Draw { mesh: triangle, instances: instances(&[shift(0.0, 5.0)]) },
    ];
    let commands = pipeline.render(&mut draws);
    let mut expected = vec![
        Command::WriteViewUniform,
        Command::RebuildInstanceBuffer { draw: 0 },
        Command::RebuildInstanceBuffer { draw: 1 },
    ];
    expected.extend(header());
    expected.extend(block(0, 6, 2));
    expected.extend(block(1, 3, 1));
    expected.extend([Command::EndRenderPass, Command::Submit]);
    assert_eq!(commands, expected);
    assert_eq!(commands.len(), 6 + 5 * 2);
    assert_eq!(
        draws[0].mesh.instance_buffer().contents,
        image(&[shift(1.0, 0.0), shift(2.0, 0.0)])
    );
    assert_eq!(draws[1].mesh.instance_buffer().contents, image(&[shift(0.0, 5.0)]));
}

#[test]
fn every_draw_call_comes_after_the_rebuild_of_its_instances() {
    let mut pipeline = MainPipeline::new(View::new(bits(identity())));
    let mut draws = Vec::new();
    for k in 0..4 {
        let mesh = quad(&mut pipeline);
        let list: Vec<[[f32; 3]; 3]> = (0..k).map(|i| shift(i as f32, 0.0)).collect();
        draws.push(Draw { mesh, instances: instances(&list) });
    }
    let commands = pipeline.render(&mut draws);
    for (position, command) in commands.iter().enumerate() {
        if let Command::DrawIndexed { instance_end, .. } = command {
            let Command::SetVertexBuffer { slot: 1, draw, stream: Stream::Instances } =
                commands[position - 2]
            else {
                panic!("the instance stream is not bound two commands before the draw call");
            };
            assert_eq!(*instance_end as usize, draw);
            let rebuilt = commands
                .iter()
                .position(|c| *c == Command::RebuildInstanceBuffer { draw })
                .unwrap();
            assert!(rebuilt < position);
        }
    }
    assert_eq!(draw_calls(&commands).len(), 4);
}
