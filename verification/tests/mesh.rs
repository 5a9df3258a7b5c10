use scene2d::gpu::buffer::BufferUsage;
use scene2d::gpu::main_pipeline::{
    Instance, MainPipeline, Mesh, MeshData, Vertex, View, INDEX_SIZE, INSTANCE_SIZE, VERTEX_SIZE,
};

fn identity() -> [[u32; 3]; 3] {
    let one = 1.0f32.to_bits();
    [[one, 0, 0], [0, one, 0], [0, 0, one]]
}

fn vertex(x: f32, y: f32, color: [f32; 4]) -> Vertex {
    Vertex::new([x.to_bits(), y.to_bits()], color.map(f32::to_bits))
}

fn quad() -> ([Vertex; 4], [u16; 6]) {
    let white = [1.0, 1.0, 1.0, 1.0];
    (
        [
            vertex(0.0, 0.0, white),
            vertex(1.0, 0.0, white),
            vertex(0.0, 1.0, white),
            vertex(1.0, 1.0, white),
        ],
        [0, 1, 2, 2, 1, 3],
    )
}

fn quad_mesh() -> Mesh {
    let (vertices, indices) = quad();
    let mut pipeline = MainPipeline::new(View::new(identity()));
    pipeline.create_mesh(&MeshData { vertices: &vertices, indices: &indices })
}

#[test]
fn constructors_keep_their_arguments() {
    let v = Vertex::new([1, 2], [3, 4, 5, 6]);
    assert_eq!(v.position, [1, 2]);
    assert_eq!(v.color, [3, 4, 5, 6]);
    let view = View::new([[1, 2, 3], [4, 5, 6], [7, 8, 9]]);
    assert_eq!(view.camera, [[1, 2, 3], [4, 5, 6], [7, 8, 9]]);
}

#[test]
fn mesh_reports_the_number_of_indices_it_was_made_from() {
    assert_eq!(quad_mesh().index_count(), 6);
}

#[test]
fn vertex_buffer_is_sized_exactly_to_the_vertices() {
    let mesh = quad_mesh();
    assert_eq!(mesh.vertex_buffer().size(), 4 * VERTEX_SIZE);
    assert_eq!(mesh.vertex_buffer().label, "Main Vertex Buffer");
    assert_eq!(mesh.vertex_buffer().usage, BufferUsage::vertices());
}

#[test]
fn vertex_buffer_holds_position_then_color_of_every_vertex() {
    let mesh = quad_mesh();
    let scalars: [f32; 24] = [
        0.0, 0.0, 1.0, 1.0, 1.0, 1.0, //
        1.0, 0.0, 1.0, 1.0, 1.0, 1.0, //
        0.0, 1.0, 1.0, 1.0, 1.0, 1.0, //
        1.0, 1.0, 1.0, 1.0, 1.0, 1.0,
    ];
    let mut expected = Vec::new();
    for scalar in scalars {
        expected.extend_from_slice(&scalar.to_ne_bytes());
    }
    assert_eq!(mesh.vertex_buffer().contents, expected);
    assert_eq!(mesh.vertex_buffer().contents, bytemuck::cast_slice::<f32, u8>(&scalars));
}

#[test]
fn vertex_bytes_are_the_bytes_of_the_scalars_not_the_scalars() {
    let mut pipeline = MainPipeline::new(View::new(identity()));
    let vertices = [vertex(0.5, -2.0, [0.1, 0.2, 0.3, 0.4])];
    let mesh = pipeline.create_mesh(&MeshData { vertices: &vertices, indices: &[] });
    let mut expected = Vec::new();
    for scalar in [0.5f32, -2.0, 0.1, 0.2, 0.3, 0.4] {
        expected.extend_from_slice(&scalar.to_ne_bytes());
    }
    assert_eq!(mesh.vertex_buffer().contents, expected);
    assert_eq!(mesh.vertex_buffer().size(), VERTEX_SIZE);
    assert_eq!(&mesh.vertex_buffer().contents[0..4], &0x3F00_0000u32.to_ne_bytes());
}

#[test]
fn index_buffer_is_sized_exactly_to_the_indices() {
    let mesh = quad_mesh();
    assert_eq!(mesh.index_buffer().size(), 6 * INDEX_SIZE);
    assert_eq!(mesh.index_buffer().label, "Main Index Buffer");
    assert_eq!(mesh.index_buffer().usage, BufferUsage::indices());
}

#[test]
fn index_buffer_holds_every_index_in_sixteen_bits() {
    let mesh = quad_mesh();
    let mut expected = Vec::new();
    for index in [0u16, 1, 2, 2, 1, 3] {
        expected.extend_from_slice(&index.to_ne_bytes());
    }
    assert_eq!(mesh.index_buffer().contents, expected);
}

#[test]
fn wide_indices_keep_both_bytes() {
    let mut pipeline = MainPipeline::new(View::new(identity()));
    let indices = [0x1234u16, 0xFFFF, 0x0100];
    let mesh = pipeline.create_mesh(&MeshData { vertices: &[], indices: &indices });
    let mut expected = Vec::new();
    for index in indices {
        expected.extend_from_slice(&index.to_ne_bytes());
    }
    assert_eq!(mesh.index_buffer().contents, expected);
    assert_eq!(mesh.index_count(), 3);
}

#[test]
fn new_mesh_stages_no_instance() {
    let mesh = quad_mesh();
    assert_eq!(mesh.instance_buffer().size(), 0);
    assert_eq!(mesh.instance_count(), 0);
    assert_eq!(mesh.instance_buffer().label, "Main Instance Buffer");
    assert_eq!(mesh.instance_buffer().usage, BufferUsage::vertices());
}

#[test]
fn empty_mesh_has_empty_buffers() {
    let mut pipeline = MainPipeline::new(View::new(identity()));
    let mesh = pipeline.create_mesh(&MeshData { vertices: &[], indices: &[] });
    assert_eq!(mesh.index_count(), 0);
    assert_eq!(mesh.vertex_buffer().size(), 0);
    assert_eq!(mesh.index_buffer().size(), 0);
}

#[test]
fn indices_are_not_checked_against_the_vertices() {
    let mut pipeline = MainPipeline::new(View::new(identity()));
    let (vertices, _) = quad();
    let mesh = pipeline.create_mesh(&MeshData { vertices: &vertices, indices: &[0, 1, 900] });
    assert_eq!(mesh.index_count(), 3);
    assert_eq!(mesh.index_buffer().size(), 3 * INDEX_SIZE);
}

#[test]
fn largest_mesh_keeps_its_index_count() {
    let mut pipeline = MainPipeline::new(View::new(identity()));
    let indices = vec![7u16; u16::MAX as usize];
    let mesh = pipeline.create_mesh(&MeshData { vertices: &[], indices: &indices });
    assert_eq!(mesh.index_count(), 65535);
    assert_eq!(mesh.index_buffer().size(), 65535 * INDEX_SIZE);
}

#[test]
fn creating_a_mesh_leaves_the_pipeline_alone() {
    let mut pipeline = MainPipeline::new(View::new(identity()));
    let uniform = pipeline.view_buffer().contents.clone();
    let (vertices, indices) = quad();
    let _ = pipeline.create_mesh(&MeshData { vertices: &vertices, indices: &indices });
    assert_eq!(pipeline.view().camera, identity());
    assert_eq!(pipeline.view_buffer().contents, uniform);
}

#[test]
fn mesh_new_is_what_the_pipeline_creates() {
    let (vertices, indices) = quad();
    let data = MeshData { vertices: &vertices, indices: &indices };
    let direct = Mesh::new(&data);
    let created = quad_mesh();
    assert_eq!(direct.index_count(), created.index_count());
    assert_eq!(direct.vertex_buffer().contents, created.vertex_buffer().contents);
    assert_eq!(direct.index_buffer().contents, created.index_buffer().contents);
    assert_eq!(direct.instance_buffer().contents, created.instance_buffer().contents);
}

#[test]
fn update_stages_exactly_the_instances_given() {
    let mut mesh = quad_mesh();
    let first = [[1.0f32, 0.0, 0.0], [0.0, 1.0, 0.0], [2.0, 3.0, 1.0]];
    let second = [[0.5f32, 0.0, 0.0], [0.0, 0.5, 0.0], [-1.0, 4.0, 1.0]];
    let list = [first, second].map(|m| Instance::new(m.map(|c| c.map(f32::to_bits))));
    mesh.update(&list);
    let mut expected = Vec::new();
    for matrix in [first, second] {
        for column in matrix {
            for scalar in column {
                expected.extend_from_slice(&scalar.to_ne_bytes());
            }
        }
    }
    assert_eq!(mesh.instance_buffer().contents, expected);
    assert_eq!(mesh.instance_buffer().size(), 2 * INSTANCE_SIZE);
    assert_eq!(mesh.instance_count(), 2);
}

#[test]
fn update_forgets_what_was_staged_before() {
    let mut mesh = quad_mesh();
    let identity = Instance::new(identity());
    mesh.update(&[identity, identity, identity]);
    assert_eq!(mesh.instance_count(), 3);
    mesh.update(&[identity]);
    assert_eq!(mesh.instance_count(), 1);
    assert_eq!(mesh.instance_buffer().size(), INSTANCE_SIZE);
    mesh.update(&[]);
    assert_eq!(mesh.instance_count(), 0);
    assert!(mesh.instance_buffer().contents.is_empty());
}

#[test]
fn update_leaves_the_geometry_alone() {
    let mut mesh = quad_mesh();
    let vertex_bytes = mesh.vertex_buffer().contents.clone();
    let index_bytes = mesh.index_buffer().contents.clone();
    mesh.update(&[Instance::new(identity())]);
    assert_eq!(mesh.index_count(), 6);
    assert_eq!(mesh.vertex_buffer().contents, vertex_bytes);
    assert_eq!(mesh.index_buffer().contents, index_bytes);
}
