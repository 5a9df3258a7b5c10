//! The main pipeline: vertices, instances and the view, the meshes made of them and the
//! frames that draw them.

use vstd::prelude::*;
use vstd::view::View as _;
use crate::gpu::buffer::{Buffer, BufferUsage};
use crate::gpu::command::{
    frame_commands, pass_commands, pass_header, upload_commands, Color, Command, IndexFormat,
    Stream, ONE_F64,
};
use crate::gpu::encoding::{cast_indices, cast_words, is_index_image, is_word_image};
use crate::gpu::layout::{
    BlendState, ColorTargetState, CullMode, FrontFace, InputStepMode, MultisampleState,
    PolygonMode, PrimitiveState, PrimitiveTopology, UniformBinding, VertexBufferLayout,
    VertexFormat,
};

verus! {

/// Bytes one vertex occupies in a vertex buffer: a 2D position and an RGBA
/// color, six scalars.
pub const VERTEX_SIZE: usize = 24;

/// Bytes one instance occupies in an instance buffer: a 3x3 matrix, nine
/// scalars.
pub const INSTANCE_SIZE: usize = 36;

/// Bytes one index occupies in an index buffer.
pub const INDEX_SIZE: usize = 2;

/// Bytes the view uniform occupies: three columns, each padded to four
/// scalars.
pub const VIEW_SIZE: usize = 48;

/// View uniform: the camera transform, column by column, every scalar as
/// the bit pattern of a single precision float.
#[derive(Clone, Copy, Debug)]
pub struct View {
    pub camera: [[u32; 3]; 3],
}

/// A single unit of vertex information: a position and an RGBA color,
/// every scalar as the bit pattern of a single precision float.
#[derive(Clone, Copy, Debug)]
pub struct Vertex {
    pub position: [u32; 2],
    pub color: [u32; 4],
}

/// An instance of a mesh: the transform applied to one copy of it, column by
/// column, every scalar as the bit pattern of a single precision float.
#[derive(Clone, Copy, Debug)]
pub struct Instance {
    pub transform: [[u32; 3]; 3],
}

impl View {
    /// The view through `camera`.
    pub fn new(camera: [[u32; 3]; 3]) -> (view: View)
        ensures
            view.camera == camera,
    {
        View { camera }
    }

    /// The twelve scalars of the uniform block: each column followed by one
    /// zero scalar of padding.
    pub open spec fn words(self) -> Seq<u32> {
        self.camera[0]@ + seq![0u32] + self.camera[1]@ + seq![0u32] + self.camera[2]@
            + seq![0u32]
    }
}

impl Vertex {
    /// The vertex at `position` with `color`.
    pub fn new(position: [u32; 2], color: [u32; 4]) -> (vertex: Vertex)
        ensures
            vertex.position == position,
            vertex.color == color,
    {
        Vertex { position, color }
    }

    /// The six scalars of the vertex: position, then color.
    pub open spec fn words(self) -> Seq<u32> {
        self.position@ + self.color@
    }
}

impl Instance {
    /// The instance placed by `transform`.
    pub fn new(transform: [[u32; 3]; 3]) -> (instance: Instance)
        ensures
            instance.transform == transform,
    {
        Instance { transform }
    }

    /// The nine scalars of the transform, column after column.
    pub open spec fn words(self) -> Seq<u32> {
        self.transform[0]@ + self.transform[1]@ + self.transform[2]@
    }
}

/// The scalars of a vertex list: six per vertex, in the order of the list.
pub open spec fn vertex_words(vertices: Seq<Vertex>) -> Seq<u32> {
    Seq::new(6 * vertices.len(), |j: int| vertices[j / 6].words()[j % 6])
}

/// The scalars of an instance list: nine per instance, in the order of the
/// list.
pub open spec fn instance_words(instances: Seq<Instance>) -> Seq<u32> {
    Seq::new(9 * instances.len(), |j: int| instances[j / 9].words()[j % 9])
}

/// Vertices and indices of a mesh, unrelated to the gpu.
pub struct MeshData<'a> {
    pub vertices: &'a [Vertex],
    pub indices: &'a [u16],
}

/// Lays the scalars of the vertices end to end.
fn flatten_vertices(vertices: &[Vertex]) -> (words: Vec<u32>)
    ensures
        words@ == vertex_words(vertices@),
{
    let mut words: Vec<u32> = Vec::new();
    let mut i: usize = 0;
    while i < vertices.len()
        invariant
            i <= vertices@.len(),
            words@.len() == 6 * i,
            forall|j: int| 0 <= j < 6 * i ==> words@[j] == vertices@[j / 6].words()[j % 6],
        decreases vertices@.len() - i,
    {
        let v = &vertices[i];
        words.push(v.position[0]);
        words.push(v.position[1]);
        words.push(v.color[0]);
        words.push(v.color[1]);
        words.push(v.color[2]);
        words.push(v.color[3]);
        i = i + 1;
    }
    words
}

/// Lays the scalars of the instances end to end.
fn flatten_instances(instances: &[Instance]) -> (words: Vec<u32>)
    ensures
        words@ == instance_words(instances@),
{
    let mut words: Vec<u32> = Vec::new();
    let mut i: usize = 0;
    while i < instances.len()
        invariant
            i <= instances@.len(),
            words@.len() == 9 * i,
            forall|j: int| 0 <= j < 9 * i ==> words@[j] == instances@[j / 9].words()[j % 9],
        decreases instances@.len() - i,
    {
        let t = &instances[i].transform;
        let mut c: usize = 0;
        while c < 3
            invariant
                c <= 3,
                i < instances@.len(),
                *t == instances@[i as int].transform,
                words@.len() == 9 * i + 3 * c,
                forall|j: int|
                    0 <= j < 9 * i + 3 * c ==> words@[j] == instances@[j / 9].words()[j % 9],
            decreases 3 - c,
        {
            words.push(t[c][0]);
            words.push(t[c][1]);
            words.push(t[c][2]);
            c = c + 1;
        }
        i = i + 1;
    }
    words
}

/// The uniform buffer that holds the uniform block of `view`.
fn create_view_buffer(view: &View) -> (buffer: Buffer)
    ensures
        buffer.label@ == "Main View Buffer"@,
        buffer.usage == BufferUsage::uniforms(),
        is_word_image(buffer.contents@, view.words()),
        buffer.contents@.len() == VIEW_SIZE,
{
    let mut words: Vec<u32> = Vec::new();
    let mut c: usize = 0;
    while c < 3
        invariant
            c <= 3,
            words@.len() == 4 * c,
            forall|j: int| 0 <= j < 4 * c ==> words@[j] == view.words()[j],
        decreases 3 - c,
    {
        words.push(view.camera[c][0]);
        words.push(view.camera[c][1]);
        words.push(view.camera[c][2]);
        words.push(0);
        c = c + 1;
    }
    assert(words@ =~= view.words());
    Buffer {
        label: "Main View Buffer",
        contents: cast_words(words.as_slice()),
        usage: BufferUsage::uniforms(),
    }
}

/// The vertex buffer that holds exactly `vertices`.
fn create_vertex_buffer(vertices: &[Vertex]) -> (buffer: Buffer)
    ensures
        buffer.label@ == "Main Vertex Buffer"@,
        buffer.usage == BufferUsage::vertices(),
        is_word_image(buffer.contents@, vertex_words(vertices@)),
        buffer.contents@.len() == VERTEX_SIZE * vertices@.len(),
{
    let words = flatten_vertices(vertices);
    Buffer {
        label: "Main Vertex Buffer",
        contents: cast_words(words.as_slice()),
        usage: BufferUsage::vertices(),
    }
}

/// The index buffer that holds exactly `indices`.
fn create_index_buffer(indices: &[u16]) -> (buffer: Buffer)
    ensures
        buffer.label@ == "Main Index Buffer"@,
        buffer.usage == BufferUsage::indices(),
        is_index_image(buffer.contents@, indices@),
        buffer.contents@.len() == INDEX_SIZE * indices@.len(),
{
    Buffer {
        label: "Main Index Buffer",
        contents: cast_indices(indices),
        usage: BufferUsage::indices(),
    }
}

/// The instance buffer that holds exactly `instances`.
fn create_instance_buffer(instances: &[Instance]) -> (buffer: Buffer)
    ensures
        buffer.label@ == "Main Instance Buffer"@,
        buffer.usage == BufferUsage::vertices(),
        is_word_image(buffer.contents@, instance_words(instances@)),
        buffer.contents@.len() == INSTANCE_SIZE * instances@.len(),
{
    let words = flatten_instances(instances);
    Buffer {
        label: "Main Instance Buffer",
        contents: cast_words(words.as_slice()),
        usage: BufferUsage::vertices(),
    }
}

/// A full mesh as the device holds it: immutable geometry and the instance
/// buffer of the latest draw.
#[derive(Debug)]
pub struct Mesh {
    index_count: u32,
    vertex_buffer: Buffer,
    index_buffer: Buffer,
    instance_buffer: Buffer,
}

impl Mesh {
    /// What `index_count` returns, for use in contracts.
    pub closed spec fn spec_index_count(&self) -> u32 {
        self.index_count
    }

    /// What `vertex_buffer` returns, for use in contracts.
    pub closed spec fn spec_vertex_buffer(&self) -> &Buffer {
        &self.vertex_buffer
    }

    /// What `index_buffer` returns, for use in contracts.
    pub closed spec fn spec_index_buffer(&self) -> &Buffer {
        &self.index_buffer
    }

    /// What `instance_buffer` returns, for use in contracts.
    pub closed spec fn spec_instance_buffer(&self) -> &Buffer {
        &self.instance_buffer
    }

    /// The number of indices every draw of this mesh requests.
    #[verifier::when_used_as_spec(spec_index_count)]
    pub fn index_count(&self) -> (n: u32)
        ensures
            n == self.index_count(),
    {
        self.index_count
    }

    /// The per-vertex stream.
    #[verifier::when_used_as_spec(spec_vertex_buffer)]
    pub fn vertex_buffer(&self) -> (buffer: &Buffer)
        ensures
            buffer == self.vertex_buffer(),
    {
        &self.vertex_buffer
    }

    /// The index stream, sixteen bits per index.
    #[verifier::when_used_as_spec(spec_index_buffer)]
    pub fn index_buffer(&self) -> (buffer: &Buffer)
        ensures
            buffer == self.index_buffer(),
    {
        &self.index_buffer
    }

    /// The per-instance stream of the latest draw.
    #[verifier::when_used_as_spec(spec_instance_buffer)]
    pub fn instance_buffer(&self) -> (buffer: &Buffer)
        ensures
            buffer == self.instance_buffer(),
    {
        &self.instance_buffer
    }

    /// The buffers are what they are labelled and bound as, the index buffer
    /// holds exactly `index_count` indices, and the two vertex streams hold
    /// whole elements.
    pub open spec fn wf(&self) -> bool {
        &&& self.vertex_buffer().label@ == "Main Vertex Buffer"@
        &&& self.vertex_buffer().usage == BufferUsage::vertices()
        &&& self.vertex_buffer().contents@.len() % (VERTEX_SIZE as nat) == 0
        &&& self.index_buffer().label@ == "Main Index Buffer"@
        &&& self.index_buffer().usage == BufferUsage::indices()
        &&& self.index_buffer().contents@.len() == INDEX_SIZE * self.index_count()
        &&& self.instance_buffer().label@ == "Main Instance Buffer"@
        &&& self.instance_buffer().usage == BufferUsage::vertices()
        &&& self.instance_buffer().contents@.len() % (INSTANCE_SIZE as nat) == 0
    }

    /// `self` is the mesh that `vertices` and `indices` create: its buffers
    /// are their images, sized exactly to them, and no instance is staged.
    pub open spec fn holds(&self, vertices: Seq<Vertex>, indices: Seq<u16>) -> bool {
        &&& self.wf()
        &&& self.index_count() == indices.len()
        &&& is_word_image(self.vertex_buffer().contents@, vertex_words(vertices))
        &&& self.vertex_buffer().contents@.len() == VERTEX_SIZE * vertices.len()
        &&& is_index_image(self.index_buffer().contents@, indices)
    }

    /// The instance buffer stages exactly `instances`, in order.
    pub open spec fn stages(&self, instances: Seq<Instance>) -> bool {
        &&& self.instance_buffer().label@ == "Main Instance Buffer"@
        &&& self.instance_buffer().usage == BufferUsage::vertices()
        &&& is_word_image(self.instance_buffer().contents@, instance_words(instances))
        &&& self.instance_buffer().contents@.len() == INSTANCE_SIZE * instances.len()
    }

    /// `self` has the geometry of `other`: only the staged instances may
    /// differ.
    pub open spec fn same_geometry(&self, other: &Mesh) -> bool {
        &&& self.index_count() == other.index_count()
        &&& self.vertex_buffer() == other.vertex_buffer()
        &&& self.index_buffer() == other.index_buffer()
    }

    /// The mesh of `data`: a vertex buffer and an index buffer sized exactly
    /// to the input, and an empty instance buffer.
    pub fn new(data: &MeshData) -> (mesh: Mesh)
        requires
            data.indices@.len() <= u16::MAX,
        ensures
            mesh.holds(data.vertices@, data.indices@),
            mesh.stages(Seq::<Instance>::empty()),
    {
        let no_instances: Vec<Instance> = Vec::new();
        Mesh {
            index_count: data.indices.len() as u32,
            vertex_buffer: create_vertex_buffer(data.vertices),
            index_buffer: create_index_buffer(data.indices),
            instance_buffer: create_instance_buffer(no_instances.as_slice()),
        }
    }

    /// Replaces the instance buffer with a new one that holds exactly
    /// `instances`. Nothing of the old buffer is kept, and the geometry is
    /// not touched.
    pub fn update(&mut self, instances: &[Instance])
        ensures
            final(self).same_geometry(old(self)),
            final(self).stages(instances@),
            old(self).wf() ==> final(self).wf(),
    {
        self.instance_buffer = create_instance_buffer(instances);
    }

    /// The number of instances staged for the next draw.
    pub fn instance_count(&self) -> (k: usize)
        ensures
            k == self.instance_buffer().contents@.len() / (INSTANCE_SIZE as nat),
    {
        self.instance_buffer.contents.len() / INSTANCE_SIZE
    }
}

/// One entry of a frame: a mesh and the instances to draw it with.
#[derive(Debug)]
pub struct Draw {
    pub mesh: Mesh,
    pub instances: Vec<Instance>,
}

/// The index count and the instance count of every draw.
pub open spec fn draw_shapes(draws: Seq<Draw>) -> Seq<(u32, u32)> {
    Seq::new(
        draws.len(),
        |i: int| (draws[i].mesh.index_count(), draws[i].instances@.len() as u32),
    )
}

/// What rendering one frame does to a pipeline and to its draws.
///
/// The pipeline keeps its view and its fixed state, and its uniform buffer
/// holds the uniform block of that view. Every draw keeps its instance list
/// and the geometry of its mesh, and the instance buffer of its mesh stages
/// exactly that list, whatever it staged before. The commands are those of
/// `frame_commands` for the index and instance counts of the draws.
pub open spec fn rendered(
    before: &MainPipeline,
    draws_before: Seq<Draw>,
    after: &MainPipeline,
    draws_after: Seq<Draw>,
    commands: Seq<Command>,
) -> bool {
    &&& after.view() == before.view()
    &&& after.state() == before.state()
    &&& after.carries(before.view())
    &&& draws_after.len() == draws_before.len()
    &&& forall|i: int|
        0 <= i < draws_before.len() ==> {
            &&& (#[trigger] draws_after[i]).instances == draws_before[i].instances
            &&& draws_after[i].mesh.same_geometry(&draws_before[i].mesh)
            &&& draws_after[i].mesh.stages(draws_before[i].instances@)
        }
    &&& commands == frame_commands(draw_shapes(draws_before))
}

/// The fixed state of the render pipeline.
#[derive(Debug)]
pub struct PipelineState {
    pub label: &'static str,
    pub layout_label: &'static str,
    pub bind_group_layout_label: &'static str,
    pub bind_group_label: &'static str,
    pub pass_label: &'static str,
    pub view_binding: UniformBinding,
    pub vertex_entry_point: &'static str,
    pub fragment_entry_point: &'static str,
    pub vertex_layout: VertexBufferLayout,
    pub instance_layout: VertexBufferLayout,
    pub target: ColorTargetState,
    pub primitive: PrimitiveState,
    pub depth_stencil: bool,
    pub multisample: MultisampleState,
}

/// The inputs of the vertex shader that advance per vertex: position at
/// location 0, color at location 1.
pub open spec fn vertex_slots() -> Seq<(u32, VertexFormat)> {
    seq![(0u32, VertexFormat::Float2), (1u32, VertexFormat::Float4)]
}

/// The inputs of the vertex shader that advance per instance: the three
/// columns of the transform at locations 4, 5 and 6.
pub open spec fn instance_slots() -> Seq<(u32, VertexFormat)> {
    seq![(4u32, VertexFormat::Float3), (5u32, VertexFormat::Float3), (6u32, VertexFormat::Float3)]
}

impl PipelineState {
    /// `self` is the one pipeline state this crate draws with.
    pub open spec fn is_main(&self) -> bool {
        &&& self.label@ == "Main Render Pipeline"@
        &&& self.layout_label@ == "Main Pipeline Layout"@
        &&& self.bind_group_layout_label@ == "Main View Bind Group Layout"@
        &&& self.bind_group_label@ == "Main View Bind Group"@
        &&& self.pass_label@ == "Main Render Pass"@
        &&& self.view_binding == (UniformBinding {
            group: 0,
            binding: 0,
            min_binding_size: VIEW_SIZE as u64,
            has_dynamic_offset: false,
            vertex_stage: true,
            fragment_stage: false,
        })
        &&& self.vertex_entry_point@ == "main"@
        &&& self.fragment_entry_point@ == "main"@
        &&& self.vertex_layout.step_mode == InputStepMode::Vertex
        &&& self.vertex_layout.is_packed(vertex_slots())
        &&& self.instance_layout.step_mode == InputStepMode::Instance
        &&& self.instance_layout.is_packed(instance_slots())
        &&& self.target == (ColorTargetState {
            alpha_blend: BlendState::replace(),
            color_blend: BlendState::replace(),
            write_red: true,
            write_green: true,
            write_blue: true,
            write_alpha: true,
        })
        &&& self.primitive == (PrimitiveState {
            topology: PrimitiveTopology::TriangleList,
            front_face: FrontFace::Cw,
            cull_mode: CullMode::Disabled,
            polygon_mode: PolygonMode::Fill,
        })
        &&& !self.depth_stencil
        &&& self.multisample == (MultisampleState {
            count: 1,
            mask: u64::MAX,
            alpha_to_coverage_enabled: false,
        })
    }
}

/// The pipeline that draws every mesh: its fixed state, the current view and
/// the uniform buffer that carries the view to the vertex stage.
#[derive(Debug)]
pub struct MainPipeline {
    view: View,
    state: PipelineState,
    view_buffer: Buffer,
}

impl MainPipeline {
    /// What `view` returns, for use in contracts.
    pub closed spec fn spec_view(&self) -> View {
        self.view
    }

    /// What `state` returns, for use in contracts.
    pub closed spec fn spec_state(&self) -> &PipelineState {
        &self.state
    }

    /// What `view_buffer` returns, for use in contracts.
    pub closed spec fn spec_view_buffer(&self) -> &Buffer {
        &self.view_buffer
    }

    /// The view the next frame is drawn through.
    #[verifier::when_used_as_spec(spec_view)]
    pub fn view(&self) -> (view: View)
        ensures
            view == self.view(),
    {
        self.view
    }

    /// Changes the view of the frames to come. The uniform buffer follows
    /// when the next frame is rendered.
    pub fn set_view(&mut self, view: View)
        ensures
            final(self).view() == view,
            final(self).state() == old(self).state(),
            final(self).view_buffer() == old(self).view_buffer(),
    {
        self.view = view;
    }

    /// The fixed pipeline state.
    #[verifier::when_used_as_spec(spec_state)]
    pub fn state(&self) -> (state: &PipelineState)
        ensures
            state == self.state(),
    {
        &self.state
    }

    /// The view uniform as last written.
    #[verifier::when_used_as_spec(spec_view_buffer)]
    pub fn view_buffer(&self) -> (buffer: &Buffer)
        ensures
            buffer == self.view_buffer(),
    {
        &self.view_buffer
    }

    /// The view buffer holds the uniform block of `view`.
    pub open spec fn carries(&self, view: View) -> bool {
        &&& self.view_buffer().label@ == "Main View Buffer"@
        &&& self.view_buffer().usage == BufferUsage::uniforms()
        &&& is_word_image(self.view_buffer().contents@, view.words())
        &&& self.view_buffer().contents@.len() == VIEW_SIZE
    }

    /// Describes the pipeline and stages `view` in a new uniform buffer.
    pub fn new(view: View) -> (pipeline: MainPipeline)
        ensures
            pipeline.view() == view,
            pipeline.state().is_main(),
            pipeline.carries(view),
    {
        let vertex_slots = [(0u32, VertexFormat::Float2), (1u32, VertexFormat::Float4)];
        let instance_slots = [
            (4u32, VertexFormat::Float3),
            (5u32, VertexFormat::Float3),
            (6u32, VertexFormat::Float3),
        ];
        assert(vertex_slots@ =~= self::vertex_slots());
        assert(instance_slots@ =~= self::instance_slots());
        let state = PipelineState {
            label: "Main Render Pipeline",
            layout_label: "Main Pipeline Layout",
            bind_group_layout_label: "Main View Bind Group Layout",
            bind_group_label: "Main View Bind Group",
            pass_label: "Main Render Pass",
            view_binding: UniformBinding {
                group: 0,
                binding: 0,
                min_binding_size: VIEW_SIZE as u64,
                has_dynamic_offset: false,
                vertex_stage: true,
                fragment_stage: false,
            },
            vertex_entry_point: "main",
            fragment_entry_point: "main",
            vertex_layout: VertexBufferLayout::packed(
                InputStepMode::Vertex,
                vertex_slots.as_slice(),
            ),
            instance_layout: VertexBufferLayout::packed(
                InputStepMode::Instance,
                instance_slots.as_slice(),
            ),
            target: ColorTargetState {
                alpha_blend: BlendState::replace(),
                color_blend: BlendState::replace(),
                write_red: true,
                write_green: true,
                write_blue: true,
                write_alpha: true,
            },
            primitive: PrimitiveState {
                topology: PrimitiveTopology::TriangleList,
                front_face: FrontFace::Cw,
                cull_mode: CullMode::Disabled,
                polygon_mode: PolygonMode::Fill,
            },
            depth_stencil: false,
            multisample: MultisampleState {
                count: 1,
                mask: u64::MAX,
                alpha_to_coverage_enabled: false,
            },
        };
        let view_buffer = create_view_buffer(&view);
        MainPipeline { view, state, view_buffer }
    }

    /// Uploads `data` as a new mesh: a vertex buffer and an index buffer
    /// sized exactly to the input, and an empty instance buffer. The indices
    /// are not held against the vertices.
    pub fn create_mesh(&mut self, data: &MeshData) -> (mesh: Mesh)
        requires
            data.indices@.len() <= u16::MAX,
        ensures
            *final(self) == *old(self),
            mesh.holds(data.vertices@, data.indices@),
            mesh.stages(Seq::<Instance>::empty()),
    {
        Mesh::new(data)
    }

    /// Records one frame that draws `draws` in the order given, through the
    /// current view.
    ///
    /// The view uniform is written anew, every mesh gets a new instance
    /// buffer that holds exactly the instances of its draw, and the
    /// commands returned are those of `frame_commands`. Geometry is never
    /// touched.
    pub fn render(&mut self, draws: &mut Vec<Draw>) -> (commands: Vec<Command>)
        requires
            forall|i: int|
                0 <= i < old(draws)@.len() ==> (#[trigger] old(draws)@[i]).instances@.len()
                    <= u32::MAX,
        ensures
            rendered(
                old(self),
                old(draws)@,
                final(self),
                final(draws)@,
                commands@,
            ),
    {
        self.view_buffer = create_view_buffer(&self.view);
        let n = draws.len();
        let ghost shapes = draw_shapes(draws@);
        let mut commands: Vec<Command> = Vec::new();
        commands.push(Command::WriteViewUniform);
        let mut i: usize = 0;
        while i < n
            invariant
                i <= n,
                n == draws@.len(),
                n == old(draws)@.len(),
                forall|j: int|
                    0 <= j < n ==> {
                        &&& (#[trigger] draws@[j]).instances == old(draws)@[j].instances
                        &&& draws@[j].mesh.same_geometry(&old(draws)@[j].mesh)
                    },
                forall|j: int|
                    0 <= j < i ==> (#[trigger] draws@[j]).mesh.stages(old(draws)@[j].instances@),
                commands@ == seq![Command::WriteViewUniform] + upload_commands(i as nat),
            decreases n - i,
        {
            let draw = &mut draws[i];
            draw.mesh.update(draw.instances.as_slice());
            commands.push(Command::RebuildInstanceBuffer { draw: i });
            i = i + 1;
        }
        commands.push(Command::BeginRenderPass {
            clear: Color { r: 0, g: 0, b: 0, a: ONE_F64 },
            store: true,
        });
        commands.push(Command::SetPipeline);
        commands.push(Command::SetBindGroup { index: 0 });
        let ghost head = seq![Command::WriteViewUniform] + upload_commands(n as nat)
            + pass_header();
        assert(commands@ =~= head);
        assert(draw_shapes(draws@) =~= shapes);
        let mut i: usize = 0;
        while i < n
            invariant
                i <= n,
                n == draws@.len(),
                shapes == draw_shapes(draws@),
                forall|j: int|
                    0 <= j < n ==> (#[trigger] draws@[j]).instances@.len() <= u32::MAX,
                commands@ == head + pass_commands(shapes).subrange(0, 4 * i),
            decreases n - i,
        {
            let draw = &draws[i];
            let index_count = draw.mesh.index_count;
            let instance_count = draw.instances.len() as u32;
            commands.push(Command::SetVertexBuffer { slot: 0, draw: i, stream: Stream::Vertices });
            commands.push(
                Command::SetVertexBuffer { slot: 1, draw: i, stream: Stream::Instances },
            );
            commands.push(Command::SetIndexBuffer { draw: i, format: IndexFormat::Uint16 });
            commands.push(
                Command::DrawIndexed {
                    index_start: 0,
                    index_end: index_count,
                    base_vertex: 0,
                    instance_start: 0,
                    instance_end: instance_count,
                },
            );
            assert(commands@ =~= head + pass_commands(shapes).subrange(0, 4 * (i + 1)));
            i = i + 1;
        }
        commands.push(Command::EndRenderPass);
        commands.push(Command::Submit);
        assert(commands@ =~= frame_commands(shapes));
        commands
    }
}

} // verus!
