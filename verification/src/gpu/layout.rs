//! Vertex stream layouts and the state types of the render pipeline.

use vstd::prelude::*;

verus! {

/// The scalar formats a vertex attribute can have. Every scalar is a 32-bit
/// float.
#[derive(Clone, Copy, Debug, PartialEq, Eq, Structural)]
pub enum VertexFormat {
    Float2,
    Float3,
    Float4,
}

impl VertexFormat {
    /// How many scalars a value of this format holds.
    pub open spec fn scalars(self) -> nat {
        match self {
            VertexFormat::Float2 => 2,
            VertexFormat::Float3 => 3,
            VertexFormat::Float4 => 4,
        }
    }

    /// The byte size of the format: four bytes per scalar.
    pub fn size(&self) -> (n: u64)
        ensures
            n == 4 * self.scalars(),
    {
        match self {
            VertexFormat::Float2 => 8,
            VertexFormat::Float3 => 12,
            VertexFormat::Float4 => 16,
        }
    }
}

/// Whether a vertex stream advances once per vertex or once per instance.
#[derive(Clone, Copy, Debug, PartialEq, Eq, Structural)]
pub enum InputStepMode {
    Vertex,
    Instance,
}

/// One input of the vertex shader and where it lies inside an element of its
/// stream.
#[derive(Clone, Copy, Debug, PartialEq, Eq, Structural)]
pub struct VertexAttribute {
    pub format: VertexFormat,
    pub offset: u64,
    pub shader_location: u32,
}

/// How one vertex stream is cut into elements and attributes.
#[derive(Debug)]
pub struct VertexBufferLayout {
    pub array_stride: u64,
    pub step_mode: InputStepMode,
    pub attributes: Vec<VertexAttribute>,
}

/// The byte offset of slot `i` when the slots are packed without gaps: the
/// sizes of all slots before it, added up.
pub open spec fn packed_offset(slots: Seq<(u32, VertexFormat)>, i: int) -> nat
    decreases i,
{
    if i <= 0 {
        0
    } else {
        packed_offset(slots, i - 1) + 4 * slots[i - 1].1.scalars()
    }
}

/// The attributes of slots packed without gaps: slot `i` keeps its shader
/// location and format and starts where slot `i - 1` ends.
pub open spec fn packed_attributes(slots: Seq<(u32, VertexFormat)>) -> Seq<VertexAttribute> {
    Seq::new(
        slots.len(),
        |i: int|
            VertexAttribute {
                format: slots[i].1,
                offset: packed_offset(slots, i) as u64,
                shader_location: slots[i].0,
            },
    )
}

/// Packed slots never grow past sixteen bytes each.
pub proof fn lemma_packed_offset_bound(slots: Seq<(u32, VertexFormat)>, i: int)
    requires
        0 <= i <= slots.len(),
    ensures
        packed_offset(slots, i) <= 16 * i,
    decreases i,
{
    if i > 0 {
        lemma_packed_offset_bound(slots, i - 1);
    }
}

impl VertexBufferLayout {
    /// `self` is a stream of gapless elements: the attributes are the packed
    /// `slots` and one element is exactly as long as they are together.
    pub open spec fn is_packed(self, slots: Seq<(u32, VertexFormat)>) -> bool {
        &&& self.attributes@ == packed_attributes(slots)
        &&& self.array_stride == packed_offset(slots, slots.len() as int)
    }

    /// Lays the given (shader location, format) slots out one after the
    /// other, without gaps.
    pub fn packed(step_mode: InputStepMode, slots: &[(u32, VertexFormat)]) -> (layout:
        VertexBufferLayout)
        requires
            16 * slots@.len() <= u64::MAX,
        ensures
            layout.step_mode == step_mode,
            layout.is_packed(slots@),
    {
        let mut attributes: Vec<VertexAttribute> = Vec::new();
        let mut offset: u64 = 0;
        let mut i: usize = 0;
        while i < slots.len()
            invariant
                i <= slots@.len(),
                16 * slots@.len() <= u64::MAX,
                offset == packed_offset(slots@, i as int),
                attributes@ == packed_attributes(slots@).subrange(0, i as int),
            decreases slots@.len() - i,
        {
            let (shader_location, format) = slots[i];
            attributes.push(VertexAttribute { format, offset, shader_location });
            proof {
                lemma_packed_offset_bound(slots@, i + 1);
                assert(attributes@ =~= packed_attributes(slots@).subrange(0, i + 1));
            }
            offset = offset + format.size();
            i = i + 1;
        }
        proof {
            assert(attributes@ =~= packed_attributes(slots@));
        }
        VertexBufferLayout { array_stride: offset, step_mode, attributes }
    }
}

/// How vertices are assembled into primitives.
#[derive(Clone, Copy, Debug, PartialEq, Eq, Structural)]
pub enum PrimitiveTopology {
    PointList,
    LineList,
    LineStrip,
    TriangleList,
    TriangleStrip,
}

/// The winding order that marks the front of a triangle.
#[derive(Clone, Copy, Debug, PartialEq, Eq, Structural)]
pub enum FrontFace {
    Ccw,
    Cw,
}

/// Which side of a triangle is discarded.
#[derive(Clone, Copy, Debug, PartialEq, Eq, Structural)]
pub enum CullMode {
    Disabled,
    Front,
    Back,
}

/// How a triangle is rasterized.
#[derive(Clone, Copy, Debug, PartialEq, Eq, Structural)]
pub enum PolygonMode {
    Fill,
    Line,
    Point,
}

/// Primitive assembly and rasterization state.
#[derive(Clone, Copy, Debug, PartialEq, Eq, Structural)]
pub struct PrimitiveState {
    pub topology: PrimitiveTopology,
    pub front_face: FrontFace,
    pub cull_mode: CullMode,
    pub polygon_mode: PolygonMode,
}

/// A multiplier of the blend equation.
#[derive(Clone, Copy, Debug, PartialEq, Eq, Structural)]
pub enum BlendFactor {
    Zero,
    One,
    SrcColor,
    OneMinusSrcColor,
    SrcAlpha,
    OneMinusSrcAlpha,
    DstColor,
    OneMinusDstColor,
    DstAlpha,
    OneMinusDstAlpha,
    SrcAlphaSaturated,
    BlendColor,
    OneMinusBlendColor,
}

/// The operation of the blend equation.
#[derive(Clone, Copy, Debug, PartialEq, Eq, Structural)]
pub enum BlendOperation {
    Add,
    Subtract,
    ReverseSubtract,
    Min,
    Max,
}

/// One blend equation: `operation(src_factor * source, dst_factor * target)`.
#[derive(Clone, Copy, Debug, PartialEq, Eq, Structural)]
pub struct BlendState {
    pub src_factor: BlendFactor,
    pub dst_factor: BlendFactor,
    pub operation: BlendOperation,
}

impl BlendState {
    /// The equation that replaces the target with the source.
    pub open spec fn spec_replace() -> BlendState {
        BlendState {
            src_factor: BlendFactor::One,
            dst_factor: BlendFactor::Zero,
            operation: BlendOperation::Add,
        }
    }

    /// The equation that replaces the target with the source.
    #[verifier::when_used_as_spec(spec_replace)]
    pub fn replace() -> (blend: BlendState)
        ensures
            blend == BlendState::replace(),
    {
        BlendState {
            src_factor: BlendFactor::One,
            dst_factor: BlendFactor::Zero,
            operation: BlendOperation::Add,
        }
    }
}

/// How the fragment shader's output reaches the color target.
#[derive(Clone, Copy, Debug, PartialEq, Eq, Structural)]
pub struct ColorTargetState {
    pub alpha_blend: BlendState,
    pub color_blend: BlendState,
    pub write_red: bool,
    pub write_green: bool,
    pub write_blue: bool,
    pub write_alpha: bool,
}

/// Multisampling state.
#[derive(Clone, Copy, Debug, PartialEq, Eq, Structural)]
pub struct MultisampleState {
    pub count: u32,
    pub mask: u64,
    pub alpha_to_coverage_enabled: bool,
}

/// A uniform block: where it is bound, the least number of bytes a bound
/// buffer must have, and the shader stages that see it.
#[derive(Clone, Copy, Debug, PartialEq, Eq, Structural)]
pub struct UniformBinding {
    pub group: u32,
    pub binding: u32,
    pub min_binding_size: u64,
    pub has_dynamic_offset: bool,
    pub vertex_stage: bool,
    pub fragment_stage: bool,
}

} // verus!
