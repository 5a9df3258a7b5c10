//! What holds of every pipeline, every mesh and every frame.

use vstd::prelude::*;
use vstd::view::View as _;
use crate::gpu::command::{draw_position, lemma_one_draw_each, Command};
use crate::gpu::encoding::{is_word_image, lemma_image_of_part, lemma_images_agree, swap_words};
use crate::gpu::layout::{packed_attributes, packed_offset, VertexAttribute, VertexFormat};
use crate::gpu::main_pipeline::{
    draw_shapes, instance_slots, instance_words, rendered, vertex_slots, vertex_words, Draw,
    Instance, MainPipeline, Mesh, PipelineState, Vertex, View, INDEX_SIZE, INSTANCE_SIZE,
    VERTEX_SIZE, VIEW_SIZE,
};
use crate::gpu::protocol::{lemma_frame_obeys_protocol, obeys_protocol};

verus! {

/// The streams the pipeline reads are cut exactly as the buffers are filled.
///
/// One element of the per-vertex stream is one vertex: a position of two
/// scalars at byte 0 for location 0 and a color of four scalars at byte 8 for
/// location 1. One element of the per-instance stream is one instance: the
/// three columns of its transform at bytes 0, 12 and 24 for locations 4, 5
/// and 6. The uniform binding asks for exactly one view block.
pub proof fn lemma_layouts_match_elements(state: PipelineState)
    requires
        state.is_main(),
    ensures
        state.vertex_layout.array_stride == VERTEX_SIZE,
        state.vertex_layout.attributes@ == seq![
            VertexAttribute { format: VertexFormat::Float2, offset: 0, shader_location: 0 },
            VertexAttribute { format: VertexFormat::Float4, offset: 8, shader_location: 1 },
        ],
        state.instance_layout.array_stride == INSTANCE_SIZE,
        state.instance_layout.attributes@ == seq![
            VertexAttribute { format: VertexFormat::Float3, offset: 0, shader_location: 4 },
            VertexAttribute { format: VertexFormat::Float3, offset: 12, shader_location: 5 },
            VertexAttribute { format: VertexFormat::Float3, offset: 24, shader_location: 6 },
        ],
        state.view_binding.min_binding_size == VIEW_SIZE,
{
    reveal_with_fuel(packed_offset, 4);
    assert(packed_attributes(vertex_slots()) =~= seq![
        VertexAttribute { format: VertexFormat::Float2, offset: 0, shader_location: 0 },
        VertexAttribute { format: VertexFormat::Float4, offset: 8, shader_location: 1 },
    ]);
    assert(packed_attributes(instance_slots()) =~= seq![
        VertexAttribute { format: VertexFormat::Float3, offset: 0, shader_location: 4 },
        VertexAttribute { format: VertexFormat::Float3, offset: 12, shader_location: 5 },
        VertexAttribute { format: VertexFormat::Float3, offset: 24, shader_location: 6 },
    ]);
}

/// What the vertex stage reads at an attribute of vertex `i` is that field
/// of vertex `i`: the position in the first 8 bytes of the element, the
/// color in the 16 bytes after it.
pub proof fn lemma_vertex_fields(bytes: Seq<u8>, vertices: Seq<Vertex>, i: int)
    requires
        is_word_image(bytes, vertex_words(vertices)),
        0 <= i < vertices.len(),
    ensures
        is_word_image(
            bytes.subrange(VERTEX_SIZE * i, VERTEX_SIZE * i + 8),
            vertices[i].position@,
        ),
        is_word_image(
            bytes.subrange(VERTEX_SIZE * i + 8, VERTEX_SIZE * i + 24),
            vertices[i].color@,
        ),
{
    let words = vertex_words(vertices);
    lemma_image_of_part(bytes, words, 6 * i, 6 * i + 2);
    lemma_image_of_part(bytes, words, 6 * i + 2, 6 * i + 6);
    assert(words.subrange(6 * i, 6 * i + 2) =~= vertices[i].position@) by {
        assert forall|k: int| 0 <= k < 2 implies words[6 * i + k]
            == #[trigger] vertices[i].position@[k] by {
            assert((6 * i + k) / 6 == i && (6 * i + k) % 6 == k);
        }
    }
    assert(words.subrange(6 * i + 2, 6 * i + 6) =~= vertices[i].color@) by {
        assert forall|k: int| 0 <= k < 4 implies words[6 * i + 2 + k]
            == #[trigger] vertices[i].color@[k] by {
            assert((6 * i + 2 + k) / 6 == i && (6 * i + 2 + k) % 6 == 2 + k);
        }
    }
}

/// What the vertex stage reads at an attribute of instance `i` is a column
/// of the transform of instance `i`: column `c` in the 12 bytes from byte
/// `12 * c` of the element.
pub proof fn lemma_instance_columns(bytes: Seq<u8>, instances: Seq<Instance>, i: int, c: int)
    requires
        is_word_image(bytes, instance_words(instances)),
        0 <= i < instances.len(),
        0 <= c < 3,
    ensures
        is_word_image(
            bytes.subrange(INSTANCE_SIZE * i + 12 * c, INSTANCE_SIZE * i + 12 * c + 12),
            instances[i].transform[c]@,
        ),
{
    let words = instance_words(instances);
    lemma_image_of_part(bytes, words, 9 * i + 3 * c, 9 * i + 3 * c + 3);
    assert(words.subrange(9 * i + 3 * c, 9 * i + 3 * c + 3) =~= instances[i].transform[c]@) by {
        assert forall|k: int| 0 <= k < 3 implies words[9 * i + 3 * c + k]
            == #[trigger] instances[i].transform[c]@[k] by {
            assert((9 * i + 3 * c + k) / 9 == i && (9 * i + 3 * c + k) % 9 == 3 * c + k);
        }
    }
}

/// The uniform block holds column `c` of the camera in the 12 bytes from
/// byte `16 * c`, followed by four zero bytes of padding.
pub proof fn lemma_view_columns(bytes: Seq<u8>, view: View, c: int)
    requires
        is_word_image(bytes, view.words()),
        0 <= c < 3,
    ensures
        bytes.len() == VIEW_SIZE,
        is_word_image(bytes.subrange(16 * c, 16 * c + 12), view.camera[c]@),
        bytes.subrange(16 * c + 12, 16 * c + 16) == seq![0u8, 0u8, 0u8, 0u8],
{
    let words = view.words();
    lemma_image_of_part(bytes, words, 4 * c, 4 * c + 3);
    assert(words.subrange(4 * c, 4 * c + 3) =~= view.camera[c]@);
    let padding = bytes.subrange(16 * c + 12, 16 * c + 16);
    assert forall|k: int| 0 <= k < 4 implies padding[k] == 0u8 by {
        assert((16 * c + 12 + k) / 4 == 4 * c + 3 && (16 * c + 12 + k) % 4 == k);
        assert(words[4 * c + 3] == 0u32);
    }
    assert(padding =~= seq![0u8, 0u8, 0u8, 0u8]);
}

/// The buffers of a mesh are sized exactly to the data it was created from:
/// `VERTEX_SIZE` bytes for each vertex and `INDEX_SIZE` bytes for each index.
pub proof fn lemma_geometry_sizes(mesh: Mesh, vertices: Seq<Vertex>, indices: Seq<u16>)
    requires
        mesh.holds(vertices, indices),
    ensures
        mesh.index_count() == indices.len(),
        mesh.vertex_buffer().contents@.len() == VERTEX_SIZE * vertices.len(),
        mesh.index_buffer().contents@.len() == INDEX_SIZE * indices.len(),
{
}

/// A buffer that stages `k` instances is exactly `k` instances long.
pub proof fn lemma_staged_count(mesh: Mesh, instances: Seq<Instance>)
    requires
        mesh.stages(instances),
    ensures
        mesh.instance_buffer().contents@.len() == INSTANCE_SIZE * instances.len(),
        mesh.instance_buffer().contents@.len() / (INSTANCE_SIZE as nat) == instances.len(),
{
}

/// A mesh created from `m` indices reports an index count of `m`, and a
/// frame that draws it with `k` instances issues, for that draw, one draw
/// call of indices `0..m` and instances `0..k`.
pub proof fn lemma_draw_counts(
    mesh: Mesh,
    vertices: Seq<Vertex>,
    indices: Seq<u16>,
    before: MainPipeline,
    draws_before: Seq<Draw>,
    after: MainPipeline,
    draws_after: Seq<Draw>,
    commands: Seq<Command>,
    i: int,
)
    requires
        mesh.holds(vertices, indices),
        rendered(&before, draws_before, &after, draws_after, commands),
        0 <= i < draws_before.len(),
        draws_before[i].mesh.same_geometry(&mesh),
        draws_before[i].instances@.len() <= u32::MAX,
    ensures
        mesh.index_count() == indices.len(),
        commands[draw_position(draws_before.len() as int, i)] == (Command::DrawIndexed {
            index_start: 0,
            index_end: indices.len() as u32,
            base_vertex: 0,
            instance_start: 0,
            instance_end: draws_before[i].instances@.len() as u32,
        }),
{
    lemma_one_draw_each(draw_shapes(draws_before), i);
}

/// Every frame that is rendered obeys the draw protocol.
pub proof fn lemma_rendered_obeys_protocol(
    before: MainPipeline,
    draws_before: Seq<Draw>,
    after: MainPipeline,
    draws_after: Seq<Draw>,
    commands: Seq<Command>,
)
    requires
        rendered(&before, draws_before, &after, draws_after, commands),
        draws_before.len() <= usize::MAX,
    ensures
        obeys_protocol(commands, draw_shapes(draws_before)),
{
    lemma_frame_obeys_protocol(draw_shapes(draws_before));
}

/// A draw without instances is a draw like any other: the frame obeys the
/// draw protocol, the instance buffer of the draw is empty and its draw call
/// covers the instances `0..0`.
pub proof fn lemma_empty_draw(
    before: MainPipeline,
    draws_before: Seq<Draw>,
    after: MainPipeline,
    draws_after: Seq<Draw>,
    commands: Seq<Command>,
    i: int,
)
    requires
        rendered(&before, draws_before, &after, draws_after, commands),
        0 <= i < draws_before.len(),
        draws_before[i].instances@.len() == 0,
        draws_before.len() <= usize::MAX,
    ensures
        obeys_protocol(commands, draw_shapes(draws_before)),
        draws_after[i].mesh.instance_buffer().contents@.len() == 0,
        commands[draw_position(draws_before.len() as int, i)] == (Command::DrawIndexed {
            index_start: 0,
            index_end: draws_before[i].mesh.index_count(),
            base_vertex: 0,
            instance_start: 0,
            instance_end: 0,
        }),
{
    lemma_one_draw_each(draw_shapes(draws_before), i);
    lemma_frame_obeys_protocol(draw_shapes(draws_before));
}

/// Nothing of an earlier frame stays in an instance buffer.
///
/// Render one frame, then give the draws any other instance lists, of
/// any lengths, and render again. After the second frame every instance
/// buffer stages the list of the second frame alone and is exactly as long
/// as that list.
pub proof fn lemma_rebuild_forgets(
    first: MainPipeline,
    draws_first: Seq<Draw>,
    second: MainPipeline,
    draws_second: Seq<Draw>,
    commands_second: Seq<Command>,
    third: MainPipeline,
    draws_third: Seq<Draw>,
    commands_third: Seq<Command>,
    draws_between: Seq<Draw>,
    i: int,
)
    requires
        rendered(&first, draws_first, &second, draws_second, commands_second),
        draws_between.len() == draws_second.len(),
        forall|j: int|
            0 <= j < draws_second.len() ==> (#[trigger] draws_between[j]).mesh
                == draws_second[j].mesh,
        rendered(&second, draws_between, &third, draws_third, commands_third),
        0 <= i < draws_first.len(),
    ensures
        draws_third[i].mesh.stages(draws_between[i].instances@),
        draws_third[i].mesh.instance_buffer().contents@.len() == INSTANCE_SIZE
            * draws_between[i].instances@.len(),
        draws_third[i].mesh.same_geometry(&draws_first[i].mesh),
{
    assert(draws_between[i].mesh == draws_second[i].mesh);
}

/// Rendering the same draws twice through an unchanged view records the
/// same frame twice.
///
/// The two command lists are equal. Both uniform buffers hold the uniform
/// block of the one view and both instance buffers of every draw stage
/// the one instance list. The buffers of the second frame are those of the
/// first byte for byte, unless the byte order of the machine changed between
/// the two frames: then every word is reversed.
pub proof fn lemma_render_is_repeatable(
    first: MainPipeline,
    draws_first: Seq<Draw>,
    second: MainPipeline,
    draws_second: Seq<Draw>,
    commands_second: Seq<Command>,
    third: MainPipeline,
    draws_third: Seq<Draw>,
    commands_third: Seq<Command>,
)
    requires
        rendered(&first, draws_first, &second, draws_second, commands_second),
        rendered(&second, draws_second, &third, draws_third, commands_third),
    ensures
        commands_third == commands_second,
        third.view() == second.view(),
        second.carries(first.view()),
        third.carries(first.view()),
        third.view_buffer().contents@ == second.view_buffer().contents@
            || third.view_buffer().contents@ == swap_words(second.view_buffer().contents@),
        forall|i: int|
            0 <= i < draws_first.len() ==> {
                &&& (#[trigger] draws_second[i]).mesh.stages(draws_first[i].instances@)
                &&& draws_third[i].mesh.stages(draws_first[i].instances@)
                &&& draws_third[i].mesh.same_geometry(&draws_second[i].mesh)
                &&& (draws_third[i].mesh.instance_buffer().contents@
                    == draws_second[i].mesh.instance_buffer().contents@
                    || draws_third[i].mesh.instance_buffer().contents@ == swap_words(
                    draws_second[i].mesh.instance_buffer().contents@,
                ))
            },
{
    lemma_images_agree(
        second.view_buffer().contents@,
        third.view_buffer().contents@,
        first.view().words(),
    );
    assert(draw_shapes(draws_second) =~= draw_shapes(draws_first));
    assert forall|i: int| 0 <= i < draws_first.len() implies {
        &&& (#[trigger] draws_second[i]).mesh.stages(draws_first[i].instances@)
        &&& draws_third[i].mesh.stages(draws_first[i].instances@)
        &&& draws_third[i].mesh.same_geometry(&draws_second[i].mesh)
        &&& (draws_third[i].mesh.instance_buffer().contents@
            == draws_second[i].mesh.instance_buffer().contents@
            || draws_third[i].mesh.instance_buffer().contents@ == swap_words(
            draws_second[i].mesh.instance_buffer().contents@,
        ))
    } by {
        assert(draws_third[i].instances == draws_second[i].instances);
        lemma_images_agree(
            draws_second[i].mesh.instance_buffer().contents@,
            draws_third[i].mesh.instance_buffer().contents@,
            instance_words(draws_first[i].instances@),
        );
    }
}

} // verus!
