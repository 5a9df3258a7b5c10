//! The commands of a frame and the place of each of them.

use vstd::prelude::*;

verus! {

/// Which of a mesh's two vertex streams a slot reads.
#[derive(Clone, Copy, Debug, PartialEq, Eq, Structural)]
pub enum Stream {
    Vertices,
    Instances,
}

/// The width of the indices in an index buffer.
#[derive(Clone, Copy, Debug, PartialEq, Eq, Structural)]
pub enum IndexFormat {
    Uint16,
    Uint32,
}

/// An RGBA color. Each channel is the 64-bit pattern of a double precision
/// float.
#[derive(Clone, Copy, Debug, PartialEq, Eq, Structural)]
pub struct Color {
    pub r: u64,
    pub g: u64,
    pub b: u64,
    pub a: u64,
}

/// The 64-bit pattern of the double precision float `1.0`.
pub const ONE_F64: u64 = 0x3FF0_0000_0000_0000;

/// One step of a frame, in the order the device must see them. A `draw`
/// is a position in the list of draws the frame was rendered from.
#[derive(Clone, Copy, Debug, PartialEq, Eq, Structural)]
pub enum Command {
    /// Overwrite the view uniform on the device, from its first byte, with
    /// the contents of the pipeline's view buffer.
    WriteViewUniform,
    /// Replace the instance buffer of `draw` on the device with a new
    /// buffer made from the mesh's instance buffer.
    RebuildInstanceBuffer { draw: usize },
    /// Begin the render pass on the acquired target.
    BeginRenderPass { clear: Color, store: bool },
    /// Bind the render pipeline.
    SetPipeline,
    /// Bind the view bind group at `index`.
    SetBindGroup { index: u32 },
    /// Bind a whole vertex stream of `draw` at `slot`.
    SetVertexBuffer { slot: u32, draw: usize, stream: Stream },
    /// Bind the whole index buffer of `draw`.
    SetIndexBuffer { draw: usize, format: IndexFormat },
    /// Draw indices `index_start..index_end`, once for every instance in
    /// `instance_start..instance_end`.
    DrawIndexed {
        index_start: u32,
        index_end: u32,
        base_vertex: i32,
        instance_start: u32,
        instance_end: u32,
    },
    /// End the render pass.
    EndRenderPass,
    /// Finish recording and hand the commands to the queue.
    Submit,
}

/// The color every pass clears its target to.
pub open spec fn background() -> Color {
    Color { r: 0, g: 0, b: 0, a: ONE_F64 }
}

/// The commands that draw entry `draw` of a frame: bind its three buffers,
/// then one indexed, instanced draw of all its indices and all its instances.
pub open spec fn draw_block(draw: int, index_count: u32, instance_count: u32) -> Seq<Command> {
    seq![
        Command::SetVertexBuffer { slot: 0, draw: draw as usize, stream: Stream::Vertices },
        Command::SetVertexBuffer { slot: 1, draw: draw as usize, stream: Stream::Instances },
        Command::SetIndexBuffer { draw: draw as usize, format: IndexFormat::Uint16 },
        Command::DrawIndexed {
            index_start: 0,
            index_end: index_count,
            base_vertex: 0,
            instance_start: 0,
            instance_end: instance_count,
        },
    ]
}

/// The instance buffer rebuilds of a frame of `n` draws, in draw order.
pub open spec fn upload_commands(n: nat) -> Seq<Command> {
    Seq::new(n, |i: int| Command::RebuildInstanceBuffer { draw: i as usize })
}

/// What opens every render pass: clear to the background, bind the pipeline
/// and the view bind group, once for the whole pass.
pub open spec fn pass_header() -> Seq<Command> {
    seq![
        Command::BeginRenderPass { clear: background(), store: true },
        Command::SetPipeline,
        Command::SetBindGroup { index: 0 },
    ]
}

/// The draw blocks of a frame, in draw order. `shapes[i]` is the index
/// count and the instance count of draw `i`.
pub open spec fn pass_commands(shapes: Seq<(u32, u32)>) -> Seq<Command> {
    Seq::new(
        4 * shapes.len(),
        |j: int| draw_block(j / 4, shapes[j / 4].0, shapes[j / 4].1)[j % 4],
    )
}

/// Everything one frame records: write the view uniform, rebuild every
/// instance buffer, then one render pass with one draw per entry, then
/// submit.
pub open spec fn frame_commands(shapes: Seq<(u32, u32)>) -> Seq<Command> {
    seq![Command::WriteViewUniform] + upload_commands(shapes.len()) + pass_header()
        + pass_commands(shapes) + seq![Command::EndRenderPass, Command::Submit]
}

/// Where a frame rebuilds the instance buffer of draw `i`.
pub open spec fn upload_position(i: int) -> int {
    1 + i
}

/// Where the draw block of draw `i` starts in a frame of `n` draws.
pub open spec fn block_position(n: int, i: int) -> int {
    n + 4 + 4 * i
}

/// Where a frame of `n` draws issues the draw call of draw `i`.
pub open spec fn draw_position(n: int, i: int) -> int {
    block_position(n, i) + 3
}

/// The shape of every frame: every command has its place.
///
/// A frame of `n` draws has `6 + 5 * n` commands. It opens with the write of
/// the view uniform, rebuilds the instance buffer of every draw in draw
/// order, opens the one render pass, holds the draw block of every draw in
/// draw order, closes the pass and submits.
pub proof fn lemma_frame_layout(shapes: Seq<(u32, u32)>)
    ensures
        ({
            let frame = frame_commands(shapes);
            let n = shapes.len() as int;
            &&& frame.len() == 6 + 5 * n
            &&& frame[0] == Command::WriteViewUniform
            &&& forall|i: int|
                0 <= i < n ==> #[trigger] frame[upload_position(i)]
                    == (Command::RebuildInstanceBuffer { draw: i as usize })
            &&& frame.subrange(n + 1, n + 4) == pass_header()
            &&& forall|i: int|
                0 <= i < n ==> #[trigger] frame.subrange(
                    block_position(n, i),
                    block_position(n, i) + 4,
                ) == draw_block(i, shapes[i].0, shapes[i].1)
            &&& frame[5 * n + 4] == Command::EndRenderPass
            &&& frame[5 * n + 5] == Command::Submit
        }),
{
    let frame = frame_commands(shapes);
    let n = shapes.len() as int;
    assert(frame.subrange(n + 1, n + 4) =~= pass_header());
    assert forall|i: int| 0 <= i < n implies #[trigger] frame.subrange(
        block_position(n, i),
        block_position(n, i) + 4,
    ) == draw_block(i, shapes[i].0, shapes[i].1) by {
        let block = frame.subrange(block_position(n, i), block_position(n, i) + 4);
        assert forall|k: int| 0 <= k < 4 implies block[k] == draw_block(
            i,
            shapes[i].0,
            shapes[i].1,
        )[k] by {
            assert(block[k] == pass_commands(shapes)[4 * i + k]);
            assert((4 * i + k) / 4 == i && (4 * i + k) % 4 == k);
        }
        assert(block =~= draw_block(i, shapes[i].0, shapes[i].1));
    }
}

/// Every draw call of a frame belongs to one draw of the frame, requests all
/// indices and all instances of that draw, directly follows the binding of
/// that draw's three buffers, and comes after the rebuild of that draw's
/// instance buffer. No draw call reads an instance buffer of an earlier
/// frame.
pub proof fn lemma_draws_follow_rebuilds(shapes: Seq<(u32, u32)>, p: int)
    requires
        0 <= p < frame_commands(shapes).len(),
        frame_commands(shapes)[p] is DrawIndexed,
    ensures
        ({
            let frame = frame_commands(shapes);
            let n = shapes.len() as int;
            let i = (p - n - 4) / 4;
            &&& 0 <= i < n
            &&& p == draw_position(n, i)
            &&& frame[p] == (Command::DrawIndexed {
                index_start: 0,
                index_end: shapes[i].0,
                base_vertex: 0,
                instance_start: 0,
                instance_end: shapes[i].1,
            })
            &&& frame[p - 3] == (Command::SetVertexBuffer {
                slot: 0,
                draw: i as usize,
                stream: Stream::Vertices,
            })
            &&& frame[p - 2] == (Command::SetVertexBuffer {
                slot: 1,
                draw: i as usize,
                stream: Stream::Instances,
            })
            &&& frame[p - 1] == (Command::SetIndexBuffer {
                draw: i as usize,
                format: IndexFormat::Uint16,
            })
            &&& frame[upload_position(i)] == (Command::RebuildInstanceBuffer { draw: i as usize })
            &&& upload_position(i) < p - 3
            &&& 0 < upload_position(i)
        }),
{
    let frame = frame_commands(shapes);
    let n = shapes.len() as int;
    lemma_frame_layout(shapes);
    if p < n + 4 {
        if p >= n + 1 {
            assert(frame[p] == frame.subrange(n + 1, n + 4)[p - n - 1]);
        } else if p >= 1 {
            assert(frame[upload_position(p - 1)] is RebuildInstanceBuffer);
        }
        assert(false);
    } else if p >= 5 * n + 4 {
        assert(false);
    } else {
        let i = (p - n - 4) / 4;
        let k = (p - n - 4) % 4;
        let block = frame.subrange(block_position(n, i), block_position(n, i) + 4);
        assert(block == draw_block(i, shapes[i].0, shapes[i].1));
        assert(frame[p] == block[k]);
        assert(k == 3);
        assert(frame[p - 1] == block[2]);
        assert(frame[p - 2] == block[1]);
        assert(frame[p - 3] == block[0]);
    }
}

/// A frame issues exactly one draw call for each of its draws: the draw
/// call of draw `i` sits at `draw_position(n, i)`.
pub proof fn lemma_one_draw_each(shapes: Seq<(u32, u32)>, i: int)
    requires
        0 <= i < shapes.len(),
    ensures
        frame_commands(shapes)[draw_position(shapes.len() as int, i)] == (Command::DrawIndexed {
            index_start: 0,
            index_end: shapes[i].0,
            base_vertex: 0,
            instance_start: 0,
            instance_end: shapes[i].1,
        }),
{
    let frame = frame_commands(shapes);
    let n = shapes.len() as int;
    lemma_frame_layout(shapes);
    let block = frame.subrange(block_position(n, i), block_position(n, i) + 4);
    assert(frame[draw_position(n, i)] == block[3]);
}

} // verus!
