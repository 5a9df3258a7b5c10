//! The draw protocol: which command may follow which while a frame is recorded.

use vstd::prelude::*;
use crate::gpu::command::{
    draw_block, frame_commands, pass_commands, pass_header, upload_commands, Command, Stream,
};

verus! {

/// How far the recording of a frame has come.
pub enum Phase {
    /// Nothing is recorded yet. Buffers may be written and rebuilt.
    Staging,
    /// The render pass is open.
    Pass,
    /// The render pass is closed.
    Closed,
    /// The commands are with the queue.
    Submitted,
}

/// What the device knows while a frame is recorded.
pub struct Recorder {
    pub phase: Phase,
    /// The view uniform was written in this frame.
    pub uniform_written: bool,
    /// The draws whose instance buffer was rebuilt in this frame.
    pub rebuilt: Set<usize>,
    pub pipeline_set: bool,
    pub bind_group_set: bool,
    /// The draw whose vertex buffer is bound at slot 0.
    pub vertices: Option<usize>,
    /// The draw whose instance buffer is bound at slot 1.
    pub instances: Option<usize>,
    /// The draw whose index buffer is bound.
    pub indices: Option<usize>,
    /// How many draws have been drawn.
    pub drawn: nat,
}

/// The recorder before the first command of a frame.
pub open spec fn idle() -> Recorder {
    Recorder {
        phase: Phase::Staging,
        uniform_written: false,
        rebuilt: Set::empty(),
        pipeline_set: false,
        bind_group_set: false,
        vertices: None,
        instances: None,
        indices: None,
        drawn: 0,
    }
}

/// The recorder after one more command, or `None` if the draw protocol
/// forbids the command where it stands.
///
/// `shapes[i]` is the index count and the instance count of draw `i`.
///
/// - The view uniform and the instance buffers change only before the
///   pass opens, and the pass opens only once the view uniform is written.
/// - Inside the pass, slot 0 takes a vertex buffer and slot 1 takes an
///   instance buffer that was rebuilt in this frame.
/// - A draw call needs the pipeline, the view bind group and the three
///   buffers of the next draw in order, and requests all indices and all
///   instances of that draw.
/// - The pass closes when every draw is drawn, and only a closed pass is
///   submitted.
pub open spec fn step(r: Recorder, command: Command, shapes: Seq<(u32, u32)>) -> Option<Recorder> {
    match command {
        Command::WriteViewUniform => if r.phase is Staging {
            Some(Recorder { uniform_written: true, ..r })
        } else {
            None
        },
        Command::RebuildInstanceBuffer { draw } => if r.phase is Staging && draw < shapes.len() {
            Some(Recorder { rebuilt: r.rebuilt.insert(draw), ..r })
        } else {
            None
        },
        Command::BeginRenderPass { .. } => if r.phase is Staging && r.uniform_written {
            Some(Recorder { phase: Phase::Pass, ..r })
        } else {
            None
        },
        Command::SetPipeline => if r.phase is Pass {
            Some(Recorder { pipeline_set: true, ..r })
        } else {
            None
        },
        Command::SetBindGroup { index } => if r.phase is Pass && index == 0 {
            Some(Recorder { bind_group_set: true, ..r })
        } else {
            None
        },
        Command::SetVertexBuffer { slot, draw, stream } => if r.phase is Pass && draw
            < shapes.len() {
            match stream {
                Stream::Vertices => if slot == 0 {
                    Some(Recorder { vertices: Some(draw), ..r })
                } else {
                    None
                },
                Stream::Instances => if slot == 1 && r.rebuilt.contains(draw) {
                    Some(Recorder { instances: Some(draw), ..r })
                } else {
                    None
                },
            }
        } else {
            None
        },
        Command::SetIndexBuffer { draw, format } => if r.phase is Pass && draw < shapes.len()
            && format is Uint16 {
            Some(Recorder { indices: Some(draw), ..r })
        } else {
            None
        },
        Command::DrawIndexed {
            index_start,
            index_end,
            base_vertex,
            instance_start,
            instance_end,
        } => if r.phase is Pass && r.pipeline_set && r.bind_group_set && r.drawn < shapes.len()
            && r.vertices == Some(r.drawn as usize) && r.instances == Some(r.drawn as usize)
            && r.indices == Some(r.drawn as usize) && index_start == 0 && index_end
            == shapes[r.drawn as int].0 && base_vertex == 0 && instance_start == 0
            && instance_end == shapes[r.drawn as int].1 {
            Some(Recorder { drawn: r.drawn + 1, ..r })
        } else {
            None
        },
        Command::EndRenderPass => if r.phase is Pass && r.drawn == shapes.len() {
            Some(Recorder { phase: Phase::Closed, ..r })
        } else {
            None
        },
        Command::Submit => if r.phase is Closed {
            Some(Recorder { phase: Phase::Submitted, ..r })
        } else {
            None
        },
    }
}

/// The recorder after all of `commands`, or `None` if the draw protocol
/// forbids one of them.
pub open spec fn run(r: Recorder, commands: Seq<Command>, shapes: Seq<(u32, u32)>) -> Option<
    Recorder,
>
    decreases commands.len(),
{
    if commands.len() == 0 {
        Some(r)
    } else {
        match step(r, commands[0], shapes) {
            None => None,
            Some(next) => run(next, commands.drop_first(), shapes),
        }
    }
}

/// `commands` is a whole frame that obeys the draw protocol for draws of the
/// given shapes: from rest, every command is allowed where it stands and the
/// last one submits the frame.
pub open spec fn obeys_protocol(commands: Seq<Command>, shapes: Seq<(u32, u32)>) -> bool {
    run(idle(), commands, shapes) matches Some(r) && r.phase is Submitted
}

/// Running two lists one after the other is running their concatenation.
pub proof fn lemma_run_concat(
    r: Recorder,
    first: Seq<Command>,
    second: Seq<Command>,
    shapes: Seq<(u32, u32)>,
)
    ensures
        run(r, first + second, shapes) == match run(r, first, shapes) {
            None => None,
            Some(middle) => run(middle, second, shapes),
        },
    decreases first.len(),
{
    if first.len() == 0 {
        assert(first + second =~= second);
    } else {
        assert((first + second)[0] == first[0]);
        assert((first + second).drop_first() =~= first.drop_first() + second);
        match step(r, first[0], shapes) {
            None => {},
            Some(next) => {
                lemma_run_concat(next, first.drop_first(), second, shapes);
            },
        }
    }
}

/// Running a single command is taking one step.
proof fn lemma_run_one(r: Recorder, command: Command, shapes: Seq<(u32, u32)>)
    ensures
        run(r, seq![command], shapes) == step(r, command, shapes),
{
    let one = seq![command];
    assert(one[0] == command);
    match step(r, command, shapes) {
        None => {},
        Some(next) => {
            assert(one.drop_first().len() == 0);
            assert(run(next, one.drop_first(), shapes) == Some(next));
        },
    }
}

/// The recorder after the view uniform is written and the instance buffers
/// of the first `k` draws are rebuilt.
spec fn staged(k: nat) -> Recorder {
    Recorder {
        uniform_written: true,
        rebuilt: Set::new(|draw: usize| draw < k),
        ..idle()
    }
}

/// The recorder inside the pass after the first `i` draws of `n` are drawn.
spec fn drawing(n: nat, i: nat) -> Recorder {
    Recorder {
        phase: Phase::Pass,
        pipeline_set: true,
        bind_group_set: true,
        vertices: if i == 0 { None } else { Some((i - 1) as usize) },
        instances: if i == 0 { None } else { Some((i - 1) as usize) },
        indices: if i == 0 { None } else { Some((i - 1) as usize) },
        drawn: i,
        ..staged(n)
    }
}

proof fn lemma_uploads(shapes: Seq<(u32, u32)>, k: nat)
    requires
        k <= shapes.len() <= usize::MAX,
    ensures
        run(staged(0), upload_commands(k), shapes) == Some(staged(k)),
    decreases k,
{
    if k == 0 {
        assert(upload_commands(0).len() == 0);
    } else {
        let before = (k - 1) as nat;
        lemma_uploads(shapes, before);
        let last = Command::RebuildInstanceBuffer { draw: before as usize };
        assert(upload_commands(k) =~= upload_commands(before) + seq![last]);
        lemma_run_concat(staged(0), upload_commands(before), seq![last], shapes);
        lemma_run_one(staged(before), last, shapes);
        assert(staged(before).rebuilt.insert(before as usize) =~= staged(k).rebuilt);
    }
}

proof fn lemma_block(shapes: Seq<(u32, u32)>, i: nat)
    requires
        i < shapes.len() <= usize::MAX,
    ensures
        run(
            drawing(shapes.len(), i),
            draw_block(i as int, shapes[i as int].0, shapes[i as int].1),
            shapes,
        ) == Some(drawing(shapes.len(), i + 1)),
{
    let n = shapes.len();
    let block = draw_block(i as int, shapes[i as int].0, shapes[i as int].1);
    let r0 = drawing(n, i);
    let r1 = Recorder { vertices: Some(i as usize), ..r0 };
    let r2 = Recorder { instances: Some(i as usize), ..r1 };
    let r3 = Recorder { indices: Some(i as usize), ..r2 };
    assert(block =~= seq![block[0]] + seq![block[1]] + seq![block[2]] + seq![block[3]]);
    assert(staged(n).rebuilt.contains(i as usize));
    lemma_run_one(r0, block[0], shapes);
    lemma_run_one(r1, block[1], shapes);
    lemma_run_one(r2, block[2], shapes);
    lemma_run_one(r3, block[3], shapes);
    lemma_run_concat(r0, seq![block[0]], seq![block[1]], shapes);
    lemma_run_concat(r0, seq![block[0]] + seq![block[1]], seq![block[2]], shapes);
    lemma_run_concat(
        r0,
        seq![block[0]] + seq![block[1]] + seq![block[2]],
        seq![block[3]],
        shapes,
    );
}

proof fn lemma_blocks(shapes: Seq<(u32, u32)>, i: nat)
    requires
        i <= shapes.len() <= usize::MAX,
    ensures
        run(
            drawing(shapes.len(), 0),
            pass_commands(shapes).subrange(0, 4 * i as int),
            shapes,
        ) == Some(drawing(shapes.len(), i)),
    decreases i,
{
    let n = shapes.len();
    let all = pass_commands(shapes);
    if i == 0 {
        assert(all.subrange(0, 0).len() == 0);
    } else {
        let before = (i - 1) as nat;
        lemma_blocks(shapes, before);
        let block = draw_block(before as int, shapes[before as int].0, shapes[before as int].1);
        assert(all.subrange(0, 4 * i as int) =~= all.subrange(0, 4 * before as int) + block) by {
            assert forall|k: int| 0 <= k < 4 implies all[4 * before + k] == block[k] by {
                assert((4 * before + k) / 4 == before && (4 * before + k) % 4 == k);
            }
        }
        lemma_run_concat(drawing(n, 0), all.subrange(0, 4 * before as int), block, shapes);
        lemma_block(shapes, before);
    }
}

/// Every frame obeys the draw protocol, whatever its draws: with no draw at
/// all, and with draws of no index or no instance.
pub proof fn lemma_frame_obeys_protocol(shapes: Seq<(u32, u32)>)
    requires
        shapes.len() <= usize::MAX,
    ensures
        obeys_protocol(frame_commands(shapes), shapes),
{
    let n = shapes.len();
    let write = seq![Command::WriteViewUniform];
    let uploads = upload_commands(n);
    let header = pass_header();
    let blocks = pass_commands(shapes);
    let end = seq![Command::EndRenderPass];
    let submit = seq![Command::Submit];
    assert(frame_commands(shapes) =~= write + uploads + header + blocks + end + submit);

    lemma_run_one(idle(), Command::WriteViewUniform, shapes);
    assert(run(idle(), write, shapes) == Some(staged(0))) by {
        assert(staged(0).rebuilt =~= idle().rebuilt);
    }
    lemma_uploads(shapes, n);
    lemma_run_concat(idle(), write, uploads, shapes);

    let opened = Recorder { phase: Phase::Pass, ..staged(n) };
    let bound = Recorder { pipeline_set: true, ..opened };
    assert(header =~= seq![header[0]] + seq![header[1]] + seq![header[2]]);
    lemma_run_one(staged(n), header[0], shapes);
    lemma_run_one(opened, header[1], shapes);
    lemma_run_one(bound, header[2], shapes);
    lemma_run_concat(staged(n), seq![header[0]], seq![header[1]], shapes);
    lemma_run_concat(staged(n), seq![header[0]] + seq![header[1]], seq![header[2]], shapes);
    assert(run(staged(n), header, shapes) == Some(drawing(n, 0)));
    lemma_run_concat(idle(), write + uploads, header, shapes);

    lemma_blocks(shapes, n);
    assert(blocks.subrange(0, 4 * n as int) =~= blocks);
    lemma_run_concat(idle(), write + uploads + header, blocks, shapes);

    let closed = Recorder { phase: Phase::Closed, ..drawing(n, n) };
    lemma_run_one(drawing(n, n), Command::EndRenderPass, shapes);
    lemma_run_concat(idle(), write + uploads + header + blocks, end, shapes);
    lemma_run_one(closed, Command::Submit, shapes);
    lemma_run_concat(idle(), write + uploads + header + blocks + end, submit, shapes);
}

} // verus!
