//! The frame renderer: the scale of the view and the frame protocol of the game.

use vstd::prelude::*;
use vstd::view::View as _;
use crate::gpu::command::{frame_commands, Command};
use crate::gpu::error::Error;
use crate::gpu::main_pipeline::{Draw, Instance, MainPipeline, Mesh, MeshData, Vertex, View};

verus! {

/// An exact, non-negative fraction. The scale factors of the view are
/// ratios of pixel counts and are kept exact until they are handed on.
#[derive(Clone, Copy, Debug, PartialEq, Eq, Structural)]
pub struct Ratio {
    pub num: u64,
    pub den: u64,
}

impl Ratio {
    /// The fraction `1 / 1`.
    pub open spec fn one() -> Ratio {
        Ratio { num: 1, den: 1 }
    }

    /// The fraction turned upside down.
    pub open spec fn recip(self) -> Ratio {
        Ratio { num: self.den, den: self.num }
    }

    /// `self` is the product of `a` and `b`, numerator by numerator and
    /// denominator by denominator, not reduced.
    pub open spec fn is_product(self, a: Ratio, b: Ratio) -> bool {
        self.num == a.num * b.num && self.den == a.den * b.den
    }

    /// The fraction is at least one.
    pub open spec fn at_least_one(self) -> bool {
        self.num >= self.den
    }

    /// The two fractions have the same value.
    pub open spec fn same(self, other: Ratio) -> bool {
        self.num * other.den == other.num * self.den
    }
}

/// The scale the view applies along each axis.
#[derive(Clone, Copy, Debug, PartialEq, Eq, Structural)]
pub struct ViewScale {
    pub x: Ratio,
    pub y: Ratio,
}

/// The aspect ratio of a window: width over height.
pub open spec fn aspect(width: u32, height: u32) -> Ratio {
    Ratio { num: width as u64, den: height as u64 }
}

/// The numerator of the zoom.
pub const ZOOM_NUM: u64 = 1;

/// The denominator of the zoom.
pub const ZOOM_DEN: u64 = 5;

/// The uniform zoom every view applies after the aspect correction.
pub open spec fn zoom() -> Ratio {
    Ratio { num: ZOOM_NUM, den: ZOOM_DEN }
}

/// The scale that undoes the stretch of a window with aspect ratio `a`: a
/// wide window stretches the vertical axis by `a`, a tall one the horizontal
/// axis by `1 / a`.
pub open spec fn aspect_correction(a: Ratio) -> ViewScale {
    if a.at_least_one() {
        ViewScale { x: Ratio::one(), y: a }
    } else {
        ViewScale { x: a.recip(), y: Ratio::one() }
    }
}

/// The aspect correction of a window of `width` by `height` pixels, before
/// any zoom. A window without area has no aspect ratio and gets no scale.
pub fn aspect_scale(width: u32, height: u32) -> (scale: Option<ViewScale>)
    ensures
        scale is None <==> (width == 0 || height == 0),
        scale matches Some(s) ==> s == aspect_correction(aspect(width, height)),
{
    if width == 0 || height == 0 {
        None
    } else if width >= height {
        Some(
            ViewScale {
                x: Ratio { num: 1, den: 1 },
                y: Ratio { num: width as u64, den: height as u64 },
            },
        )
    } else {
        Some(
            ViewScale {
                x: Ratio { num: height as u64, den: width as u64 },
                y: Ratio { num: 1, den: 1 },
            },
        )
    }
}

/// The scale of the view of a window of `width` by `height` pixels: the
/// aspect correction first, the zoom second.
pub fn view_scale(width: u32, height: u32) -> (scale: Option<ViewScale>)
    ensures
        scale is None <==> (width == 0 || height == 0),
        scale matches Some(s) ==> {
            &&& s.x.is_product(aspect_correction(aspect(width, height)).x, zoom())
            &&& s.y.is_product(aspect_correction(aspect(width, height)).y, zoom())
        },
{
    match aspect_scale(width, height) {
        None => None,
        Some(s) => Some(
            ViewScale {
                x: Ratio { num: s.x.num * ZOOM_NUM, den: s.x.den * ZOOM_DEN },
                y: Ratio { num: s.y.num * ZOOM_NUM, den: s.y.den * ZOOM_DEN },
            },
        ),
    }
}

/// At an aspect ratio of exactly one, both branches of the aspect
/// correction give a scale of one along both axes.
pub proof fn lemma_square_window(width: u32, height: u32)
    requires
        width == height,
        width > 0,
    ensures
        ({
            let a = aspect(width, height);
            &&& a.at_least_one()
            &&& a.same(Ratio::one())
            &&& a.recip().same(Ratio::one())
            &&& aspect_correction(a).x.same(Ratio::one())
            &&& aspect_correction(a).y.same(Ratio::one())
        }),
{
}

/// The 32-bit pattern of the single precision float `1.0`.
pub const ONE: u32 = 0x3F80_0000;

/// The 32-bit pattern of the single precision float `0.0`.
pub const ZERO: u32 = 0;

/// The transform that leaves everything where it is.
pub open spec fn identity() -> [[u32; 3]; 3] {
    [[ONE, ZERO, ZERO], [ZERO, ONE, ZERO], [ZERO, ZERO, ONE]]
}

/// The corners of the unit square, all white.
pub open spec fn quad_vertices() -> Seq<Vertex> {
    seq![
        Vertex { position: [ZERO, ZERO], color: [ONE, ONE, ONE, ONE] },
        Vertex { position: [ONE, ZERO], color: [ONE, ONE, ONE, ONE] },
        Vertex { position: [ZERO, ONE], color: [ONE, ONE, ONE, ONE] },
        Vertex { position: [ONE, ONE], color: [ONE, ONE, ONE, ONE] },
    ]
}

/// The two triangles that cover the unit square.
pub open spec fn quad_indices() -> Seq<u16> {
    seq![0u16, 1u16, 2u16, 2u16, 1u16, 3u16]
}

/// Where the renderer stands in the frame it is drawing.
#[derive(Clone, Copy, Debug, PartialEq, Eq, Structural)]
pub enum FrameState {
    /// No frame is being drawn.
    Idle,
    /// The target image is acquired and the frame can be recorded.
    Recording,
    /// The frame is recorded and handed to the queue.
    Submitted,
}

/// What to do after the attempt to acquire the target image.
#[derive(Clone, Copy, Debug, PartialEq, Eq, Structural)]
pub enum FrameStart {
    /// The target is there: record the frame.
    Record,
    /// The target could not be had this time: drop the frame, make the swap
    /// chain anew and try again on the next tick.
    RecreateSwapChain,
    /// Rendering cannot go on.
    Abort(Error),
}

/// The decision `begin_frame` takes on the outcome of the attempt to
/// acquire the target image.
pub open spec fn frame_start(target: Result<(), Error>) -> FrameStart {
    match target {
        Ok(_) => FrameStart::Record,
        Err(e) => if e.is_recoverable() {
            FrameStart::RecreateSwapChain
        } else {
            FrameStart::Abort(e)
        },
    }
}

/// Draws the game: one frame at a time, from acquiring the target image to
/// handing the recorded commands to the queue.
#[derive(Debug)]
pub struct GameRenderer {
    main_pipeline: MainPipeline,
    // The one draw of every frame: the test mesh and where the player is.
    draws: Vec<Draw>,
    state: FrameState,
}

impl GameRenderer {
    /// What `main_pipeline` returns, for use in contracts.
    pub closed spec fn spec_main_pipeline(&self) -> &MainPipeline {
        &self.main_pipeline
    }

    /// What `draws` returns, for use in contracts.
    pub closed spec fn spec_draws(&self) -> &Vec<Draw> {
        &self.draws
    }

    /// What `state` returns, for use in contracts.
    pub closed spec fn spec_state(&self) -> FrameState {
        self.state
    }

    /// The pipeline every frame is drawn with.
    #[verifier::when_used_as_spec(spec_main_pipeline)]
    pub fn main_pipeline(&self) -> (pipeline: &MainPipeline)
        ensures
            pipeline == self.main_pipeline(),
    {
        &self.main_pipeline
    }

    /// The draws of the latest frame.
    #[verifier::when_used_as_spec(spec_draws)]
    pub fn draws(&self) -> (draws: &Vec<Draw>)
        ensures
            draws == self.draws(),
    {
        &self.draws
    }

    /// Where the renderer stands in the current frame.
    #[verifier::when_used_as_spec(spec_state)]
    pub fn state(&self) -> (state: FrameState)
        ensures
            state == self.state(),
    {
        self.state
    }

    /// Every frame draws exactly one mesh, the test mesh.
    pub open spec fn wf(&self) -> bool {
        &&& self.draws()@.len() == 1
        &&& self.draws()@[0].mesh.wf()
        &&& self.draws()@[0].instances@.len() <= 1
    }

    /// The mesh every frame draws.
    pub open spec fn spec_test_mesh(&self) -> &Mesh {
        &self.draws()@[0].mesh
    }

    /// The mesh every frame draws.
    #[verifier::when_used_as_spec(spec_test_mesh)]
    pub fn test_mesh(&self) -> (mesh: &Mesh)
        requires
            self.wf(),
        ensures
            mesh == self.test_mesh(),
    {
        &self.draws[0].mesh
    }

    /// A renderer at rest, with an identity view and the unit square as its
    /// test mesh.
    pub fn new() -> (renderer: GameRenderer)
        ensures
            renderer.wf(),
            renderer.state() == FrameState::Idle,
            renderer.main_pipeline().view().camera == identity(),
            renderer.main_pipeline().state().is_main(),
            renderer.main_pipeline().carries(renderer.main_pipeline().view()),
            renderer.test_mesh().holds(quad_vertices(), quad_indices()),
            renderer.test_mesh().stages(Seq::<Instance>::empty()),
            renderer.draws()@[0].instances@ == Seq::<Instance>::empty(),
    {
        let mut main_pipeline = MainPipeline::new(
            View::new([[ONE, ZERO, ZERO], [ZERO, ONE, ZERO], [ZERO, ZERO, ONE]]),
        );
        let white = [ONE, ONE, ONE, ONE];
        let vertices = [
            Vertex::new([ZERO, ZERO], white),
            Vertex::new([ONE, ZERO], white),
            Vertex::new([ZERO, ONE], white),
            Vertex::new([ONE, ONE], white),
        ];
        let indices: [u16; 6] = [0, 1, 2, 2, 1, 3];
        assert(vertices@ =~= quad_vertices());
        assert(indices@ =~= quad_indices());
        let test_mesh = main_pipeline.create_mesh(
            &MeshData { vertices: vertices.as_slice(), indices: indices.as_slice() },
        );
        let mut draws: Vec<Draw> = Vec::new();
        draws.push(Draw { mesh: test_mesh, instances: Vec::new() });
        GameRenderer { main_pipeline, draws, state: FrameState::Idle }
    }

    /// Starts a frame on the outcome of the attempt to acquire the target
    /// image. With a target the frame is recorded next. Without one the
    /// frame is skipped and the renderer stays at rest.
    pub fn begin_frame(&mut self, target: Result<(), Error>) -> (start: FrameStart)
        requires
            old(self).state() == FrameState::Idle,
        ensures
            start == frame_start(target),
            final(self).state() == (if target is Ok {
                FrameState::Recording
            } else {
                FrameState::Idle
            }),
            final(self).main_pipeline() == old(self).main_pipeline(),
            final(self).draws() == old(self).draws(),
    {
        match target {
            Ok(_) => {
                self.state = FrameState::Recording;
                FrameStart::Record
            },
            Err(e) => if e.is_recoverable() {
                FrameStart::RecreateSwapChain
            } else {
                FrameStart::Abort(e)
            },
        }
    }

    /// Records the frame: the test mesh, once, at `player`, seen through
    /// `view`.
    pub fn render(&mut self, view: View, player: Instance) -> (commands: Vec<Command>)
        requires
            old(self).wf(),
            old(self).state() == FrameState::Recording,
        ensures
            final(self).wf(),
            final(self).state() == FrameState::Submitted,
            final(self).main_pipeline().view() == view,
            final(self).main_pipeline().state() == old(self).main_pipeline().state(),
            final(self).main_pipeline().carries(view),
            final(self).test_mesh().same_geometry(old(self).test_mesh()),
            final(self).test_mesh().stages(seq![player]),
            final(self).draws()@[0].instances@ == seq![player],
            commands@ == frame_commands(seq![(old(self).test_mesh().index_count(), 1u32)]),
    {
        self.main_pipeline.set_view(view);
        let draw = &mut self.draws[0];
        draw.instances = vec![player];
        assert(self.draws@[0].instances@ =~= seq![player]);
        let commands = self.main_pipeline.render(&mut self.draws);
        self.state = FrameState::Submitted;
        commands
    }

    /// Ends the frame once the queue has taken its commands.
    pub fn end_frame(&mut self)
        requires
            old(self).state() == FrameState::Submitted,
        ensures
            final(self).state() == FrameState::Idle,
            final(self).main_pipeline() == old(self).main_pipeline(),
            final(self).draws() == old(self).draws(),
    {
        self.state = FrameState::Idle;
    }
}

} // verus!
