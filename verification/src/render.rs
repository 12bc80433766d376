//! The per-frame render loop over a retained scene.
//!
//! The scene is a retained sequence of drawing commands, fully owned by the
//! render loop and empty between frames: a render call repopulates it from
//! scratch from the paint output, submits it once for GPU rasterization, and
//! clears it again before presenting, so there is no incremental diff between
//! frames. The GPU work itself is the host's: a render call hands back a
//! frame plan — exactly one submission followed by one present — for the host
//! to execute against its surface.

use vstd::prelude::*;
use crate::EngineError;

verus! {

/// The retained scene: an ordered list of drawing commands. Commands are
/// opaque host-side handles; the engine records and clears them, the host
/// rasterizes them.
pub struct Scene {
    commands: Vec<u64>,
}

impl Scene {
    pub closed spec fn view(&self) -> Seq<u64> {
        self.commands@
    }

    pub fn new() -> (s: Self)
        ensures
            s@ == Seq::<u64>::empty(),
    {
        Scene { commands: Vec::new() }
    }

    /// Record one drawing command.
    pub fn push(&mut self, command: u64)
        ensures
            final(self)@ == old(self)@.push(command),
    {
        self.commands.push(command);
    }

    pub fn len(&self) -> (n: usize)
        ensures
            n == self@.len(),
    {
        self.commands.len()
    }

    pub fn is_empty(&self) -> (b: bool)
        ensures
            b == (self@.len() == 0),
    {
        self.commands.len() == 0
    }

    /// Forget all recorded commands.
    pub fn reset(&mut self)
        ensures
            final(self)@ == Seq::<u64>::empty(),
    {
        self.commands.clear();
    }
}

/// One step of a frame plan for the host to execute.
#[derive(Clone, Copy, Debug, PartialEq, Eq, Structural)]
pub enum GpuOp {
    /// Rasterize the submitted commands into the frame's texture view.
    Submit,
    /// Present the frame.
    Present,
}

/// The plan of one frame: the commands to rasterize, the frame geometry, and
/// the GPU steps in order.
pub struct FramePlan {
    pub commands: Vec<u64>,
    pub width: u32,
    pub height: u32,
    pub scale_hundredths: u32,
    pub ops: Vec<GpuOp>,
}

/// The render loop: the retained scene and the presentation geometry (width
/// and height in pixels, the device-pixel scale in hundredths).
pub struct RenderLoop {
    scene: Scene,
    width: u32,
    height: u32,
    scale_hundredths: u32,
}

impl RenderLoop {
    pub closed spec fn spec_scene(&self) -> Seq<u64> {
        self.scene@
    }

    pub closed spec fn spec_width(&self) -> u32 {
        self.width
    }

    pub closed spec fn spec_height(&self) -> u32 {
        self.height
    }

    pub closed spec fn spec_scale_hundredths(&self) -> u32 {
        self.scale_hundredths
    }

    pub fn new(width: u32, height: u32, scale_hundredths: u32) -> (r: Self)
        ensures
            r.spec_scene() == Seq::<u64>::empty(),
            r.spec_width() == width,
            r.spec_height() == height,
            r.spec_scale_hundredths() == scale_hundredths,
    {
        RenderLoop { scene: Scene::new(), width, height, scale_hundredths }
    }

    pub fn width(&self) -> (r: u32)
        ensures
            r == self.spec_width(),
    {
        self.width
    }

    pub fn height(&self) -> (r: u32)
        ensures
            r == self.spec_height(),
    {
        self.height
    }

    pub fn scale_hundredths(&self) -> (r: u32)
        ensures
            r == self.spec_scale_hundredths(),
    {
        self.scale_hundredths
    }

    /// The number of retained commands; zero between frames.
    pub fn scene_len(&self) -> (n: usize)
        ensures
            n == self.spec_scene().len(),
    {
        self.scene.len()
    }

    /// Render one frame. `frame_available` reports whether the host acquired
    /// a presentable frame from its surface; without one the frame fails with
    /// `SurfaceError` and nothing changes. `painted` is the paint callback's
    /// output, which repopulates the scene from scratch. The scene is empty
    /// before the call and empty again after it; a successful plan performs
    /// exactly one submission of the painted commands, then one present.
    pub fn render(&mut self, frame_available: bool, painted: Vec<u64>) -> (r: Result<
        FramePlan,
        EngineError,
    >)
        requires
            old(self).spec_scene().len() == 0,
        ensures
            final(self).spec_scene().len() == 0,
            final(self).spec_width() == old(self).spec_width(),
            final(self).spec_height() == old(self).spec_height(),
            final(self).spec_scale_hundredths() == old(self).spec_scale_hundredths(),
            !frame_available ==> r == Err::<FramePlan, EngineError>(EngineError::SurfaceError),
            frame_available ==> (r matches Ok(plan) && plan.commands@ == painted@ && plan.ops@
                == seq![GpuOp::Submit, GpuOp::Present] && plan.width == old(self).spec_width()
                && plan.height == old(self).spec_height() && plan.scale_hundredths == old(
                self,
            ).spec_scale_hundredths()),
    {
        if !frame_available {
            return Err(EngineError::SurfaceError);
        }
        // Repopulate the retained scene from scratch with the paint output.
        let mut i: usize = 0;
        while i < painted.len()
            invariant
                i <= painted@.len(),
                self.scene@ == painted@.subrange(0, i as int),
                self.width == old(self).width,
                self.height == old(self).height,
                self.scale_hundredths == old(self).scale_hundredths,
            decreases painted@.len() - i,
        {
            proof {
                assert(painted@.subrange(0, i as int + 1) =~= painted@.subrange(0, i as int).push(
                    painted@[i as int],
                ));
            }
            self.scene.push(painted[i]);
            i += 1;
        }
        proof {
            assert(painted@.subrange(0, painted@.len() as int) =~= painted@);
        }
        // Submit the whole scene, clear it, and present.
        let mut ops: Vec<GpuOp> = Vec::new();
        ops.push(GpuOp::Submit);
        ops.push(GpuOp::Present);
        proof {
            assert(ops@ =~= seq![GpuOp::Submit, GpuOp::Present]);
        }
        self.scene.reset();
        Ok(
            FramePlan {
                commands: painted,
                width: self.width,
                height: self.height,
                scale_hundredths: self.scale_hundredths,
                ops,
            },
        )
    }

    /// Rebuild the presentation state for a new canvas: new geometry, a fresh
    /// empty scene.
    pub fn resize(&mut self, width: u32, height: u32, scale_hundredths: u32)
        ensures
            final(self).spec_scene() == Seq::<u64>::empty(),
            final(self).spec_width() == width,
            final(self).spec_height() == height,
            final(self).spec_scale_hundredths() == scale_hundredths,
    {
        self.scene = Scene::new();
        self.width = width;
        self.height = height;
        self.scale_hundredths = scale_hundredths;
    }
}

} // verus!
