//! The programmable render pipeline: an ordered list of phases the graphics
//! backend executes every frame, and the render targets they write to.

use vstd::prelude::*;

verus! {

/// Rendering operations render to a `RenderTarget`. This could be as simple
/// as the user's screen, or, in a richer backend, an off-screen framebuffer.
pub enum RenderTarget {
    /// The default render target is the user's screen: the window the engine
    /// opens.
    Window,
}

/// When a scene is rendered, the result is written to one or more render
/// channels of a render target. Not all render targets support all channels.
pub enum RenderChannel {
    /// A colour output layer. The default colour channel is `Colour(0)`;
    /// writing to the window's `Colour(0)` puts the result on the user's
    /// screen. Up to eight colour channels may exist on a render target, but
    /// the window has only `Colour(0)`.
    Colour(i32),
    /// The depth layer: how far each rendered pixel is from the camera, used
    /// to draw close objects in front of far ones.
    Depth,
}

impl RenderTarget {
    /// Which render channels the target offers: the window has exactly one
    /// colour channel, `Colour(0)`, and a depth channel.
    pub open spec fn spec_supports(&self, rc: RenderChannel) -> bool {
        match self {
            RenderTarget::Window => match rc {
                RenderChannel::Colour(i) => i == 0,
                RenderChannel::Depth => true,
            },
        }
    }

    /// Tests whether the given render channel is supported by this render
    /// target.
    pub fn is_render_channel_supported(&self, rc: RenderChannel) -> (supported: bool)
        ensures
            supported == self.spec_supports(rc),
    {
        match self {
            RenderTarget::Window => {
                match rc {
                    RenderChannel::Colour(i) => i == 0,
                    RenderChannel::Depth => true,
                }
            },
        }
    }
}

/// The specification for how to render a scene.
pub struct RenderSettings {}

impl RenderSettings {
    /// Initialises render settings to the default values.
    pub fn new() -> (settings: RenderSettings) {
        RenderSettings {  }
    }
}

/// A single render phase. To render to the screen, construct a pipeline of
/// these phases; the graphics backend executes them sequentially every
/// frame.
pub enum PipelinePhase {
    /// Clears a render target.
    Clear {
        /// The target to clear.
        target: RenderTarget,
    },
    /// Renders the scene with the given settings, outputting the result to
    /// the given render target.
    Render {
        /// How to render the scene.
        settings: RenderSettings,
        /// The target the output goes to.
        target: RenderTarget,
    },
}

/// Whether this phase draws the scene to the user's window.
pub open spec fn renders_to_window(phase: PipelinePhase) -> bool {
    phase matches PipelinePhase::Render { target: RenderTarget::Window, .. }
}

/// The `Pipeline` tells the engine how to render a scene: a series of phases
/// the graphics backend executes in order of their `time`, smallest first.
/// No two phases may share a `time`.
///
/// A pipeline handed to the backend must contain at least one phase that
/// renders to the window, so the user can see the result;
/// [`Pipeline::check_phases`] tests that rule.
pub struct Pipeline {
    phases: Vec<(i32, String, PipelinePhase)>,
}

impl Pipeline {
    /// The registered phases as (time, name, phase) entries, ordered by
    /// time.
    pub closed spec fn phases_seq(&self) -> Seq<(i32, String, PipelinePhase)> {
        self.phases@
    }

    /// Whether some phase is registered at this time.
    pub open spec fn contains_time(&self, time: i32) -> bool {
        exists|i: int| 0 <= i < self.phases_seq().len() && (#[trigger] self.phases_seq()[i]).0 == time
    }

    /// Whether some registered phase renders to the user's window.
    pub open spec fn spec_renders_to_window(&self) -> bool {
        exists|i: int|
            0 <= i < self.phases_seq().len() && renders_to_window((#[trigger] self.phases_seq()[i]).2)
    }

    #[verifier::type_invariant]
    spec fn wf(&self) -> bool {
        forall|i: int, j: int|
            0 <= i < j < self.phases@.len() ==> self.phases@[i].0 < self.phases@[j].0
    }

    /// An empty pipeline.
    pub fn new() -> (pipeline: Pipeline)
        ensures
            pipeline.phases_seq() == Seq::<(i32, String, PipelinePhase)>::empty(),
    {
        Pipeline { phases: Vec::new() }
    }

    /// Registers a phase in this pipeline at the given time. The time must
    /// not already be taken by another phase.
    pub fn add_phase(&mut self, time: i32, name: String, phase: PipelinePhase)
        requires
            !old(self).contains_time(time),
        ensures
            exists|k: int|
                0 <= k <= old(self).phases_seq().len() && final(self).phases_seq() == old(
                    self,
                ).phases_seq().insert(k, (time, name, phase)),
            final(self).phases_seq().len() == old(self).phases_seq().len() + 1,
    {
        proof {
            use_type_invariant(&*self);
            assert forall|i: int| 0 <= i < self.phases@.len() implies (#[trigger] self.phases@[i]).0
                != time by {
                assert(self.phases_seq()[i] == self.phases@[i]);
            }
        }
        let ghost pre = self.phases@;
        let mut k: usize = 0;
        while k < self.phases.len()
            invariant
                k <= pre.len(),
                self.phases@ == pre,
                forall|i: int| 0 <= i < pre.len() ==> (#[trigger] pre[i]).0 != time,
                forall|i: int, j: int| 0 <= i < j < pre.len() ==> pre[i].0 < pre[j].0,
                forall|i: int| 0 <= i < k ==> (#[trigger] pre[i]).0 < time,
            ensures
                k <= pre.len(),
                self.phases@ == pre,
                forall|i: int| 0 <= i < k ==> (#[trigger] pre[i]).0 < time,
                forall|i: int| k <= i < pre.len() ==> time < (#[trigger] pre[i]).0,
            decreases pre.len() - k,
        {
            if self.phases[k].0 > time {
                break;
            }
            k = k + 1;
        }
        let mut phases = Vec::new();
        std::mem::swap(&mut phases, &mut self.phases);
        phases.insert(k, (time, name, phase));
        proof {
            assert(phases@ == pre.insert(k as int, (time, name, phase)));
            assert forall|i: int, j: int| 0 <= i < j < phases@.len() implies phases@[i].0
                < phases@[j].0 by {
                assert(phases@[k as int] == (time, name, phase));
                if i < k {
                    assert(phases@[i] == pre[i]);
                }
                if i > k {
                    assert(phases@[i] == pre[i - 1]);
                }
                if j < k {
                    assert(phases@[j] == pre[j]);
                }
                if j > k {
                    assert(phases@[j] == pre[j - 1]);
                }
            }
        }
        std::mem::swap(&mut phases, &mut self.phases);
        proof {
            assert(0 <= k as int <= old(self).phases_seq().len() && self.phases_seq() == old(
                self,
            ).phases_seq().insert(k as int, (time, name, phase)));
        }
    }

    /// Asserts the pipeline rule: some phase must render to the user's
    /// window. A pipeline failing this must not be handed to the backend.
    pub fn check_phases(&self) -> (ok: bool)
        ensures
            ok == self.spec_renders_to_window(),
    {
        let mut i: usize = 0;
        while i < self.phases.len()
            invariant
                i <= self.phases@.len(),
                forall|j: int| 0 <= j < i ==> !renders_to_window((#[trigger] self.phases@[j]).2),
            decreases self.phases@.len() - i,
        {
            match &self.phases[i].2 {
                PipelinePhase::Render { target: RenderTarget::Window, .. } => {
                    proof {
                        assert(renders_to_window((self.phases_seq()[i as int]).2));
                    }
                    return true;
                },
                _ => {},
            }
            i = i + 1;
        }
        false
    }

    /// The phases to execute, in time order. The pipeline must satisfy the
    /// rule that [`Pipeline::check_phases`] tests.
    pub fn iter(&self) -> (phases: &Vec<(i32, String, PipelinePhase)>)
        requires
            self.spec_renders_to_window(),
        ensures
            phases@ == self.phases_seq(),
    {
        &self.phases
    }
}

} // verus!
