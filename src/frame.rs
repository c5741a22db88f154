use vstd::prelude::*;

use crate::camera::{Camera, CameraConfig};
use crate::input::KeyState;
use crate::render::{CommandEncoder, RenderPass, Uniforms};
use crate::resource::Asset;

verus! {

/// Where the driver stands in the cycle of one frame.
#[derive(Debug, Copy, Clone, PartialEq, Eq, Structural)]
pub enum FramePhase {
    /// No frame is being recorded or executed.
    Idle,
    /// The camera has moved for this frame; the pass is to be recorded.
    Recording,
    /// A submitted frame may still be executing on the GPU.
    InFlight,
}

/// What the host is to do next.
#[derive(Debug, Copy, Clone, PartialEq, Eq, Structural)]
pub enum FrameAction {
    /// No drawable surface: drop this frame and try again on the next redraw.
    Skip,
    /// Block on the previous submission's completion, report it with
    /// `gpu_completed`, then redraw.
    WaitForGpu,
    /// Re-derive the camera basis from its yaw and pitch, build the
    /// view-projection matrix, then call `encode`.
    Orient,
    /// Submit and present what was recorded.
    Submit,
    /// The call did not fit the current phase; nothing happened.
    Ignore,
}

/// The phase and action after a redraw request, given whether a drawable
/// surface (with its command buffer and pass descriptor) was obtained.
pub open spec fn begin_transition(phase: FramePhase, surface_ready: bool) -> (FramePhase, FrameAction) {
    match phase {
        FramePhase::InFlight => (FramePhase::InFlight, FrameAction::WaitForGpu),
        FramePhase::Recording => (FramePhase::Recording, FrameAction::Ignore),
        FramePhase::Idle => if surface_ready {
            (FramePhase::Recording, FrameAction::Orient)
        } else {
            (FramePhase::Idle, FrameAction::Skip)
        },
    }
}

/// The phase and action after a request to record the pass.
pub open spec fn encode_transition(phase: FramePhase) -> (FramePhase, FrameAction) {
    match phase {
        FramePhase::Recording => (FramePhase::InFlight, FrameAction::Submit),
        _ => (phase, FrameAction::Ignore),
    }
}

/// The phase after the GPU reports that the submitted frame completed.
pub open spec fn completed_transition(phase: FramePhase) -> FramePhase {
    match phase {
        FramePhase::InFlight => FramePhase::Idle,
        _ => phase,
    }
}

/// Orders the work of each frame and keeps at most one frame in flight: a
/// new frame is recorded only after the previous submission completed.
pub struct FrameDriver {
    phase: FramePhase,
}

impl View for FrameDriver {
    type V = FramePhase;

    closed spec fn view(&self) -> FramePhase {
        self.phase
    }
}

impl FrameDriver {
    /// A driver with no frame in progress.
    pub fn new() -> (r: FrameDriver)
        ensures
            r@ == FramePhase::Idle,
    {
        FrameDriver { phase: FramePhase::Idle }
    }

    /// The current phase.
    pub fn phase(&self) -> (r: FramePhase)
        ensures
            r == self@,
    {
        self.phase
    }

    /// Answers a redraw request. When the driver is idle and a surface was
    /// obtained, applies the held keys to the camera and asks the host to
    /// orient it. Without a surface the frame is skipped: the driver and the
    /// camera stay as they are.
    pub fn begin_frame(&mut self, surface_ready: bool, camera: &mut Camera, keys: &KeyState, config: &CameraConfig) -> (r:
        FrameAction)
        requires
            old(camera).wf(),
        ensures
            (final(self)@, r) == begin_transition(old(self)@, surface_ready),
            final(camera).wf(),
            r == FrameAction::Orient ==> {
                &&& final(camera).position == crate::camera::moved_position(*old(camera), keys@, *config)
                &&& final(camera).yaw == crate::camera::turned_yaw(*old(camera), keys@, *config)
                &&& final(camera).pitch == crate::camera::turned_pitch(*old(camera), keys@, *config)
                &&& final(camera).front == old(camera).front
                &&& final(camera).up == old(camera).up
            },
            r != FrameAction::Orient ==> *final(camera) == *old(camera),
    {
        match self.phase {
            FramePhase::InFlight => FrameAction::WaitForGpu,
            FramePhase::Recording => FrameAction::Ignore,
            FramePhase::Idle => {
                if surface_ready {
                    camera.process_input(keys, config);
                    self.phase = FramePhase::Recording;
                    FrameAction::Orient
                } else {
                    FrameAction::Skip
                }
            },
        }
    }

    /// Records the pass for this frame, once the camera is oriented. Only in
    /// the recording phase does anything reach the encoder.
    pub fn encode<P: RenderPass>(
        &mut self,
        pass: &P,
        encoder: &mut CommandEncoder,
        uniforms: &Uniforms,
        model: &Asset,
        time: u32,
    ) -> (r: FrameAction)
        ensures
            (final(self)@, r) == encode_transition(old(self)@),
            old(self)@ == FramePhase::Recording ==> final(encoder)@ == old(encoder)@ + pass.pass_commands(*uniforms, *model),
            old(self)@ != FramePhase::Recording ==> final(encoder)@ == old(encoder)@,
    {
        match self.phase {
            FramePhase::Recording => {
                pass.render(encoder, uniforms, model, time);
                self.phase = FramePhase::InFlight;
                FrameAction::Submit
            },
            _ => FrameAction::Ignore,
        }
    }

    /// Reports that the submitted frame finished executing on the GPU.
    pub fn gpu_completed(&mut self)
        ensures
            final(self)@ == completed_transition(old(self)@),
    {
        if let FramePhase::InFlight = self.phase {
            self.phase = FramePhase::Idle;
        }
    }
}

/// A redraw without a drawable surface changes nothing: the phase stays, the
/// frame is never oriented, and a following `encode` records nothing, so the
/// pass is not rendered. From idle, the frame is skipped.
pub proof fn lemma_no_surface_renders_nothing(phase: FramePhase)
    ensures
        begin_transition(phase, false).0 == phase,
        begin_transition(phase, false).1 != FrameAction::Orient,
        phase == FramePhase::Idle ==> begin_transition(phase, false).1 == FrameAction::Skip,
        phase != FramePhase::Recording ==> encode_transition(begin_transition(phase, false).0).1 == FrameAction::Ignore,
{
}

/// Between two recordings the GPU has completed the first: no two frames are
/// ever in flight.
pub proof fn lemma_one_frame_in_flight(phase: FramePhase, surface_ready: bool)
    ensures
        encode_transition(phase).1 == FrameAction::Submit ==> encode_transition(phase).0 == FramePhase::InFlight,
        begin_transition(FramePhase::InFlight, surface_ready) == (FramePhase::InFlight, FrameAction::WaitForGpu),
        encode_transition(FramePhase::InFlight).1 == FrameAction::Ignore,
{
}

} // verus!
