//! The frame protocol: what one redraw tick records and presents, and how a
//! failed acquisition of the surface texture is recovered from.
use vstd::prelude::*;

use crate::input::{ClearColor, PipelineKind};
use crate::state::State;

verus! {

#[verifier::external_type_specification]
pub struct ExSurfaceError(wgpu::SurfaceError);

/// Vertices drawn per frame: one full-screen triangle synthesised by the
/// vertex stage from the vertex index.
pub const FRAME_VERTICES: u32 = 3;

/// Instances drawn per frame.
pub const FRAME_INSTANCES: u32 = 1;

/// One step of a frame, carried out by the caller in the order given.
#[derive(Clone, Copy, Debug, PartialEq, Eq, Structural)]
pub enum FrameCommand {
    /// Acquire the next presentable texture from the surface.
    Acquire,
    /// Open the single render pass on the acquired texture, clearing it to
    /// `clear` and storing the result.
    BeginPass { clear: ClearColor },
    /// Bind the pipeline.
    SetPipeline(PipelineKind),
    /// Draw vertices `0..vertices` and instances `0..instances`.
    Draw { vertices: u32, instances: u32 },
    /// Close the render pass and finish the command recording.
    EndPass,
    /// Submit the recorded commands to the queue.
    Submit,
    /// Present the acquired texture.
    Present,
}

/// What the caller does after the surface refused a texture.
#[derive(Clone, Copy, Debug, PartialEq, Eq, Structural)]
pub enum Recovery {
    /// Re-apply the state's configuration to the surface; this frame is skipped.
    Reconfigure,
    /// End the session; no frame follows.
    Exit,
    /// Skip this frame and go on.
    Skip,
}

/// The steps of one frame for a state: acquire, one render pass with one
/// draw, submit, present; none where the session has ended or the surface
/// has no area.
pub open spec fn frame_commands(s: State) -> Seq<FrameCommand> {
    if s.running && s.surface_valid() {
        seq![
            FrameCommand::Acquire,
            FrameCommand::BeginPass { clear: s.clear_colour },
            FrameCommand::SetPipeline(s.pipeline),
            FrameCommand::Draw { vertices: FRAME_VERTICES, instances: FRAME_INSTANCES },
            FrameCommand::EndPass,
            FrameCommand::Submit,
            FrameCommand::Present,
        ]
    } else {
        seq![]
    }
}

/// The recovery for an acquisition error.
pub open spec fn recovery_for(s: State, e: wgpu::SurfaceError) -> Recovery {
    match e {
        wgpu::SurfaceError::Lost | wgpu::SurfaceError::Outdated => if s.size.has_area() {
            Recovery::Reconfigure
        } else {
            Recovery::Skip
        },
        wgpu::SurfaceError::OutOfMemory => Recovery::Exit,
        wgpu::SurfaceError::Timeout => Recovery::Skip,
    }
}

/// The state after an acquisition error.
pub open spec fn after_failure(s: State, e: wgpu::SurfaceError) -> State {
    match e {
        wgpu::SurfaceError::Lost | wgpu::SurfaceError::Outdated => s.resized(s.size),
        wgpu::SurfaceError::OutOfMemory => State { running: false, ..s },
        wgpu::SurfaceError::Timeout => s,
    }
}

impl State {
    /// The steps of the next frame, read from the clear colour and the
    /// active pipeline.
    pub fn render(&self) -> (r: Vec<FrameCommand>)
        ensures
            r@ == frame_commands(*self),
    {
        if self.running && self.is_surface_valid() {
            vec![
                FrameCommand::Acquire,
                FrameCommand::BeginPass { clear: self.clear_colour },
                FrameCommand::SetPipeline(self.pipeline),
                FrameCommand::Draw { vertices: FRAME_VERTICES, instances: FRAME_INSTANCES },
                FrameCommand::EndPass,
                FrameCommand::Submit,
                FrameCommand::Present,
            ]
        } else {
            Vec::new()
        }
    }

    /// Handles a refused acquisition. A lost or outdated surface is resized to
    /// the last known window size; running out of memory ends the session;
    /// any other error skips the frame.
    pub fn acquire_failed(&mut self, e: &wgpu::SurfaceError) -> (r: Recovery)
        ensures
            r == recovery_for(*old(self), *e),
            *final(self) == after_failure(*old(self), *e),
            old(self).wf() ==> final(self).wf(),
    {
        match e {
            wgpu::SurfaceError::Lost | wgpu::SurfaceError::Outdated => {
                let size = self.size;
                if self.resize(size) {
                    Recovery::Reconfigure
                } else {
                    Recovery::Skip
                }
            },
            wgpu::SurfaceError::OutOfMemory => {
                self.running = false;
                Recovery::Exit
            },
            wgpu::SurfaceError::Timeout => Recovery::Skip,
        }
    }
}

} // verus!
