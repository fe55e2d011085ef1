//! Properties that hold across calls: resizing, input routing and the frame
//! protocol.
use vstd::prelude::*;

use crate::frame::{after_failure, frame_commands, FrameCommand, FRAME_INSTANCES, FRAME_VERTICES};
use crate::input::{pipeline_for, ClearColor, InputEvent, KeyState, LogicalKey, PipelineKind};
use crate::session::Session;
use crate::state::State;
use crate::surface::WindowSize;

verus! {

/// `cmds[p]` is the only command of `cmds` that satisfies `is_kind`.
pub open spec fn only_at(cmds: Seq<FrameCommand>, p: int, is_kind: spec_fn(FrameCommand) -> bool) -> bool {
    &&& 0 <= p < cmds.len()
    &&& is_kind(cmds[p])
    &&& forall|i: int| 0 <= i < cmds.len() && #[trigger] is_kind(cmds[i]) ==> i == p
}

/// A resize to a size with an area sets the configuration to that size and
/// leaves the surface valid, so the next frame starts with an acquisition.
pub proof fn lemma_resize_applies(s: State, width: u32, height: u32)
    requires
        width > 0,
        height > 0,
    ensures
        s.resized(WindowSize { width, height }).config.width == width,
        s.resized(WindowSize { width, height }).config.height == height,
        s.resized(WindowSize { width, height }).surface_valid(),
        s.running ==> frame_commands(s.resized(WindowSize { width, height }))[0]
            == FrameCommand::Acquire,
{
}

/// A resize to a size without an area changes nothing.
pub proof fn lemma_resize_zero_is_noop(s: State, width: u32, height: u32)
    requires
        width == 0 || height == 0,
    ensures
        s.resized(WindowSize { width, height }) == s,
{
}

/// Resizing twice to the same size gives what resizing once gives.
pub proof fn lemma_resize_idempotent(s: State, size: WindowSize)
    ensures
        s.resized(size).resized(size) == s.resized(size),
{
}

/// A pointer move at `(x, y)` is consumed and sets the clear colour to
/// `(x, y, 1, 1)`, all else unchanged.
pub proof fn lemma_pointer_sets_colour(s: State, x: u64, y: u64)
    ensures
        State::consumes(InputEvent::CursorMoved { x, y }),
        s.after_input(InputEvent::CursorMoved { x, y }).clear_colour == ClearColor::from_pointer(x, y),
        s.after_input(InputEvent::CursorMoved { x, y }) == (State {
            clear_colour: ClearColor::from_pointer(x, y),
            ..s
        }),
{
}

/// The selector follows the key's state: a press followed by a release
/// switches the pipeline exactly once, and a further release leaves it as it is.
pub proof fn lemma_toggle_follows_key(s: State)
    ensures
        ({
            let press = InputEvent::Keyboard { key: LogicalKey::Space, state: KeyState::Pressed };
            let release = InputEvent::Keyboard { key: LogicalKey::Space, state: KeyState::Released };
            let pressed = s.after_input(press);
            let released = pressed.after_input(release);
            let again = released.after_input(release);
            &&& pressed.pipeline == PipelineKind::Challenge
            &&& released.pipeline == PipelineKind::Standard
            &&& released.pipeline != pressed.pipeline
            &&& again.pipeline == released.pipeline
            &&& again == released
        }),
{
}

/// The selector after any key event is a function of the key's state alone.
pub proof fn lemma_toggle_is_level(s: State, k: KeyState)
    ensures
        s.after_input(InputEvent::Keyboard { key: LogicalKey::Space, state: k }).pipeline
            == pipeline_for(k),
        s.after_input(InputEvent::Keyboard { key: LogicalKey::Space, state: k }).after_input(
            InputEvent::Keyboard { key: LogicalKey::Space, state: k },
        ) == s.after_input(InputEvent::Keyboard { key: LogicalKey::Space, state: k }),
{
}

/// A frame on a valid surface is one acquisition, one render pass with one
/// draw of three vertices and one instance, one submission and one
/// presentation, in that order, each exactly once.
pub proof fn lemma_frame_order(s: State)
    requires
        s.running,
        s.surface_valid(),
    ensures
        ({
            let cmds = frame_commands(s);
            &&& cmds.len() == 7
            &&& only_at(cmds, 0, |c: FrameCommand| c is Acquire)
            &&& only_at(cmds, 1, |c: FrameCommand| c is BeginPass)
            &&& only_at(cmds, 2, |c: FrameCommand| c is SetPipeline)
            &&& only_at(cmds, 3, |c: FrameCommand| c is Draw)
            &&& only_at(cmds, 4, |c: FrameCommand| c is EndPass)
            &&& only_at(cmds, 5, |c: FrameCommand| c is Submit)
            &&& only_at(cmds, 6, |c: FrameCommand| c is Present)
            &&& cmds[1] == FrameCommand::BeginPass { clear: s.clear_colour }
            &&& cmds[2] == FrameCommand::SetPipeline(s.pipeline)
            &&& cmds[3] == FrameCommand::Draw { vertices: FRAME_VERTICES, instances: FRAME_INSTANCES }
            &&& FRAME_VERTICES == 3 && FRAME_INSTANCES == 1
        }),
{
    let cmds = frame_commands(s);
    assert forall|i: int| 0 <= i < cmds.len() implies (cmds[i] is Acquire ==> i == 0) && (
    cmds[i] is BeginPass ==> i == 1) && (cmds[i] is SetPipeline ==> i == 2) && (cmds[i] is Draw
        ==> i == 3) && (cmds[i] is EndPass ==> i == 4) && (cmds[i] is Submit ==> i == 5) && (
    cmds[i] is Present ==> i == 6) by {
        assert(0 <= i < 7);
    }
}

/// Once the session has ended no event starts it again and no frame follows.
pub proof fn lemma_ended_session_renders_nothing(
    sess: Session,
    event: InputEvent,
    fullscreen: bool,
    mode_count: usize,
)
    requires
        !sess.state.running,
    ensures
        !sess.step(event, fullscreen, mode_count).0.state.running,
        frame_commands(sess.step(event, fullscreen, mode_count).0.state).len() == 0,
{
}

/// Running out of memory ends the session: no frame follows it.
pub proof fn lemma_out_of_memory_ends(s: State)
    ensures
        !after_failure(s, wgpu::SurfaceError::OutOfMemory).running,
        frame_commands(after_failure(s, wgpu::SurfaceError::OutOfMemory)).len() == 0,
{
}

} // verus!
