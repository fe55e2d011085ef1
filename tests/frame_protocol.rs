use render_host::frame::{FrameCommand, Recovery};
use render_host::input::{ClearColor, InputEvent, KeyState, LogicalKey, PipelineKind};
use render_host::state::State;
use render_host::surface::WindowSize;
use wgpu::{CompositeAlphaMode, PresentMode, SurfaceError, TextureFormat};

fn session_state(width: u32, height: u32) -> State {
    State::new(
        WindowSize { width, height },
        &vec![TextureFormat::Bgra8UnormSrgb],
        &vec![PresentMode::Fifo],
        &vec![CompositeAlphaMode::Opaque],
    )
    .unwrap()
}

#[test]
fn frame_is_one_acquire_pass_draw_submit_present() {
    let mut s = session_state(640, 480);
    s.input(&InputEvent::Keyboard { key: LogicalKey::Space, state: KeyState::Released });
    let cmds = s.render();
    assert_eq!(
        cmds,
        vec![
            FrameCommand::Acquire,
            FrameCommand::BeginPass { clear: ClearColor { r: 0, g: 0, b: 0, a: 1.0f64.to_bits() } },
            FrameCommand::SetPipeline(PipelineKind::Standard),
            FrameCommand::Draw { vertices: 3, instances: 1 },
            FrameCommand::EndPass,
            FrameCommand::Submit,
            FrameCommand::Present,
        ]
    );
}

#[test]
fn lost_surface_resizes_to_last_size() {
    let mut s = session_state(640, 480);
    s.resize(WindowSize { width: 1024, height: 768 });
    s.resize(WindowSize { width: 0, height: 0 });
    s.config.width = 1;
    let r = s.acquire_failed(&SurfaceError::Lost);
    assert_eq!(r, Recovery::Reconfigure);
    assert_eq!(s.config.width, 1024);
    assert_eq!(s.config.height, 768);
    assert!(s.running);
}

#[test]
fn outdated_surface_resizes_to_last_size() {
    let mut s = session_state(640, 480);
    assert_eq!(s.acquire_failed(&SurfaceError::Outdated), Recovery::Reconfigure);
    assert_eq!(s.config.width, 640);
    assert_eq!(s.config.height, 480);
}

#[test]
fn lost_surface_without_area_skips() {
    let mut s = session_state(0, 480);
    assert_eq!(s.acquire_failed(&SurfaceError::Lost), Recovery::Skip);
    assert_eq!(s.config.width, 0);
}

#[test]
fn out_of_memory_ends_session() {
    let mut s = session_state(640, 480);
    assert_eq!(s.acquire_failed(&SurfaceError::OutOfMemory), Recovery::Exit);
    assert!(!s.running);
    assert!(s.render().is_empty());
    s.resize(WindowSize { width: 10, height: 10 });
    s.input(&InputEvent::CursorMoved { x: 2.0f64.to_bits(), y: 3.0f64.to_bits() });
    assert!(s.render().is_empty());
}

#[test]
fn timeout_skips_frame() {
    let mut s = session_state(640, 480);
    assert_eq!(s.acquire_failed(&SurfaceError::Timeout), Recovery::Skip);
    assert!(s.running);
    assert_eq!(s.config.width, 640);
    assert_eq!(s.render().len(), 7);
}

#[test]
fn two_ticks_render_same_frame() {
    let mut s = session_state(640, 480);
    s.input(&InputEvent::CursorMoved { x: 100.0f64.to_bits(), y: 50.0f64.to_bits() });
    let first = s.render();
    let second = s.render();
    assert_eq!(first, second);
    assert_eq!(first.len(), 7);
    assert_eq!(
        first[1],
        FrameCommand::BeginPass {
            clear: ClearColor {
                r: 100.0f64.to_bits(),
                g: 50.0f64.to_bits(),
                b: 1.0f64.to_bits(),
                a: 1.0f64.to_bits()
            }
        }
    );
    assert_eq!(first[2], FrameCommand::SetPipeline(PipelineKind::Challenge));
}
