//! Window input as the session sees it, and the render parameters it drives.
use vstd::prelude::*;

use crate::surface::WindowSize;

verus! {

/// The bit pattern of the binary64 value `1.0`.
pub const ONE_BITS: u64 = 0x3FF0_0000_0000_0000;

/// The bit pattern of the binary64 value `0.0`.
pub const ZERO_BITS: u64 = 0;

/// The colour a frame is cleared to. Each channel holds the IEEE 754 binary64
/// bit pattern of its value, so the colour is carried exactly as it was given.
#[derive(Clone, Copy, Debug, PartialEq, Eq, Structural)]
pub struct ClearColor {
    pub r: u64,
    pub g: u64,
    pub b: u64,
    pub a: u64,
}

impl ClearColor {
    /// Opaque black: the colour a session starts with.
    pub fn black() -> (r: ClearColor)
        ensures
            r == (ClearColor { r: ZERO_BITS, g: ZERO_BITS, b: ZERO_BITS, a: ONE_BITS }),
    {
        ClearColor { r: ZERO_BITS, g: ZERO_BITS, b: ZERO_BITS, a: ONE_BITS }
    }

    /// The colour a pointer at `(x, y)` selects: red and green are the raw
    /// coordinates, blue and alpha are one.
    pub open spec fn from_pointer(x: u64, y: u64) -> ClearColor {
        ClearColor { r: x, g: y, b: ONE_BITS, a: ONE_BITS }
    }
}

/// Which of the two fixed draw pipelines renders the frame.
#[derive(Clone, Copy, Debug, PartialEq, Eq, Structural)]
pub enum PipelineKind {
    /// The pipeline whose fragment stage produces the plain colour.
    Standard,
    /// The pipeline whose fragment stage produces the distinct fixed pattern.
    Challenge,
}

/// Whether a key went down or came up.
#[derive(Clone, Copy, Debug, PartialEq, Eq, Structural)]
pub enum KeyState {
    Pressed,
    Released,
}

/// The logical identity of a key.
#[derive(Clone, Debug)]
pub enum LogicalKey {
    /// The key that selects the pipeline.
    Space,
    Escape,
    /// A key that produces text.
    Character(String),
    Other,
}

/// A window event delivered to the session.
#[derive(Clone, Debug)]
pub enum InputEvent {
    /// The pointer moved; `x` and `y` are the binary64 bit patterns of its
    /// position in physical device coordinates.
    CursorMoved { x: u64, y: u64 },
    Keyboard { key: LogicalKey, state: KeyState },
    Resized(WindowSize),
    CloseRequested,
    RedrawRequested,
    Other,
}

/// The pipeline that a press or release of the selecting key leaves active.
pub open spec fn pipeline_for(state: KeyState) -> PipelineKind {
    match state {
        KeyState::Released => PipelineKind::Standard,
        KeyState::Pressed => PipelineKind::Challenge,
    }
}

} // verus!
