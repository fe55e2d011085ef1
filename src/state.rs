//! The session's render state: surface configuration, last known window size,
//! clear colour and active pipeline.
use vstd::prelude::*;

use crate::input::{
    pipeline_for, ClearColor, InputEvent, KeyState, LogicalKey, PipelineKind, ONE_BITS, ZERO_BITS,
};
use crate::surface::{
    initial_config, preferred_format, startup_error_for, StartupError, SurfaceConfig, WindowSize,
};

verus! {

/// Everything a session keeps from one frame to the next.
#[derive(Clone, Copy, Debug)]
pub struct State {
    /// The configuration bound to the surface.
    pub config: SurfaceConfig,
    /// The last window size with a non-zero area (or the initial size).
    pub size: WindowSize,
    pub clear_colour: ClearColor,
    pub pipeline: PipelineKind,
    /// Cleared when the surface ran out of memory: no frame follows.
    pub running: bool,
}

impl State {
    /// The configuration always describes the last known window size.
    pub open spec fn wf(self) -> bool {
        self.config.size() == self.size
    }

    /// A surface may be configured and drawn to only with a non-zero area.
    pub open spec fn surface_valid(self) -> bool {
        self.config.size().has_area()
    }

    /// The state after a resize to `new_size`: a zero-area size changes nothing.
    pub open spec fn resized(self, new_size: WindowSize) -> State {
        if new_size.has_area() {
            State { size: new_size, config: self.config.with_size(new_size), ..self }
        } else {
            self
        }
    }

    /// Whether the input router takes the event for itself.
    pub open spec fn consumes(event: InputEvent) -> bool {
        match event {
            InputEvent::CursorMoved { .. } => true,
            InputEvent::Keyboard { key: LogicalKey::Space, .. } => true,
            _ => false,
        }
    }

    /// The state after the input router has seen `event`.
    pub open spec fn after_input(self, event: InputEvent) -> State {
        match event {
            InputEvent::CursorMoved { x, y } => State {
                clear_colour: ClearColor::from_pointer(x, y),
                ..self
            },
            InputEvent::Keyboard { key: LogicalKey::Space, state } => State {
                pipeline: pipeline_for(state),
                ..self
            },
            _ => self,
        }
    }

    /// Starts a session for a window of `size` on a surface that offers the
    /// given formats, present modes and alpha modes.
    pub fn new(
        size: WindowSize,
        formats: &Vec<wgpu::TextureFormat>,
        present_modes: &Vec<wgpu::PresentMode>,
        alpha_modes: &Vec<wgpu::CompositeAlphaMode>,
    ) -> (r: Result<State, StartupError>)
        ensures
            match startup_error_for(formats@, present_modes@, alpha_modes@) {
                Some(e) => r == Err::<State, StartupError>(e),
                None => r matches Ok(s) && {
                    &&& s.wf()
                    &&& s.size == size
                    &&& s.config.format == preferred_format(formats@)
                    &&& s.config.present_mode == present_modes@[0]
                    &&& s.config.alpha_mode == alpha_modes@[0]
                    &&& s.clear_colour == (ClearColor {
                        r: ZERO_BITS,
                        g: ZERO_BITS,
                        b: ZERO_BITS,
                        a: ONE_BITS,
                    })
                    &&& s.pipeline == PipelineKind::Challenge
                    &&& s.running
                },
            },
    {
        match initial_config(size, formats, present_modes, alpha_modes) {
            Ok(config) => Ok(
                State {
                    config,
                    size,
                    clear_colour: ClearColor::black(),
                    pipeline: PipelineKind::Challenge,
                    running: true,
                },
            ),
            Err(e) => Err(e),
        }
    }

    /// Whether the surface may be configured and drawn to.
    pub fn is_surface_valid(&self) -> (r: bool)
        ensures
            r == self.surface_valid(),
    {
        self.config.width > 0 && self.config.height > 0
    }

    /// Takes a new window size. A size with a zero width or height (a
    /// minimised window) is ignored. Returns whether the configuration changed
    /// and must be re-applied to the surface.
    pub fn resize(&mut self, new_size: WindowSize) -> (changed: bool)
        ensures
            changed == new_size.has_area(),
            *final(self) == old(self).resized(new_size),
            changed ==> final(self).config.width == new_size.width
                && final(self).config.height == new_size.height && final(self).surface_valid(),
            !changed ==> *final(self) == *old(self),
            old(self).wf() ==> final(self).wf(),
    {
        if new_size.width > 0 && new_size.height > 0 {
            self.size = new_size;
            self.config.width = new_size.width;
            self.config.height = new_size.height;
            true
        } else {
            false
        }
    }

    /// Routes one event: a pointer move sets the clear colour from its
    /// position, the space key selects the pipeline (the standard one once
    /// released, the challenge one while pressed). Returns whether the event
    /// was consumed; other events are left to the caller.
    pub fn input(&mut self, event: &InputEvent) -> (consumed: bool)
        ensures
            consumed == State::consumes(*event),
            *final(self) == old(self).after_input(*event),
            old(self).wf() ==> final(self).wf(),
    {
        match event {
            InputEvent::CursorMoved { x, y } => {
                self.clear_colour = ClearColor { r: *x, g: *y, b: ONE_BITS, a: ONE_BITS };
                true
            },
            InputEvent::Keyboard { key: LogicalKey::Space, state } => {
                self.pipeline = match state {
                    KeyState::Released => PipelineKind::Standard,
                    KeyState::Pressed => PipelineKind::Challenge,
                };
                true
            },
            _ => false,
        }
    }
}

} // verus!
