//! One event-loop tick: the session takes a window event and answers with the
//! single action the caller performs.
use vstd::prelude::*;

use crate::input::{InputEvent, KeyState, LogicalKey};
use crate::state::State;
use crate::window::{WindowCommand, WindowCommandState};

verus! {

/// The characters of `s` in lower case.
pub uninterp spec fn lower_of(s: Seq<char>) -> Seq<char>;

/// Relies on `str::to_lowercase`: the lower-case text, which depends on the
/// characters of `s` alone.
#[verifier::external_body]
fn lowercase(s: &str) -> (r: String)
    ensures
        r@ == lower_of(s@),
{
    s.to_lowercase()
}

/// What the caller does after a tick.
#[derive(Clone, Copy, Debug, PartialEq, Eq, Structural)]
pub enum Action {
    Nothing,
    /// End the event loop.
    Exit,
    /// Change the window.
    Window(WindowCommand),
    /// Re-apply the state's configuration to the surface.
    Reconfigure,
    /// Render a frame: carry out the state's frame commands.
    Redraw,
}

/// The render state and the window settings of a running session.
#[derive(Clone, Copy, Debug)]
pub struct Session {
    pub state: State,
    pub window: WindowCommandState,
}

/// The action for an optional window command.
pub open spec fn window_action(c: Option<WindowCommand>) -> Action {
    match c {
        Some(c) => Action::Window(c),
        None => Action::Nothing,
    }
}

impl Session {
    /// The session and the action after `event`, for a window that is
    /// fullscreen or not and a monitor with `mode_count` video modes.
    pub open spec fn step(self, event: InputEvent, fullscreen: bool, mode_count: usize) -> (
        Session,
        Action,
    ) {
        if State::consumes(event) {
            (Session { state: self.state.after_input(event), ..self }, Action::Nothing)
        } else {
            match event {
                InputEvent::CloseRequested => (self, Action::Exit),
                InputEvent::Keyboard { key, state: KeyState::Pressed } => match key {
                    LogicalKey::Escape => (self, Action::Exit),
                    LogicalKey::Character(text) => {
                        let (w, c) = self.window.key_step(lower_of(text@), fullscreen, mode_count);
                        (Session { window: w, ..self }, window_action(c))
                    },
                    _ => (self, Action::Nothing),
                },
                InputEvent::RedrawRequested => (self, Action::Redraw),
                InputEvent::Resized(size) => (
                    Session { state: self.state.resized(size), ..self },
                    if size.has_area() {
                        Action::Reconfigure
                    } else {
                        Action::Nothing
                    },
                ),
                _ => (self, Action::Nothing),
            }
        }
    }

    /// A session for `state` with the settings of a new window.
    pub fn new(state: State) -> (r: Session)
        ensures
            r.state == state,
            r.window == WindowCommandState::initial(),
    {
        Session { state, window: WindowCommandState::new() }
    }

    /// Handles one window event. The input router sees it first; what it
    /// leaves decides the action: a close request or Escape ends the loop, a
    /// character key changes the window, a redraw request renders a frame, a
    /// resize with an area reconfigures the surface.
    pub fn handle_event(&mut self, event: &InputEvent, fullscreen: bool, mode_count: usize) -> (r:
        Action)
        ensures
            (*final(self), r) == old(self).step(*event, fullscreen, mode_count),
            old(self).state.wf() ==> final(self).state.wf(),
    {
        if self.state.input(event) {
            return Action::Nothing;
        }
        match event {
            InputEvent::CloseRequested => Action::Exit,
            InputEvent::Keyboard { key, state: KeyState::Pressed } => match key {
                LogicalKey::Escape => Action::Exit,
                LogicalKey::Character(text) => {
                    let lowered = lowercase(text.as_str());
                    match self.window.command_for_key(lowered.as_str(), fullscreen, mode_count) {
                        Some(c) => Action::Window(c),
                        None => Action::Nothing,
                    }
                },
                _ => Action::Nothing,
            },
            InputEvent::RedrawRequested => Action::Redraw,
            InputEvent::Resized(size) => {
                if self.state.resize(*size) {
                    Action::Reconfigure
                } else {
                    Action::Nothing
                }
            },
            _ => Action::Nothing,
        }
    }
}

} // verus!
