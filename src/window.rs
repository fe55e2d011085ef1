//! Window-level commands chosen from key presses that the input router left
//! alone: fullscreen, video mode, decorations, maximise, minimise and the
//! inner size limits.
use vstd::prelude::*;
use vstd::string::StrSliceExecFns;

use crate::surface::WindowSize;

verus! {

/// Side of the square minimum inner size that the `i` key switches on.
pub const MIN_INNER_SIDE: u32 = 100;

/// Side of the square maximum inner size that the `a` key switches on.
pub const MAX_INNER_SIDE: u32 = 200;

/// The fullscreen mode a window is asked to enter.
#[derive(Clone, Copy, Debug, PartialEq, Eq, Structural)]
pub enum Fullscreen {
    /// Exclusive fullscreen in the current monitor's video mode at `mode_index`.
    Exclusive { mode_index: usize },
    /// Borderless fullscreen on the current monitor.
    Borderless,
}

/// A change the caller makes to the window.
#[derive(Clone, Copy, Debug, PartialEq, Eq, Structural)]
pub enum WindowCommand {
    LeaveFullscreen,
    EnterFullscreen(Fullscreen),
    /// The video mode at this index of the current monitor is now selected.
    SelectMode(usize),
    SetDecorations(bool),
    SetMaximized(bool),
    SetMinimized(bool),
    SetMinInnerSize(Option<WindowSize>),
    SetMaxInnerSize(Option<WindowSize>),
}

/// The window settings that the key commands switch.
#[derive(Clone, Copy, Debug, PartialEq, Eq, Structural)]
pub struct WindowCommandState {
    pub decorations: bool,
    pub minimized: bool,
    pub maximized: bool,
    pub with_min_size: bool,
    pub with_max_size: bool,
    /// Index of the selected video mode of the current monitor.
    pub mode_index: usize,
}

/// The character of a one-character text; `None` for any other text.
pub open spec fn key_char(text: Seq<char>) -> Option<char> {
    if text.len() == 1 {
        Some(text[0])
    } else {
        None
    }
}

/// The video mode after `i`, wrapping to the first after the last of `count`.
pub open spec fn next_mode(i: usize, count: usize) -> usize {
    if i + 1 < count {
        (i + 1) as usize
    } else {
        0
    }
}

/// A square size limit that is on or off.
pub open spec fn square_limit(on: bool, side: u32) -> Option<WindowSize> {
    if on {
        Some(WindowSize { width: side, height: side })
    } else {
        None
    }
}

impl WindowCommandState {
    /// What a pressed key whose lower-case text is `key` does: the new
    /// settings and the command for the window, if any. `fullscreen` tells
    /// whether the window is fullscreen now; `mode_count` is the number of
    /// video modes of the current monitor.
    pub open spec fn key_step(self, key: Seq<char>, fullscreen: bool, mode_count: usize) -> (
        WindowCommandState,
        Option<WindowCommand>,
    ) {
        let k = key_char(key);
        if (k == Some('f') || k == Some('b')) && fullscreen {
            (self, Some(WindowCommand::LeaveFullscreen))
        } else if k == Some('f') {
            (
                self,
                Some(
                    WindowCommand::EnterFullscreen(
                        Fullscreen::Exclusive { mode_index: self.mode_index },
                    ),
                ),
            )
        } else if k == Some('b') {
            (self, Some(WindowCommand::EnterFullscreen(Fullscreen::Borderless)))
        } else if k == Some('m') {
            let i = next_mode(self.mode_index, mode_count);
            (WindowCommandState { mode_index: i, ..self }, Some(WindowCommand::SelectMode(i)))
        } else if k == Some('d') {
            (
                WindowCommandState { decorations: !self.decorations, ..self },
                Some(WindowCommand::SetDecorations(!self.decorations)),
            )
        } else if k == Some('x') {
            (
                WindowCommandState { maximized: !self.maximized, ..self },
                Some(WindowCommand::SetMaximized(!self.maximized)),
            )
        } else if k == Some('z') {
            (
                WindowCommandState { minimized: !self.minimized, ..self },
                Some(WindowCommand::SetMinimized(!self.minimized)),
            )
        } else if k == Some('i') {
            (
                WindowCommandState { with_min_size: !self.with_min_size, ..self },
                Some(
                    WindowCommand::SetMinInnerSize(
                        square_limit(!self.with_min_size, MIN_INNER_SIDE),
                    ),
                ),
            )
        } else if k == Some('a') {
            (
                WindowCommandState { with_max_size: !self.with_max_size, ..self },
                Some(
                    WindowCommand::SetMaxInnerSize(
                        square_limit(!self.with_max_size, MAX_INNER_SIDE),
                    ),
                ),
            )
        } else {
            (self, None)
        }
    }

    /// The settings of a new window: decorated, neither minimised nor
    /// maximised, no size limits, the first video mode.
    pub open spec fn initial() -> WindowCommandState {
        WindowCommandState {
            decorations: true,
            minimized: false,
            maximized: false,
            with_min_size: false,
            with_max_size: false,
            mode_index: 0,
        }
    }

    /// The settings of a new window.
    pub fn new() -> (r: WindowCommandState)
        ensures
            r == WindowCommandState::initial(),
    {
        WindowCommandState {
            decorations: true,
            minimized: false,
            maximized: false,
            with_min_size: false,
            with_max_size: false,
            mode_index: 0,
        }
    }

    /// Applies a pressed key whose text, in lower case, is `key`.
    pub fn command_for_key(&mut self, key: &str, fullscreen: bool, mode_count: usize) -> (r:
        Option<WindowCommand>)
        ensures
            (*final(self), r) == old(self).key_step(key@, fullscreen, mode_count),
    {
        let k = single_char(key);
        let f = k == Some('f');
        let b = k == Some('b');
        if (f || b) && fullscreen {
            Some(WindowCommand::LeaveFullscreen)
        } else if f {
            Some(WindowCommand::EnterFullscreen(Fullscreen::Exclusive { mode_index: self.mode_index }))
        } else if b {
            Some(WindowCommand::EnterFullscreen(Fullscreen::Borderless))
        } else if k == Some('m') {
            let i: usize = if mode_count > 0 && self.mode_index < mode_count - 1 {
                self.mode_index + 1
            } else {
                0
            };
            self.mode_index = i;
            Some(WindowCommand::SelectMode(i))
        } else if k == Some('d') {
            self.decorations = !self.decorations;
            Some(WindowCommand::SetDecorations(self.decorations))
        } else if k == Some('x') {
            self.maximized = !self.maximized;
            Some(WindowCommand::SetMaximized(self.maximized))
        } else if k == Some('z') {
            self.minimized = !self.minimized;
            Some(WindowCommand::SetMinimized(self.minimized))
        } else if k == Some('i') {
            self.with_min_size = !self.with_min_size;
            let limit = if self.with_min_size {
                Some(WindowSize { width: MIN_INNER_SIDE, height: MIN_INNER_SIDE })
            } else {
                None
            };
            Some(WindowCommand::SetMinInnerSize(limit))
        } else if k == Some('a') {
            self.with_max_size = !self.with_max_size;
            let limit = if self.with_max_size {
                Some(WindowSize { width: MAX_INNER_SIDE, height: MAX_INNER_SIDE })
            } else {
                None
            };
            Some(WindowCommand::SetMaxInnerSize(limit))
        } else {
            None
        }
    }
}

/// The character of `s` when it is exactly one character long.
pub fn single_char(s: &str) -> (r: Option<char>)
    ensures
        r == key_char(s@),
{
    if s.unicode_len() == 1 {
        Some(s.get_char(0))
    } else {
        None
    }
}

} // verus!
