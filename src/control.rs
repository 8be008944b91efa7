//! The three control flags shared between the input dispatcher and the
//! content generator.
use vstd::prelude::*;

verus! {

/// Exit-requested, fullscreen-active and matrix-mode-active.
#[derive(Clone, Copy, Debug, PartialEq, Eq, Structural)]
pub struct ControlFlags {
    pub exit_requested: bool,
    pub fullscreen: bool,
    pub matrix_mode: bool,
}

impl ControlFlags {
    /// The flags at process start: no exit, fullscreen, matrix mode as asked.
    pub fn new(matrix_mode: bool) -> (r: ControlFlags)
        ensures
            r == (ControlFlags { exit_requested: false, fullscreen: true, matrix_mode }),
    {
        ControlFlags { exit_requested: false, fullscreen: true, matrix_mode }
    }

    /// Requests exit; once set, the request is never withdrawn.
    pub fn set_exit(&mut self)
        ensures
            *final(self) == (ControlFlags { exit_requested: true, ..*old(self) }),
    {
        self.exit_requested = true;
    }

    pub fn is_exit_requested(&self) -> (r: bool)
        ensures
            r == self.exit_requested,
    {
        self.exit_requested
    }

    /// Flips the fullscreen flag and returns its new value.
    pub fn toggle_fullscreen(&mut self) -> (r: bool)
        ensures
            *final(self) == (ControlFlags { fullscreen: !old(self).fullscreen, ..*old(self) }),
            r == final(self).fullscreen,
    {
        self.fullscreen = !self.fullscreen;
        self.fullscreen
    }

    /// Flips the matrix-mode flag and returns its new value.
    pub fn toggle_matrix_mode(&mut self) -> (r: bool)
        ensures
            *final(self) == (ControlFlags { matrix_mode: !old(self).matrix_mode, ..*old(self) }),
            r == final(self).matrix_mode,
    {
        self.matrix_mode = !self.matrix_mode;
        self.matrix_mode
    }
}

} // verus!
