//! The editing modes of the window: writing, previewing, or both side by side.

use vstd::prelude::*;

verus! {

/// Which of the two panes (editing surface, rendered preview) the window shows.
#[derive(Clone, Copy, Debug, PartialEq, Eq, Structural)]
pub enum Mode {
    Write,
    Preview,
    Split,
}

/// The label under which a mode is presented to the user.
pub open spec fn mode_label(m: Mode) -> Seq<char> {
    match m {
        Mode::Write => "Write"@,
        Mode::Preview => "Preview"@,
        Mode::Split => "Split"@,
    }
}

/// True for the modes in which the rendered preview is on screen, so the
/// markdown items backing it must be kept in step with the text.
pub open spec fn shows_preview(m: Mode) -> bool {
    m is Preview || m is Split
}

impl Mode {
    /// The label under which this mode is presented to the user.
    pub fn label(&self) -> (r: &'static str)
        ensures
            r@ == mode_label(*self),
    {
        match self {
            Mode::Write => "Write",
            Mode::Preview => "Preview",
            Mode::Split => "Split",
        }
    }

    /// Whether the rendered preview is on screen in this mode.
    pub fn shows_preview(&self) -> (r: bool)
        ensures
            r == shows_preview(*self),
    {
        match self {
            Mode::Write => false,
            Mode::Preview => true,
            Mode::Split => true,
        }
    }
}

} // verus!
