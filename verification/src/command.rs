//! What the state machine asks the host to do after handling a message.
//!
//! The host performs the command — moves focus, closes the window, opens a
//! dialog, reads or writes a file, opens a link — and reports any outcome
//! back as a [`crate::message::Message`].

use vstd::prelude::*;

use crate::message::Message;
use crate::model::CommandView;

verus! {

/// An instruction to the host.
#[derive(Debug, PartialEq, Eq)]
pub enum Command {
    /// Nothing to do.
    Idle,
    /// Move keyboard focus to the next widget (onto the freshly shown modal).
    FocusNext,
    /// Feed this message straight back into the state machine.
    Dispatch(Message),
    /// Close the window, ending the application.
    CloseWindow,
    /// Show the file-picking dialog, load the picked file, and report the
    /// outcome as `Message::FileOpened`.
    PickFile,
    /// Read the file at this path and report the outcome as
    /// `Message::FileOpened`.
    LoadFile(String),
    /// Write `contents` to `path` — or to a path asked of the user when
    /// `path` is `None` — and report the outcome as `Message::FileSaved`.
    SaveFile { path: Option<String>, contents: String },
    /// Open this URL with whatever the system associates with it.
    OpenLink(String),
}

impl View for Command {
    type V = CommandView;

    open spec fn view(&self) -> CommandView {
        match self {
            Command::Idle => CommandView::Idle,
            Command::FocusNext => CommandView::FocusNext,
            Command::Dispatch(m) => CommandView::Dispatch(m@),
            Command::CloseWindow => CommandView::CloseWindow,
            Command::PickFile => CommandView::PickFile,
            Command::LoadFile(path) => CommandView::LoadFile(path@),
            Command::SaveFile { path, contents } => CommandView::SaveFile {
                path: path.deep_view(),
                contents: contents@,
            },
            Command::OpenLink(url) => CommandView::OpenLink(url@),
        }
    }
}

} // verus!
