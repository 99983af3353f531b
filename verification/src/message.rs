//! The interactions the editor reacts to.
//!
//! Each variant carries plain values: where the host's toolkit hands over a
//! richer object (an editing action, a clicked link, a window event), the
//! host reduces it to the parts the state machine reads before passing it on.

use vstd::prelude::*;

use crate::mode::Mode;
use crate::model::MessageView;
use crate::montagne_file_io::Error;

verus! {

/// The window events the state machine distinguishes.
#[derive(Clone, Copy, Debug, PartialEq, Eq, Structural)]
pub enum WindowEvent {
    /// The user asked to close the window.
    CloseRequested,
    /// Any other window event; the editor ignores these.
    Other,
}

/// An interaction of the application.
#[derive(Debug, PartialEq, Eq)]
pub enum Message {
    /// The editing surface performed an action.  `is_edit` says whether the
    /// action changed the text (as opposed to moving the cursor or scrolling);
    /// `text` is the whole buffer after the action.
    Edit { is_edit: bool, text: String },
    /// A link in the rendered preview was clicked; the payload is its URL.
    LinkClicked(String),
    NewFile,
    OpenFile,
    /// An open or reload finished: either the path and contents of the picked
    /// file, or why there is nothing to show.
    FileOpened(Result<(String, String), Error>),
    SaveFile,
    /// A save finished: either the path written to, or why nothing was written.
    FileSaved(Result<String, Error>),
    SetMode(Mode),
    TogglerToggled,
    WindowEvent(WindowEvent),
    CloseApp,
    CloseExitModal,
    /// The file backing the buffer changed on disk: the user should either
    /// reload it or keep the current changes (reload happens by itself when
    /// nothing is unsaved).
    FileModified,
    /// Load (reload) the active file.
    LoadFile,
}

impl View for Message {
    type V = MessageView;

    open spec fn view(&self) -> MessageView {
        match self {
            Message::Edit { is_edit, text } => MessageView::Edit { is_edit: *is_edit, text: text@ },
            Message::LinkClicked(url) => MessageView::LinkClicked(url@),
            Message::NewFile => MessageView::NewFile,
            Message::OpenFile => MessageView::OpenFile,
            Message::FileOpened(r) => MessageView::FileOpened(
                match r {
                    Ok((path, contents)) => Ok((path@, contents@)),
                    Err(e) => Err(e@),
                },
            ),
            Message::SaveFile => MessageView::SaveFile,
            Message::FileSaved(r) => MessageView::FileSaved(
                match r {
                    Ok(path) => Ok(path@),
                    Err(e) => Err(e@),
                },
            ),
            Message::SetMode(mode) => MessageView::SetMode(*mode),
            Message::TogglerToggled => MessageView::TogglerToggled,
            Message::WindowEvent(e) => MessageView::WindowEvent(*e),
            Message::CloseApp => MessageView::CloseApp,
            Message::CloseExitModal => MessageView::CloseExitModal,
            Message::FileModified => MessageView::FileModified,
            Message::LoadFile => MessageView::LoadFile,
        }
    }
}

} // verus!
