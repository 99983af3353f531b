//! The ghost model of the editor: what each piece of state and each
//! interaction is mathematically, and the transition function that the
//! executable state machine is proved to implement.

use vstd::prelude::*;

use crate::message::WindowEvent;
use crate::mode::{mode_label, shows_preview, Mode};

verus! {

/// Ghost image of [`crate::montagne_file_io::Error`].
#[verifier::ext_equal]
pub enum ErrorView {
    DialogClosed,
    IoError(Seq<char>),
}

/// Ghost image of [`crate::message::Message`].
#[verifier::ext_equal]
pub enum MessageView {
    Edit { is_edit: bool, text: Seq<char> },
    LinkClicked(Seq<char>),
    NewFile,
    OpenFile,
    FileOpened(Result<(Seq<char>, Seq<char>), ErrorView>),
    SaveFile,
    FileSaved(Result<Seq<char>, ErrorView>),
    SetMode(Mode),
    TogglerToggled,
    WindowEvent(WindowEvent),
    CloseApp,
    CloseExitModal,
    FileModified,
    LoadFile,
}

/// Ghost image of [`crate::command::Command`].
#[verifier::ext_equal]
pub enum CommandView {
    Idle,
    FocusNext,
    Dispatch(MessageView),
    CloseWindow,
    PickFile,
    LoadFile(Seq<char>),
    SaveFile { path: Option<Seq<char>>, contents: Seq<char> },
    OpenLink(Seq<char>),
}

/// Ghost image of [`crate::editor::Montagne`], the whole state of the window.
#[verifier::ext_equal]
pub struct MontagneView {
    /// The text in the editing surface.
    pub content: Seq<char>,
    /// The text the markdown preview was last rendered from.
    pub preview_source: Seq<char>,
    /// The path the buffer was last loaded from or saved to, if any.
    pub active_file: Option<Seq<char>>,
    /// A file transfer is under way; further transfers must wait.
    pub is_loading: bool,
    /// The buffer has changes that no save has written out yet.
    pub is_dirty: bool,
    pub application_mode: Mode,
    /// The line of feedback in the status bar.
    pub application_msg: Seq<char>,
    pub is_show_exit_modal: bool,
    pub is_show_file_changed_modal: bool,
}

/// The state the window starts in: an empty, clean buffer in writing mode.
pub open spec fn init() -> MontagneView {
    MontagneView {
        content: Seq::<char>::empty(),
        preview_source: Seq::<char>::empty(),
        active_file: None,
        is_loading: false,
        is_dirty: false,
        application_mode: Mode::Write,
        application_msg: "Welcome to Montagne."@,
        is_show_exit_modal: false,
        is_show_file_changed_modal: false,
    }
}

/// The status line shown when a read or write failed with this error kind.
pub open spec fn io_error_msg(kind: Seq<char>) -> Seq<char> {
    "I/O Error "@ + kind
}

/// The status line shown on switching to a mode.
pub open spec fn mode_msg(m: Mode) -> Seq<char> {
    mode_label(m) + " mode"@
}

/// Reloading the active file: with no active path there is nothing to load,
/// and the status line says so.
pub open spec fn load_active_file_step(s: MontagneView) -> MontagneView {
    match s.active_file {
        Some(_) => s,
        None => MontagneView { application_msg: "Error: No file path for active file."@, ..s },
    }
}

/// The command that goes with [`load_active_file_step`].
pub open spec fn load_active_file_command(s: MontagneView) -> CommandView {
    match s.active_file {
        Some(path) => CommandView::LoadFile(path),
        None => CommandView::Idle,
    }
}

/// The state after handling one message.
pub open spec fn step(s: MontagneView, m: MessageView) -> MontagneView {
    match m {
        MessageView::WindowEvent(e) => match e {
            WindowEvent::CloseRequested => if s.is_dirty {
                MontagneView {
                    application_msg: "Close Requested"@,
                    is_show_exit_modal: true,
                    ..s
                }
            } else {
                s
            },
            WindowEvent::Other => s,
        },
        MessageView::CloseApp => s,
        MessageView::CloseExitModal => MontagneView {
            application_msg: "Request Cancelled"@,
            is_show_exit_modal: false,
            ..s
        },
        MessageView::Edit { is_edit, text } => if s.is_show_exit_modal {
            s
        } else {
            MontagneView {
                is_dirty: s.is_dirty || is_edit,
                content: text,
                preview_source: if shows_preview(s.application_mode) {
                    text
                } else {
                    s.preview_source
                },
                ..s
            }
        },
        MessageView::FileModified => if s.is_dirty {
            MontagneView { is_show_file_changed_modal: true, ..s }
        } else {
            load_active_file_step(s)
        },
        MessageView::LoadFile => load_active_file_step(
            MontagneView { is_loading: true, ..s },
        ),
        MessageView::NewFile => if !s.is_loading {
            MontagneView {
                active_file: None,
                content: Seq::<char>::empty(),
                preview_source: if shows_preview(s.application_mode) {
                    Seq::<char>::empty()
                } else {
                    s.preview_source
                },
                ..s
            }
        } else {
            s
        },
        MessageView::OpenFile => if s.is_loading {
            s
        } else {
            MontagneView { is_loading: true, ..s }
        },
        MessageView::FileOpened(r) => match r {
            Err(ErrorView::DialogClosed) => MontagneView {
                is_loading: false,
                application_msg: "Dialogue closed"@,
                ..s
            },
            Err(ErrorView::IoError(kind)) => MontagneView {
                is_loading: false,
                application_msg: io_error_msg(kind),
                ..s
            },
            Ok((path, contents)) => MontagneView {
                is_loading: false,
                is_dirty: false,
                content: contents,
                active_file: Some(path),
                application_msg: "File Opened"@,
                preview_source: if shows_preview(s.application_mode) {
                    contents
                } else {
                    s.preview_source
                },
                ..s
            },
        },
        MessageView::SaveFile => if s.is_loading {
            s
        } else {
            MontagneView { is_loading: true, ..s }
        },
        MessageView::FileSaved(r) => match r {
            Err(ErrorView::DialogClosed) => MontagneView {
                is_loading: false,
                application_msg: "Dialogue closed"@,
                ..s
            },
            Err(ErrorView::IoError(kind)) => MontagneView {
                is_loading: false,
                application_msg: io_error_msg(kind),
                ..s
            },
            // A save makes the buffer clean only here, when the write is
            // known to have gone through; it also takes down the exit modal,
            // for the save that was asked for from there.
            Ok(path) => MontagneView {
                is_loading: false,
                active_file: Some(path),
                is_dirty: false,
                application_msg: "File Saved"@,
                is_show_exit_modal: false,
                ..s
            },
        },
        MessageView::LinkClicked(_) => s,
        MessageView::SetMode(mode) => MontagneView {
            preview_source: if shows_preview(mode) {
                s.content
            } else {
                s.preview_source
            },
            application_msg: mode_msg(mode),
            application_mode: mode,
            ..s
        },
        MessageView::TogglerToggled => s,
    }
}

/// The command handed to the host after handling one message.
pub open spec fn step_command(s: MontagneView, m: MessageView) -> CommandView {
    match m {
        MessageView::WindowEvent(e) => match e {
            WindowEvent::CloseRequested => if s.is_dirty {
                CommandView::FocusNext
            } else {
                CommandView::Dispatch(MessageView::CloseApp)
            },
            WindowEvent::Other => CommandView::Idle,
        },
        MessageView::CloseApp => CommandView::CloseWindow,
        MessageView::CloseExitModal => CommandView::Idle,
        MessageView::Edit { .. } => CommandView::Idle,
        MessageView::FileModified => if s.is_dirty {
            CommandView::Idle
        } else {
            load_active_file_command(s)
        },
        MessageView::LoadFile => load_active_file_command(s),
        MessageView::NewFile => CommandView::Idle,
        MessageView::OpenFile => if s.is_loading {
            CommandView::Idle
        } else {
            CommandView::PickFile
        },
        MessageView::FileOpened(_) => CommandView::Idle,
        MessageView::SaveFile => if s.is_loading {
            CommandView::Idle
        } else {
            CommandView::SaveFile { path: s.active_file, contents: s.content }
        },
        MessageView::FileSaved(_) => CommandView::Idle,
        MessageView::LinkClicked(url) => CommandView::OpenLink(url),
        MessageView::SetMode(_) => CommandView::Idle,
        MessageView::TogglerToggled => if s.application_mode is Preview
            || s.application_mode is Write {
            CommandView::Dispatch(MessageView::SetMode(Mode::Split))
        } else {
            CommandView::Dispatch(MessageView::SetMode(Mode::Write))
        },
    }
}

/// Whenever the preview is on screen, what it was rendered from is the text
/// itself: the preview never shows stale text.
pub open spec fn preview_in_sync(s: MontagneView) -> bool {
    shows_preview(s.application_mode) ==> s.preview_source == s.content
}

/// The initial state keeps the preview in step with the text.
pub proof fn lemma_init_preview_in_sync()
    ensures
        preview_in_sync(init()),
{
}

/// Every transition keeps the preview in step with the text.
pub proof fn lemma_step_preserves_preview_in_sync(s: MontagneView, m: MessageView)
    requires
        preview_in_sync(s),
    ensures
        preview_in_sync(step(s, m)),
{
}

/// A request to close the window turns into closing the window exactly when
/// nothing is unsaved; with unsaved changes it raises the exit modal instead.
pub proof fn lemma_close_request_guarded_by_dirty(s: MontagneView)
    ensures
        step_command(s, MessageView::WindowEvent(WindowEvent::CloseRequested))
            == CommandView::Dispatch(MessageView::CloseApp) <==> !s.is_dirty,
        step(s, MessageView::WindowEvent(WindowEvent::CloseRequested)).is_show_exit_modal
            <==> (s.is_dirty || s.is_show_exit_modal),
{
}

/// The exit modal only ever appears on a close request made while the buffer
/// has unsaved changes.
pub proof fn lemma_exit_modal_needs_dirty(s: MontagneView, m: MessageView)
    requires
        !s.is_show_exit_modal,
        step(s, m).is_show_exit_modal,
    ensures
        s.is_dirty,
        m == MessageView::WindowEvent(WindowEvent::CloseRequested),
{
}

/// The file-changed modal only ever appears on a change on disk noticed while
/// the buffer has unsaved changes; with a clean buffer the file is reloaded
/// by itself.
pub proof fn lemma_file_changed_modal_needs_dirty(s: MontagneView, m: MessageView)
    requires
        !s.is_show_file_changed_modal,
        step(s, m).is_show_file_changed_modal,
    ensures
        s.is_dirty,
        m == MessageView::FileModified,
{
}

/// While the exit modal is up, editing actions change nothing: the buffer is
/// frozen until the user answers the modal.
pub proof fn lemma_exit_modal_freezes_buffer(s: MontagneView, is_edit: bool, text: Seq<char>)
    requires
        s.is_show_exit_modal,
    ensures
        step(s, MessageView::Edit { is_edit, text }) == s,
        step_command(s, MessageView::Edit { is_edit, text }) == CommandView::Idle,
{
}

/// While a file transfer is under way, asking to open, save or start a new
/// file does nothing: at most one transfer runs at a time.
pub proof fn lemma_loading_blocks_transfers(s: MontagneView)
    requires
        s.is_loading,
    ensures
        step(s, MessageView::OpenFile) == s,
        step_command(s, MessageView::OpenFile) == CommandView::Idle,
        step(s, MessageView::SaveFile) == s,
        step_command(s, MessageView::SaveFile) == CommandView::Idle,
        step(s, MessageView::NewFile) == s,
{
}

/// Unsaved changes stay marked unsaved until a transfer completes: only a
/// finished open or a finished save makes the buffer clean.
pub proof fn lemma_dirty_cleared_only_by_transfer(s: MontagneView, m: MessageView)
    requires
        s.is_dirty,
        !step(s, m).is_dirty,
    ensures
        (m matches MessageView::FileOpened(r) && r is Ok)
            || (m matches MessageView::FileSaved(r) && r is Ok),
{
}

/// A save started from the state machine always carries the buffer as it
/// stands and aims at the active file, falling back to asking the user for a
/// path when there is none.
pub proof fn lemma_save_carries_buffer(s: MontagneView)
    requires
        !s.is_loading,
    ensures
        step_command(s, MessageView::SaveFile) == (CommandView::SaveFile {
            path: s.active_file,
            contents: s.content,
        }),
{
}

} // verus!
