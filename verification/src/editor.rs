//! The state of the editor window and the state machine that drives it.
//!
//! [`Montagne::update`] is the whole decision layer of the application: it
//! maps the current state and one [`Message`] to the next state and one
//! [`Command`] for the host, and is proved to implement the transition
//! function of the ghost model ([`step`] and [`step_command`]).

use vstd::prelude::*;

use crate::command::Command;
use crate::message::{Message, WindowEvent};
use crate::mode::Mode;
use crate::model::{
    init, load_active_file_command, load_active_file_step, step, step_command, MontagneView,
};
use crate::montagne_file_io::Error;

verus! {

/// The state of the editor window.
#[derive(Debug)]
pub struct Montagne {
    /// The text in the editing surface.
    pub content: String,
    /// The text the markdown preview was last rendered from.  The host keeps
    /// the rendered items equal to the rendering of this field.
    pub preview_source: String,
    /// The path the buffer was last loaded from or saved to, if any.
    pub active_file: Option<String>,
    /// A file transfer is under way; further transfers must wait.
    pub is_loading: bool,
    /// The buffer has changes that no save has written out yet.
    pub is_dirty: bool,
    pub application_mode: Mode,
    /// The line of feedback in the status bar.
    pub application_msg: String,
    pub is_show_exit_modal: bool,
    pub is_show_file_changed_modal: bool,
}

impl View for Montagne {
    type V = MontagneView;

    open spec fn view(&self) -> MontagneView {
        MontagneView {
            content: self.content@,
            preview_source: self.preview_source@,
            active_file: self.active_file.deep_view(),
            is_loading: self.is_loading,
            is_dirty: self.is_dirty,
            application_mode: self.application_mode,
            application_msg: self.application_msg@,
            is_show_exit_modal: self.is_show_exit_modal,
            is_show_file_changed_modal: self.is_show_file_changed_modal,
        }
    }
}

impl Montagne {
    /// The state the window starts in: an empty, clean buffer in writing mode.
    pub fn new() -> (s: Montagne)
        ensures
            s@ == init(),
    {
        Montagne {
            content: String::new(),
            preview_source: String::new(),
            active_file: None,
            is_loading: false,
            is_dirty: false,
            application_mode: Mode::Write,
            application_msg: String::from_str("Welcome to Montagne."),
            is_show_exit_modal: false,
            is_show_file_changed_modal: false,
        }
    }

    /// Handle one message: move to the next state and tell the host what to
    /// do.  This is the transition function of the editor, proved equal to
    /// the ghost model's [`step`] and [`step_command`].
    pub fn update(&mut self, message: Message) -> (c: Command)
        ensures
            final(self)@ == step(old(self)@, message@),
            c@ == step_command(old(self)@, message@),
    {
        match message {
            Message::WindowEvent(e) => match e {
                WindowEvent::CloseRequested => {
                    if self.is_dirty {
                        self.application_msg = String::from_str("Close Requested");
                        self.is_show_exit_modal = true;
                        Command::FocusNext
                    } else {
                        Command::Dispatch(Message::CloseApp)
                    }
                },
                WindowEvent::Other => Command::Idle,
            },
            Message::CloseApp => Command::CloseWindow,
            Message::CloseExitModal => {
                self.application_msg = String::from_str("Request Cancelled");
                self.is_show_exit_modal = false;
                Command::Idle
            },
            Message::Edit { is_edit, text } => {
                if self.is_show_exit_modal {
                    return Command::Idle;
                }
                self.is_dirty = self.is_dirty || is_edit;
                if self.application_mode.shows_preview() {
                    self.preview_source = text.clone();
                }
                self.content = text;
                Command::Idle
            },
            Message::FileModified => {
                if self.is_dirty {
                    self.is_show_file_changed_modal = true;
                    Command::Idle
                } else {
                    self.load_active_file_or_set_error()
                }
            },
            Message::LoadFile => {
                self.is_loading = true;
                self.load_active_file_or_set_error()
            },
            Message::NewFile => {
                if !self.is_loading {
                    self.active_file = None;
                    self.content = String::new();
                    if self.application_mode.shows_preview() {
                        self.preview_source = String::new();
                    }
                }
                Command::Idle
            },
            Message::OpenFile => {
                if self.is_loading {
                    Command::Idle
                } else {
                    self.is_loading = true;
                    Command::PickFile
                }
            },
            Message::FileOpened(result) => {
                self.is_loading = false;
                match result {
                    Err(Error::DialogClosed) => {
                        self.application_msg = String::from_str("Dialogue closed");
                    },
                    Err(Error::IoError(kind)) => {
                        self.application_msg = String::from_str("I/O Error ").concat(
                            kind.as_str(),
                        );
                    },
                    Ok((path, contents)) => {
                        self.is_dirty = false;
                        if self.application_mode.shows_preview() {
                            self.preview_source = contents.clone();
                        }
                        self.content = contents;
                        self.active_file = Some(path);
                        self.application_msg = String::from_str("File Opened");
                    },
                }
                Command::Idle
            },
            Message::SaveFile => {
                if self.is_loading {
                    Command::Idle
                } else {
                    self.is_loading = true;
                    let path = match &self.active_file {
                        Some(p) => Some(p.clone()),
                        None => None,
                    };
                    Command::SaveFile { path, contents: self.content.clone() }
                }
            },
            Message::FileSaved(result) => {
                self.is_loading = false;
                match result {
                    Err(Error::DialogClosed) => {
                        self.application_msg = String::from_str("Dialogue closed");
                    },
                    Err(Error::IoError(kind)) => {
                        self.application_msg = String::from_str("I/O Error ").concat(
                            kind.as_str(),
                        );
                    },
                    Ok(path) => {
                        self.active_file = Some(path);
                        // The buffer becomes clean only here, when the write
                        // is known to have gone through.
                        self.is_dirty = false;
                        self.application_msg = String::from_str("File Saved");
                        // Also take down the exit modal, for the save that
                        // was asked for from there.
                        self.is_show_exit_modal = false;
                    },
                }
                Command::Idle
            },
            Message::LinkClicked(url) => Command::OpenLink(url),
            Message::SetMode(mode) => {
                if mode.shows_preview() {
                    self.preview_source = self.content.clone();
                }
                self.application_msg = String::from_str(mode.label()).concat(" mode");
                self.application_mode = mode;
                Command::Idle
            },
            Message::TogglerToggled => {
                match self.application_mode {
                    Mode::Preview | Mode::Write => Command::Dispatch(
                        Message::SetMode(Mode::Split),
                    ),
                    Mode::Split => Command::Dispatch(
                        Message::SetMode(Mode::Write),
                    ),
                }
            },
        }
    }

    /// Start reloading the active file; with no active path, say so in the
    /// status line instead.
    pub fn load_active_file_or_set_error(&mut self) -> (c: Command)
        ensures
            final(self)@ == load_active_file_step(old(self)@),
            c@ == load_active_file_command(old(self)@),
    {
        match &self.active_file {
            Some(path) => Command::LoadFile(path.clone()),
            None => {
                self.application_msg = String::from_str("Error: No file path for active file.");
                Command::Idle
            },
        }
    }
}

} // verus!
