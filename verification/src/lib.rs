//! Montagne: the verified core of a single-window markdown editor.
//!
//! The editor itself is a thin shell over a retained-mode GUI toolkit: a
//! text-editing surface, a live markdown preview, file dialogs, and an
//! unsaved-changes guard on exit.  Everything the shell decides — which
//! flags flip on which event, which file operation to start, which widgets
//! to show — lives here as a state machine over plain values, specified
//! against the ghost model in [`model`].  The shell performs the I/O, the
//! rendering and the dialogs, and feeds the outcomes back as [`message::Message`]s.

pub mod command;
pub mod editor;
pub mod message;
pub mod mode;
pub mod model;
pub mod montagne_file_io;
pub mod view_plan;

pub use command::Command;
pub use editor::Montagne;
pub use message::{Message, WindowEvent};
pub use mode::Mode;
pub use montagne_file_io::Error;
pub use view_plan::{MainLayout, ModeSwitch, Overlay, ViewPlan};
