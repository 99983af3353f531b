use montagne::{Command, Error, Message, Mode, Montagne, WindowEvent};

fn opened(path: &str, contents: &str) -> Message {
    Message::FileOpened(Ok((path.to_string(), contents.to_string())))
}

#[test]
fn new_state_is_welcome() {
    let m = Montagne::new();
    assert_eq!(m.content, "");
    assert_eq!(m.preview_source, "");
    assert_eq!(m.active_file, None);
    assert!(!m.is_loading);
    assert!(!m.is_dirty);
    assert_eq!(m.application_mode, Mode::Write);
    assert_eq!(m.application_msg, "Welcome to Montagne.");
    assert!(!m.is_show_exit_modal);
    assert!(!m.is_show_file_changed_modal);
}

#[test]
fn open_file_starts_picking() {
    let mut m = Montagne::new();
    let c = m.update(Message::OpenFile);
    assert!(m.is_loading);
    assert_eq!(c, Command::PickFile);
}

#[test]
fn open_file_ignored_while_loading() {
    let mut m = Montagne::new();
    m.update(Message::OpenFile);
    let c = m.update(Message::OpenFile);
    assert_eq!(c, Command::Idle);
    assert!(m.is_loading);
}

#[test]
fn file_opened_ok_installs_buffer() {
    let mut m = Montagne::new();
    m.update(Message::OpenFile);
    let c = m.update(opened("/home/me/notes.md", "# Notes\n"));
    assert_eq!(c, Command::Idle);
    assert!(!m.is_loading);
    assert!(!m.is_dirty);
    assert_eq!(m.content, "# Notes\n");
    assert_eq!(m.active_file.as_deref(), Some("/home/me/notes.md"));
    assert_eq!(m.application_msg, "File Opened");
}

#[test]
fn file_opened_in_write_mode_leaves_preview_alone() {
    let mut m = Montagne::new();
    m.update(opened("/tmp/a.md", "body"));
    assert_eq!(m.preview_source, "");
}

#[test]
fn file_opened_in_split_mode_renders_preview() {
    let mut m = Montagne::new();
    m.update(Message::SetMode(Mode::Split));
    m.update(opened("/tmp/a.md", "body"));
    assert_eq!(m.preview_source, "body");
}

#[test]
fn file_opened_dialog_closed_reports() {
    let mut m = Montagne::new();
    m.update(Message::OpenFile);
    let c = m.update(Message::FileOpened(Err(Error::DialogClosed)));
    assert_eq!(c, Command::Idle);
    assert!(!m.is_loading);
    assert_eq!(m.application_msg, "Dialogue closed");
}

#[test]
fn file_opened_io_error_reports_kind() {
    let mut m = Montagne::new();
    let kind = "entity not found".to_string();
    m.update(Message::FileOpened(Err(Error::IoError(kind))));
    assert_eq!(m.application_msg, "I/O Error entity not found");
}

#[test]
fn edit_marks_dirty() {
    let mut m = Montagne::new();
    let c = m.update(Message::Edit { is_edit: true, text: "a".to_string() });
    assert_eq!(c, Command::Idle);
    assert!(m.is_dirty);
    assert_eq!(m.content, "a");
}

#[test]
fn cursor_motion_keeps_clean() {
    let mut m = Montagne::new();
    m.update(Message::Edit { is_edit: false, text: String::new() });
    assert!(!m.is_dirty);
}

#[test]
fn edit_in_write_mode_leaves_preview_alone() {
    let mut m = Montagne::new();
    m.update(Message::Edit { is_edit: true, text: "abc".to_string() });
    assert_eq!(m.preview_source, "");
}

#[test]
fn edit_in_split_mode_renders_preview() {
    let mut m = Montagne::new();
    m.update(Message::SetMode(Mode::Split));
    m.update(Message::Edit { is_edit: true, text: "abc".to_string() });
    assert_eq!(m.preview_source, "abc");
}

#[test]
fn edit_ignored_while_exit_modal_up() {
    let mut m = Montagne::new();
    m.update(Message::Edit { is_edit: true, text: "kept".to_string() });
    m.update(Message::WindowEvent(WindowEvent::CloseRequested));
    assert!(m.is_show_exit_modal);
    let c = m.update(Message::Edit { is_edit: true, text: "dropped".to_string() });
    assert_eq!(c, Command::Idle);
    assert_eq!(m.content, "kept");
}

#[test]
fn close_request_on_clean_buffer_closes() {
    let mut m = Montagne::new();
    let c = m.update(Message::WindowEvent(WindowEvent::CloseRequested));
    assert_eq!(c, Command::Dispatch(Message::CloseApp));
    assert!(!m.is_show_exit_modal);
}

#[test]
fn close_request_on_dirty_buffer_raises_modal() {
    let mut m = Montagne::new();
    m.update(Message::Edit { is_edit: true, text: "x".to_string() });
    let c = m.update(Message::WindowEvent(WindowEvent::CloseRequested));
    assert_eq!(c, Command::FocusNext);
    assert!(m.is_show_exit_modal);
    assert_eq!(m.application_msg, "Close Requested");
}

#[test]
fn close_exit_modal_goes_back() {
    let mut m = Montagne::new();
    m.update(Message::Edit { is_edit: true, text: "x".to_string() });
    m.update(Message::WindowEvent(WindowEvent::CloseRequested));
    let c = m.update(Message::CloseExitModal);
    assert_eq!(c, Command::Idle);
    assert!(!m.is_show_exit_modal);
    assert_eq!(m.application_msg, "Request Cancelled");
}

#[test]
fn close_app_closes_window() {
    let mut m = Montagne::new();
    let c = m.update(Message::CloseApp);
    assert_eq!(c, Command::CloseWindow);
}

#[test]
fn other_window_events_are_ignored() {
    let mut m = Montagne::new();
    let before = m.application_msg.clone();
    let c = m.update(Message::WindowEvent(WindowEvent::Other));
    assert_eq!(c, Command::Idle);
    assert_eq!(m.application_msg, before);
}

#[test]
fn save_file_carries_buffer_and_path() {
    let mut m = Montagne::new();
    m.update(opened("/tmp/doc.md", "old"));
    m.update(Message::Edit { is_edit: true, text: "new".to_string() });
    let c = m.update(Message::SaveFile);
    assert!(m.is_loading);
    assert_eq!(
        c,
        Command::SaveFile { path: Some("/tmp/doc.md".to_string()), contents: "new".to_string() },
    );
}

#[test]
fn save_file_without_path_asks_for_one() {
    let mut m = Montagne::new();
    m.update(Message::Edit { is_edit: true, text: "draft".to_string() });
    let c = m.update(Message::SaveFile);
    assert_eq!(c, Command::SaveFile { path: None, contents: "draft".to_string() });
}

#[test]
fn save_file_ignored_while_loading() {
    let mut m = Montagne::new();
    m.update(Message::OpenFile);
    let c = m.update(Message::SaveFile);
    assert_eq!(c, Command::Idle);
}

#[test]
fn file_saved_ok_clears_dirty_and_exit_modal() {
    let mut m = Montagne::new();
    m.update(Message::Edit { is_edit: true, text: "x".to_string() });
    m.update(Message::WindowEvent(WindowEvent::CloseRequested));
    m.update(Message::SaveFile);
    let c = m.update(Message::FileSaved(Ok("/tmp/x.md".to_string())));
    assert_eq!(c, Command::Idle);
    assert!(!m.is_loading);
    assert!(!m.is_dirty);
    assert!(!m.is_show_exit_modal);
    assert_eq!(m.active_file.as_deref(), Some("/tmp/x.md"));
    assert_eq!(m.application_msg, "File Saved");
}

#[test]
fn file_saved_io_error_reports_kind() {
    let mut m = Montagne::new();
    m.update(Message::FileSaved(Err(Error::IoError("permission denied".to_string()))));
    assert_eq!(m.application_msg, "I/O Error permission denied");
    assert!(!m.is_loading);
}

#[test]
fn new_file_clears_buffer_and_path() {
    let mut m = Montagne::new();
    m.update(opened("/tmp/doc.md", "text"));
    let c = m.update(Message::NewFile);
    assert_eq!(c, Command::Idle);
    assert_eq!(m.content, "");
    assert_eq!(m.active_file, None);
}

#[test]
fn new_file_keeps_dirty_flag() {
    let mut m = Montagne::new();
    m.update(Message::Edit { is_edit: true, text: "x".to_string() });
    m.update(Message::NewFile);
    assert!(m.is_dirty);
}

#[test]
fn new_file_ignored_while_loading() {
    let mut m = Montagne::new();
    m.update(opened("/tmp/doc.md", "text"));
    m.update(Message::OpenFile);
    m.update(Message::NewFile);
    assert_eq!(m.content, "text");
    assert_eq!(m.active_file.as_deref(), Some("/tmp/doc.md"));
}

#[test]
fn set_mode_updates_mode_and_status() {
    let mut m = Montagne::new();
    let c = m.update(Message::SetMode(Mode::Preview));
    assert_eq!(c, Command::Idle);
    assert_eq!(m.application_mode, Mode::Preview);
    assert_eq!(m.application_msg, "Preview mode");
}

#[test]
fn set_mode_to_preview_renders_current_text() {
    let mut m = Montagne::new();
    m.update(Message::Edit { is_edit: true, text: "# head".to_string() });
    m.update(Message::SetMode(Mode::Preview));
    assert_eq!(m.preview_source, "# head");
}

#[test]
fn set_mode_to_write_keeps_old_preview() {
    let mut m = Montagne::new();
    m.update(Message::Edit { is_edit: true, text: "one".to_string() });
    m.update(Message::SetMode(Mode::Split));
    m.update(Message::SetMode(Mode::Write));
    assert_eq!(m.application_msg, "Write mode");
    assert_eq!(m.preview_source, "one");
}

#[test]
fn toggler_from_write_goes_split() {
    let mut m = Montagne::new();
    let c = m.update(Message::TogglerToggled);
    assert_eq!(c, Command::Dispatch(Message::SetMode(Mode::Split)));
}

#[test]
fn toggler_from_preview_goes_split() {
    let mut m = Montagne::new();
    m.update(Message::SetMode(Mode::Preview));
    let c = m.update(Message::TogglerToggled);
    assert_eq!(c, Command::Dispatch(Message::SetMode(Mode::Split)));
}

#[test]
fn toggler_from_split_goes_write() {
    let mut m = Montagne::new();
    m.update(Message::SetMode(Mode::Split));
    let c = m.update(Message::TogglerToggled);
    assert_eq!(c, Command::Dispatch(Message::SetMode(Mode::Write)));
}

#[test]
fn file_modified_on_clean_buffer_reloads() {
    let mut m = Montagne::new();
    m.update(opened("/tmp/doc.md", "text"));
    let c = m.update(Message::FileModified);
    assert_eq!(c, Command::LoadFile("/tmp/doc.md".to_string()));
    assert!(!m.is_show_file_changed_modal);
}

#[test]
fn file_modified_on_dirty_buffer_raises_modal() {
    let mut m = Montagne::new();
    m.update(opened("/tmp/doc.md", "text"));
    m.update(Message::Edit { is_edit: true, text: "text!".to_string() });
    let c = m.update(Message::FileModified);
    assert_eq!(c, Command::Idle);
    assert!(m.is_show_file_changed_modal);
}

#[test]
fn load_file_reloads_active_file() {
    let mut m = Montagne::new();
    m.update(opened("/tmp/doc.md", "text"));
    let c = m.update(Message::LoadFile);
    assert!(m.is_loading);
    assert_eq!(c, Command::LoadFile("/tmp/doc.md".to_string()));
}

#[test]
fn load_file_without_active_file_reports() {
    let mut m = Montagne::new();
    let c = m.update(Message::LoadFile);
    assert_eq!(c, Command::Idle);
    assert_eq!(m.application_msg, "Error: No file path for active file.");
}

#[test]
fn link_clicked_opens_url() {
    let mut m = Montagne::new();
    let c = m.update(Message::LinkClicked("https://example.org/".to_string()));
    assert_eq!(c, Command::OpenLink("https://example.org/".to_string()));
}

#[test]
fn mode_labels() {
    assert_eq!(Mode::Write.label(), "Write");
    assert_eq!(Mode::Preview.label(), "Preview");
    assert_eq!(Mode::Split.label(), "Split");
}

#[test]
fn preview_shown_in_preview_and_split() {
    assert!(!Mode::Write.shows_preview());
    assert!(Mode::Preview.shows_preview());
    assert!(Mode::Split.shows_preview());
}
