//! The decisions behind the widget tree.
//!
//! The host draws the window; everything it has to decide while doing so —
//! which menu actions are enabled, which panes are laid out, what the status
//! bar names the file, which modal covers the window — is computed here from
//! the state, with the answer pinned down field by field.

use vstd::prelude::*;

use crate::editor::Montagne;
use crate::mode::Mode;
use crate::model::MontagneView;

verus! {

/// The header button that switches between writing and previewing.
#[derive(Clone, Copy, Debug, PartialEq, Eq, Structural)]
pub enum ModeSwitch {
    /// Offer switching to the preview (shown while writing).
    ToPreview,
    /// Offer switching back to writing (shown while previewing).
    ToWrite,
    /// No switch button (shown in split view, where the toggler rules).
    NoButton,
}

/// Which panes fill the main area.
#[derive(Clone, Copy, Debug, PartialEq, Eq, Structural)]
pub enum MainLayout {
    EditorOnly,
    PreviewOnly,
    EditorBesidePreview,
}

/// The modal stacked over the window, if any.
#[derive(Debug, PartialEq, Eq)]
pub enum Overlay {
    NoModal,
    /// Ask whether to save, discard or keep editing before closing.
    ExitModal,
    /// Ask whether to reload the named file or keep the unsaved changes.
    FileChangedModal(String),
}

/// Ghost image of [`Overlay`].
#[verifier::ext_equal]
pub enum OverlayView {
    NoModal,
    ExitModal,
    FileChangedModal(Seq<char>),
}

impl View for Overlay {
    type V = OverlayView;

    open spec fn view(&self) -> OverlayView {
        match self {
            Overlay::NoModal => OverlayView::NoModal,
            Overlay::ExitModal => OverlayView::ExitModal,
            Overlay::FileChangedModal(path) => OverlayView::FileChangedModal(path@),
        }
    }
}

/// The index of the last path separator in `p`, or `-1` when there is none.
pub open spec fn last_slash(p: Seq<char>) -> int
    decreases p.len(),
{
    if p.len() == 0 {
        -1
    } else if p[p.len() - 1] == '/' {
        p.len() - 1
    } else {
        last_slash(p.drop_last())
    }
}

/// The last separator's index always lies within the path (or is `-1`).
pub proof fn lemma_last_slash_bounds(p: Seq<char>)
    ensures
        -1 <= last_slash(p) < p.len(),
    decreases p.len(),
{
    if p.len() != 0 && p[p.len() - 1] != '/' {
        lemma_last_slash_bounds(p.drop_last());
    }
}

/// `p` without its trailing separators and final `.` components: the end of
/// the path is dropped, one character at a time, as long as it is a `/` or a
/// lone `.` standing as a whole component.  This mirrors how the standard
/// library reads a path when naming its file: `a/b/` and `a/b/.` both name
/// `b`.
pub open spec fn strip_trailing(p: Seq<char>) -> Seq<char>
    decreases p.len(),
{
    if p.len() == 0 {
        p
    } else if p.last() == '/' {
        strip_trailing(p.drop_last())
    } else if p.last() == '.' && (p.len() == 1 || p[p.len() - 2] == '/') {
        strip_trailing(p.drop_last())
    } else {
        p
    }
}

/// The file name a path points at: its last component, ignoring trailing
/// separators and final `.` components.
pub open spec fn file_name_of(p: Seq<char>) -> Seq<char> {
    let s = strip_trailing(p);
    s.subrange(last_slash(s) + 1, s.len() as int)
}

/// What the status bar calls the file at path `p`: its file name, or a
/// placeholder where the path names no file (nothing remains, or the last
/// component is `..`).
pub open spec fn display_name_of(p: Seq<char>) -> Seq<char> {
    if file_name_of(p).len() == 0 || file_name_of(p) == ".."@ {
        "Unnamed file"@
    } else {
        file_name_of(p)
    }
}

/// What the status bar calls the state's file: the active file's display
/// name, or a placeholder for a buffer never tied to a path.
pub open spec fn file_label_of(s: MontagneView) -> Seq<char> {
    match s.active_file {
        Some(p) => display_name_of(p),
        None => "New file"@,
    }
}

/// Which modal covers the window: the exit modal first, then the
/// file-changed modal — which needs an active file to name — then none.
pub open spec fn overlay_of(s: MontagneView) -> OverlayView {
    if s.is_show_exit_modal {
        OverlayView::ExitModal
    } else if s.is_show_file_changed_modal {
        match s.active_file {
            Some(p) => OverlayView::FileChangedModal(p),
            None => OverlayView::NoModal,
        }
    } else {
        OverlayView::NoModal
    }
}

/// The mode-switch button that goes with each mode.
pub open spec fn mode_switch_of(m: Mode) -> ModeSwitch {
    match m {
        Mode::Write => ModeSwitch::ToPreview,
        Mode::Preview => ModeSwitch::ToWrite,
        Mode::Split => ModeSwitch::NoButton,
    }
}

/// The pane layout that goes with each mode.
pub open spec fn layout_of(m: Mode) -> MainLayout {
    match m {
        Mode::Write => MainLayout::EditorOnly,
        Mode::Preview => MainLayout::PreviewOnly,
        Mode::Split => MainLayout::EditorBesidePreview,
    }
}

/// The display name of the file at `path`: the file name as the standard
/// library would read it (trailing separators and final `.` components
/// ignored), or "Unnamed file" where the path names no file.
pub fn file_display_name(path: &str) -> (r: String)
    ensures
        r@ == display_name_of(path@),
{
    let n = path.unicode_len();
    // Drop trailing separators and final `.` components.
    let mut j = n;
    let mut done = false;
    proof {
        assert(path@.take(n as int) =~= path@);
    }
    while j > 0 && !done
        invariant
            j <= n,
            n == path@.len(),
            strip_trailing(path@) == strip_trailing(path@.take(j as int)),
            done ==> strip_trailing(path@) == path@.take(j as int),
        decreases 2 * (j as int) + (if done { 0int } else { 1int }),
    {
        let c = path.get_char(j - 1);
        let dot_component = c == '.' && (j == 1 || path.get_char(j - 2) == '/');
        proof {
            assert(path@.take(j as int).drop_last() =~= path@.take(j as int - 1));
            assert(path@.take(j as int).last() == path@[j as int - 1]);
            if j >= 2 {
                assert(path@.take(j as int)[j as int - 2] == path@[j as int - 2]);
            }
        }
        if c == '/' || dot_component {
            j = j - 1;
        } else {
            done = true;
        }
    }
    proof {
        if j == 0 {
            assert(path@.take(0) =~= Seq::<char>::empty());
        }
        assert(strip_trailing(path@) == path@.take(j as int));
    }
    let trimmed = path.substring_char(0, j);
    // Find the component after the last separator that is left.
    let m = trimmed.unicode_len();
    let mut start: usize = 0;
    let mut i: usize = 0;
    proof {
        assert(trimmed@.take(0) =~= Seq::<char>::empty());
    }
    while i < m
        invariant
            i <= m,
            m == trimmed@.len(),
            start <= i,
            start == last_slash(trimmed@.take(i as int)) + 1,
        decreases m - i,
    {
        proof {
            lemma_last_slash_bounds(trimmed@.take(i as int + 1));
            assert(trimmed@.take(i as int + 1).drop_last() =~= trimmed@.take(i as int));
        }
        if trimmed.get_char(i) == '/' {
            start = i + 1;
        }
        i = i + 1;
    }
    proof {
        assert(trimmed@.take(m as int) =~= trimmed@);
        lemma_last_slash_bounds(trimmed@);
    }
    let name = trimmed.substring_char(start, m);
    let len = name.unicode_len();
    let is_dot_dot = len == 2 && name.get_char(0) == '.' && name.get_char(1) == '.';
    proof {
        reveal_strlit("..");
        if is_dot_dot {
            assert(name@ =~= ".."@);
        } else if name@ == ".."@ {
            assert(name@.len() == 2 && name@[0] == '.' && name@[1] == '.');
        }
    }
    if len == 0 || is_dot_dot {
        String::from_str("Unnamed file")
    } else {
        String::from_str(name)
    }
}

/// Everything the host decides while building the widget tree, computed from
/// the state in one place.
#[derive(Debug)]
pub struct ViewPlan {
    /// The open action is offered only while no transfer runs.
    pub open_enabled: bool,
    /// The save action is offered only while something is unsaved.
    pub save_enabled: bool,
    /// The header button that switches between writing and previewing.
    pub mode_switch: ModeSwitch,
    /// Whether the split toggler is shown as on.
    pub split_toggler_on: bool,
    /// Which panes fill the main area.
    pub layout: MainLayout,
    /// What the status bar calls the file.
    pub file_label: String,
    /// The modal covering the window, if any.
    pub overlay: Overlay,
}

impl Montagne {
    /// The decisions behind the widget tree for the current state.
    pub fn view_plan(&self) -> (v: ViewPlan)
        ensures
            v.open_enabled == !self.is_loading,
            v.save_enabled == self.is_dirty,
            v.mode_switch == mode_switch_of(self.application_mode),
            v.split_toggler_on == (self.application_mode is Split),
            v.layout == layout_of(self.application_mode),
            v.file_label@ == file_label_of(self@),
            v.overlay@ == overlay_of(self@),
    {
        let mode_switch = match self.application_mode {
            Mode::Write => ModeSwitch::ToPreview,
            Mode::Preview => ModeSwitch::ToWrite,
            Mode::Split => ModeSwitch::NoButton,
        };
        let layout = match self.application_mode {
            Mode::Write => MainLayout::EditorOnly,
            Mode::Preview => MainLayout::PreviewOnly,
            Mode::Split => MainLayout::EditorBesidePreview,
        };
        let split_toggler_on = match self.application_mode {
            Mode::Split => true,
            _ => false,
        };
        let file_label = match &self.active_file {
            Some(path) => file_display_name(path.as_str()),
            None => String::from_str("New file"),
        };
        let overlay = if self.is_show_exit_modal {
            Overlay::ExitModal
        } else if self.is_show_file_changed_modal {
            match &self.active_file {
                Some(path) => Overlay::FileChangedModal(path.clone()),
                None => Overlay::NoModal,
            }
        } else {
            Overlay::NoModal
        };
        ViewPlan {
            open_enabled: !self.is_loading,
            save_enabled: self.is_dirty,
            mode_switch,
            split_toggler_on,
            layout,
            file_label,
            overlay,
        }
    }
}

} // verus!
