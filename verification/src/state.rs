//! The state and history engine: the authoritative in-memory snapshot,
//! the selection cursor, the dirty flag, a bounded undo stack, and the
//! key-driven transitions between the interface modes.
//!
//! Every mutation is pure state logic; whatever needs the outside world —
//! the compositor socket, the filesystem, standard output — is named by
//! the returned [`KeyAction`] and performed by the caller, who reports
//! the outcome back through the `*_finished` operations.

use vstd::prelude::*;

use crate::monitor::{Monitor, MonitorV, Position, clone_monitors, spec_next_transform};

verus! {

/// An action awaiting confirmation.
#[derive(Debug)]
pub enum ConfirmAction {
    Quit,
    Apply,
    Save,
    Reset,
    DeleteProfile(String),
}

/// The mathematical value of a pending confirmation.
pub ghost enum ConfirmActionV {
    Quit,
    Apply,
    Save,
    Reset,
    DeleteProfile(Seq<char>),
}

impl View for ConfirmAction {
    type V = ConfirmActionV;

    open spec fn view(&self) -> ConfirmActionV {
        match self {
            ConfirmAction::Quit => ConfirmActionV::Quit,
            ConfirmAction::Apply => ConfirmActionV::Apply,
            ConfirmAction::Save => ConfirmActionV::Save,
            ConfirmAction::Reset => ConfirmActionV::Reset,
            ConfirmAction::DeleteProfile(s) => ConfirmActionV::DeleteProfile(s@),
        }
    }
}

/// The monitor attributes the editing mode can cycle through.
#[derive(Clone, Copy, Debug, PartialEq, Eq, Structural)]
pub enum EditField {
    Resolution,
    RefreshRate,
    Scale,
    Transform,
    Primary,
    Enabled,
}

/// The successor of an edit field in editing order.
pub open spec fn spec_next_field(f: EditField) -> EditField {
    match f {
        EditField::Resolution => EditField::RefreshRate,
        EditField::RefreshRate => EditField::Scale,
        EditField::Scale => EditField::Transform,
        EditField::Transform => EditField::Primary,
        EditField::Primary => EditField::Enabled,
        EditField::Enabled => EditField::Resolution,
    }
}

impl EditField {
    /// The next field in editing order, wrapping at the end.
    pub fn next(self) -> (r: Self)
        ensures
            r == spec_next_field(self),
    {
        match self {
            EditField::Resolution => EditField::RefreshRate,
            EditField::RefreshRate => EditField::Scale,
            EditField::Scale => EditField::Transform,
            EditField::Transform => EditField::Primary,
            EditField::Primary => EditField::Enabled,
            EditField::Enabled => EditField::Resolution,
        }
    }

    /// The previous field in editing order, wrapping at the start; the
    /// exact inverse of [`EditField::next`].
    pub fn prev(self) -> (r: Self)
        ensures
            spec_next_field(r) == self,
    {
        match self {
            EditField::Resolution => EditField::Enabled,
            EditField::RefreshRate => EditField::Resolution,
            EditField::Scale => EditField::RefreshRate,
            EditField::Transform => EditField::Scale,
            EditField::Primary => EditField::Transform,
            EditField::Enabled => EditField::Primary,
        }
    }
}

/// The interface mode: what the next key press means.
#[derive(Debug)]
pub enum AppMode {
    /// Normal navigation.
    Normal,
    /// Moving the selected monitor in the grid.
    Moving,
    /// Editing the selected monitor's attributes.
    Editing { field: EditField },
    /// The help overlay is shown.
    Help,
    /// A confirmation dialog is shown.
    Confirm { action: ConfirmAction, message: String },
    /// The profile list is shown.
    ProfileSelect,
}

/// The mathematical value of an interface mode.
pub ghost enum AppModeV {
    Normal,
    Moving,
    Editing { field: EditField },
    Help,
    Confirm { action: ConfirmActionV, message: Seq<char> },
    ProfileSelect,
}

impl View for AppMode {
    type V = AppModeV;

    open spec fn view(&self) -> AppModeV {
        match self {
            AppMode::Normal => AppModeV::Normal,
            AppMode::Moving => AppModeV::Moving,
            AppMode::Editing { field } => AppModeV::Editing { field: *field },
            AppMode::Help => AppModeV::Help,
            AppMode::Confirm { action, message } => AppModeV::Confirm {
                action: action@,
                message: message@,
            },
            AppMode::ProfileSelect => AppModeV::ProfileSelect,
        }
    }
}

/// One history entry: the snapshot and the selection as they stood before
/// a mutating operation.
pub struct AppStateSnapshot {
    pub monitors: Vec<Monitor>,
    pub selected_monitor: usize,
}

/// The mathematical value of a history entry.
#[verifier::ext_equal]
pub ghost struct AppStateSnapshotV {
    pub monitors: Seq<MonitorV>,
    pub selected_monitor: usize,
}

impl View for AppStateSnapshot {
    type V = AppStateSnapshotV;

    open spec fn view(&self) -> AppStateSnapshotV {
        AppStateSnapshotV {
            monitors: self.monitors.deep_view(),
            selected_monitor: self.selected_monitor,
        }
    }
}

impl DeepView for AppStateSnapshot {
    type V = AppStateSnapshotV;

    open spec fn deep_view(&self) -> AppStateSnapshotV {
        self.view()
    }
}

/// How many history entries are retained; pushing beyond this evicts the
/// oldest entry first.
pub const HISTORY_LIMIT: usize = 50;

/// The outside work a key press calls for; the engine itself never
/// touches the outside world.
#[derive(Clone, Copy, Debug, PartialEq, Eq, Structural)]
pub enum KeyAction {
    /// Nothing to do outside.
    Nothing,
    /// Leave the program.
    Quit,
    /// Apply the snapshot to the compositor, then report through
    /// [`App::apply_finished`].
    ApplyAll,
    /// Apply the snapshot to the compositor, ignoring the outcome:
    /// a confirmed apply clears the dirty flag either way.
    ApplyAllQuiet,
    /// Save the snapshot as the default profile, then report through
    /// [`App::save_finished`].
    SaveProfile,
    /// Write the generated configuration to standard output, then report
    /// through [`App::export_finished`].
    ExportConfig,
    /// Fetch the live monitor list, then report through
    /// [`App::reset_finished`].
    FetchReset,
}

/// A key press, as the engine sees it.
#[derive(Clone, Copy, Debug, PartialEq, Eq, Structural)]
pub enum Key {
    Up,
    Down,
    Tab,
    BackTab,
    Enter,
    Esc,
    Char(char),
}

/// The whole engine state.
pub struct App {
    /// All detected monitors.
    pub monitors: Vec<Monitor>,
    /// Index of the currently selected monitor.
    pub selected_monitor: usize,
    /// Current interface mode.
    pub mode: AppMode,
    /// Whether focus is on the settings panel rather than the grid.
    pub focus_settings: bool,
    /// Whether there are unsaved changes.
    pub unsaved_changes: bool,
    /// Path of the configuration file.
    pub config_path: String,
    /// Undo history, oldest first.
    pub history: Vec<AppStateSnapshot>,
    /// Names of the available profiles.
    pub profiles: Vec<String>,
    /// Status message, if one is shown.
    pub status_message: Option<String>,
    /// Error message, if one is shown.
    pub error_message: Option<String>,
}

/// The mathematical value of the engine state.
#[verifier::ext_equal]
pub ghost struct AppV {
    pub monitors: Seq<MonitorV>,
    pub selected_monitor: usize,
    pub mode: AppModeV,
    pub focus_settings: bool,
    pub unsaved_changes: bool,
    pub config_path: Seq<char>,
    pub history: Seq<AppStateSnapshotV>,
    pub profiles: Seq<Seq<char>>,
    pub status_message: Option<Seq<char>>,
    pub error_message: Option<Seq<char>>,
}

impl View for App {
    type V = AppV;

    open spec fn view(&self) -> AppV {
        AppV {
            monitors: self.monitors.deep_view(),
            selected_monitor: self.selected_monitor,
            mode: self.mode@,
            focus_settings: self.focus_settings,
            unsaved_changes: self.unsaved_changes,
            config_path: self.config_path@,
            history: self.history.deep_view(),
            profiles: self.profiles.deep_view(),
            status_message: match self.status_message {
                Option::Some(s) => Option::Some(s@),
                Option::None => Option::None,
            },
            error_message: match self.error_message {
                Option::Some(s) => Option::Some(s@),
                Option::None => Option::None,
            },
        }
    }
}

/// The history entry that captures a state: its snapshot and selection.
pub open spec fn spec_snapshot_of(a: AppV) -> AppStateSnapshotV {
    AppStateSnapshotV { monitors: a.monitors, selected_monitor: a.selected_monitor }
}

/// The state after a history push: the capture appended, and the oldest
/// entries evicted until at most the limit is retained.
pub open spec fn spec_push_history(a: AppV) -> AppV {
    let pushed = a.history.push(spec_snapshot_of(a));
    AppV {
        history: if pushed.len() > HISTORY_LIMIT {
            pushed.skip(pushed.len() - HISTORY_LIMIT)
        } else {
            pushed
        },
        ..a
    }
}

/// The selection clamped into the bounds of a snapshot of length `len`.
pub open spec fn spec_clamped(sel: usize, len: nat) -> usize {
    if len == 0 {
        0
    } else if sel <= len - 1 {
        sel
    } else {
        (len - 1) as usize
    }
}

/// The state after an undo: on an empty history the state itself; else
/// the latest entry restored, its selection clamped into bounds, and the
/// state marked dirty.
pub open spec fn spec_undo(a: AppV) -> AppV {
    if a.history.len() == 0 {
        a
    } else {
        let snap = a.history.last();
        AppV {
            monitors: snap.monitors,
            selected_monitor: spec_clamped(snap.selected_monitor, snap.monitors.len()),
            unsaved_changes: true,
            history: a.history.drop_last(),
            ..a
        }
    }
}

impl App {
    /// A fresh engine over a detected snapshot: nothing selected yet but
    /// the first monitor, normal mode, no history, and no messages.
    pub fn new(monitors: Vec<Monitor>, config_path: String, profiles: Vec<String>) -> (r: App)
        ensures
            r@.monitors == monitors.deep_view(),
            r@.selected_monitor == 0,
            r@.mode == AppModeV::Normal,
            r@.focus_settings == false,
            r@.unsaved_changes == false,
            r@.config_path == config_path@,
            r@.history == Seq::<AppStateSnapshotV>::empty(),
            r@.profiles == profiles.deep_view(),
            r@.status_message is None,
            r@.error_message is None,
    {
        let r = App {
            monitors,
            selected_monitor: 0,
            mode: AppMode::Normal,
            focus_settings: false,
            unsaved_changes: false,
            config_path,
            history: Vec::new(),
            profiles,
            status_message: None,
            error_message: None,
        };
        proof {
            assert(r@.history =~= Seq::<AppStateSnapshotV>::empty());
        }
        r
    }

    /// The selected monitor, when the selection is in bounds.
    pub fn selected(&self) -> (r: Option<&Monitor>)
        ensures
            self.selected_monitor < self@.monitors.len() ==> (r matches Some(m) && m@
                == self@.monitors[self.selected_monitor as int]),
            self.selected_monitor >= self@.monitors.len() ==> r is None,
    {
        if self.selected_monitor < self.monitors.len() {
            Some(&self.monitors[self.selected_monitor])
        } else {
            None
        }
    }

    /// Pushes the current snapshot and selection onto the history, and
    /// evicts the oldest entries until at most the limit is retained —
    /// whatever state the history was in, at most the limit remains.
    #[verifier::loop_isolation(false)]
    pub fn push_history(&mut self)
        ensures
            final(self)@ == spec_push_history(old(self)@),
            final(self)@.history.len() <= HISTORY_LIMIT,
    {
        let snap = AppStateSnapshot {
            monitors: clone_monitors(&self.monitors),
            selected_monitor: self.selected_monitor,
        };
        self.history.push(snap);
        let ghost pushed = old(self).history.deep_view().push(spec_snapshot_of(old(self)@));
        proof {
            assert(self.history.deep_view() =~= pushed);
        }
        proof {
            assert(pushed.skip(0) =~= pushed);
        }
        while self.history.len() > HISTORY_LIMIT
            invariant
                self.history.deep_view() == pushed.skip(
                    pushed.len() - self.history.deep_view().len(),
                ),
                self.history@.len() >= HISTORY_LIMIT || self.history@.len() == pushed.len(),
                1 <= self.history@.len() <= pushed.len(),
                self.monitors@ == old(self).monitors@,
                self.selected_monitor == old(self).selected_monitor,
                self.mode@ == old(self).mode@,
                self.focus_settings == old(self).focus_settings,
                self.unsaved_changes == old(self).unsaved_changes,
                self.config_path@ == old(self).config_path@,
                self.profiles@ == old(self).profiles@,
                self.status_message == old(self).status_message,
                self.error_message == old(self).error_message,
            decreases self.history@.len(),
        {
            let ghost pre = self.history@;
            let ghost pred = self.history.deep_view();
            self.history.remove(0);
            proof {
                assert(self.history@ =~= pre.skip(1));
                assert forall|j: int|
                    0 <= j < self.history.deep_view().len() implies #[trigger] self.history.deep_view()[j]
                    == pred[j + 1] by {
                    assert(self.history@[j] == pre[j + 1]);
                }
                assert(self.history.deep_view() =~= pred.skip(1));
                assert(pushed.skip(pushed.len() - pred.len()).skip(1) =~= pushed.skip(
                    pushed.len() - pred.len() + 1,
                ));
            }
        }
        proof {
            if pushed.len() <= HISTORY_LIMIT {
                assert(self.history@.len() == pushed.len());
                assert(self.history.deep_view() =~= pushed);
            }
            assert(final(self)@ =~= spec_push_history(old(self)@));
        }
    }

    /// Undoes the most recent history entry, if any: the snapshot and
    /// selection are restored (the selection clamped into bounds), the
    /// state is marked dirty, and true is reported. On an empty history
    /// nothing changes and false is reported — never an error.
    pub fn undo(&mut self) -> (r: bool)
        ensures
            r == (old(self)@.history.len() > 0),
            final(self)@ == spec_undo(old(self)@),
    {
        match self.history.pop() {
            Some(snap) => {
                self.monitors = snap.monitors;
                let len = self.monitors.len();
                let cap: usize = if len == 0 {
                    0
                } else {
                    len - 1
                };
                self.selected_monitor = if snap.selected_monitor <= cap {
                    snap.selected_monitor
                } else {
                    cap
                };
                self.unsaved_changes = true;
                proof {
                    assert(final(self)@ =~= (AppV {
                        monitors: old(self)@.history.last().monitors,
                        selected_monitor: spec_clamped(
                            old(self)@.history.last().selected_monitor,
                            old(self)@.history.last().monitors.len(),
                        ),
                        unsaved_changes: true,
                        history: old(self)@.history.drop_last(),
                        ..old(self)@
                    }));
                }
                true
            },
            None => {
                proof {
                    assert(final(self)@ =~= old(self)@);
                }
                false
            },
        }
    }

    /// Shows a status message.
    pub fn set_status(&mut self, msg: String)
        ensures
            final(self)@ == (AppV { status_message: Some(msg@), ..old(self)@ }),
    {
        self.status_message = Some(msg);
        proof {
            assert(final(self)@ =~= (AppV { status_message: Some(msg@), ..old(self)@ }));
        }
    }

    /// Shows an error message.
    pub fn set_error(&mut self, msg: String)
        ensures
            final(self)@ == (AppV { error_message: Some(msg@), ..old(self)@ }),
    {
        self.error_message = Some(msg);
        proof {
            assert(final(self)@ =~= (AppV { error_message: Some(msg@), ..old(self)@ }));
        }
    }

    /// Clears both messages.
    pub fn clear_messages(&mut self)
        ensures
            final(self)@ == (AppV {
                status_message: None,
                error_message: None,
                ..old(self)@
            }),
    {
        self.status_message = None;
        self.error_message = None;
        proof {
            assert(final(self)@ =~= (AppV {
                status_message: None,
                error_message: None,
                ..old(self)@
            }));
        }
    }
}

/// The state after moving the selection up: one step back, saturating at
/// zero, then clamped below the snapshot length when out of bounds.
pub open spec fn spec_select_prev(a: AppV) -> AppV {
    let s1: int = if a.selected_monitor >= 1 {
        a.selected_monitor - 1
    } else {
        0
    };
    let s2: int = if a.monitors.len() > 0 && s1 >= a.monitors.len() {
        a.monitors.len() - 1
    } else {
        s1
    };
    AppV { selected_monitor: s2 as usize, ..a }
}

/// The state after moving the selection down: one step forward, stopping
/// at the last monitor.
pub open spec fn spec_select_next(a: AppV) -> AppV {
    if a.selected_monitor + 1 < a.monitors.len() {
        AppV { selected_monitor: (a.selected_monitor + 1) as usize, ..a }
    } else {
        a
    }
}

/// The state after making the selected monitor the one primary output:
/// primary set on it and cleared on every other, and the state dirty.
/// Nothing changes when the selection is out of bounds.
pub open spec fn spec_set_primary(a: AppV) -> AppV {
    if a.selected_monitor < a.monitors.len() {
        AppV {
            monitors: Seq::new(
                a.monitors.len(),
                |i: int| MonitorV { primary: i == a.selected_monitor, ..a.monitors[i] },
            ),
            unsaved_changes: true,
            ..a
        }
    } else {
        a
    }
}

/// The state after toggling the selected monitor's enabled flag.
pub open spec fn spec_toggle_enabled(a: AppV) -> AppV {
    if a.selected_monitor < a.monitors.len() {
        let i = a.selected_monitor as int;
        AppV {
            monitors: a.monitors.update(
                i,
                MonitorV { enabled: !a.monitors[i].enabled, ..a.monitors[i] },
            ),
            unsaved_changes: true,
            ..a
        }
    } else {
        a
    }
}

/// The state after cycling the selected monitor's transform.
pub open spec fn spec_cycle_transform(a: AppV) -> AppV {
    if a.selected_monitor < a.monitors.len() {
        let i = a.selected_monitor as int;
        AppV {
            monitors: a.monitors.update(
                i,
                MonitorV { transform: spec_next_transform(a.monitors[i].transform), ..a.monitors[i] },
            ),
            unsaved_changes: true,
            ..a
        }
    } else {
        a
    }
}

/// The state with another interface mode.
pub open spec fn spec_with_mode(a: AppV, m: AppModeV) -> AppV {
    AppV { mode: m, ..a }
}

/// An offset coordinate, saturating at the ends of the coordinate space.
pub open spec fn spec_offset_coord(x: i32, d: i32) -> i32 {
    if x + d > i32::MAX {
        i32::MAX
    } else if x + d < i32::MIN {
        i32::MIN
    } else {
        (x + d) as i32
    }
}

/// The state after moving the selected monitor by an offset in the
/// virtual pixel space, saturating at the ends, with the state dirty.
pub open spec fn spec_move_selected(a: AppV, dx: i32, dy: i32) -> AppV {
    if a.selected_monitor < a.monitors.len() {
        let i = a.selected_monitor as int;
        let m = a.monitors[i];
        AppV {
            monitors: a.monitors.update(
                i,
                MonitorV {
                    position: Position {
                        x: spec_offset_coord(m.position.x, dx),
                        y: spec_offset_coord(m.position.y, dy),
                    },
                    ..m
                },
            ),
            unsaved_changes: true,
            ..a
        }
    } else {
        a
    }
}

/// The lowest scale the editor may set, in hundredths.
pub const SCALE_MIN: u32 = 50;

/// The highest scale the editor may set, in hundredths.
pub const SCALE_MAX: u32 = 300;

/// A scale stepped by a signed amount of hundredths and clamped into the
/// editable range.
pub open spec fn spec_stepped_scale(scale: u32, delta: int) -> u32 {
    if scale + delta < SCALE_MIN {
        SCALE_MIN
    } else if scale + delta > SCALE_MAX {
        SCALE_MAX
    } else {
        (scale + delta) as u32
    }
}

/// The state after stepping the selected monitor's scale, clamped into
/// the editable range, with the state dirty.
pub open spec fn spec_adjust_scale(a: AppV, delta: int) -> AppV {
    if a.selected_monitor < a.monitors.len() {
        let i = a.selected_monitor as int;
        AppV {
            monitors: a.monitors.update(
                i,
                MonitorV { scale: spec_stepped_scale(a.monitors[i].scale, delta), ..a.monitors[i] },
            ),
            unsaved_changes: true,
            ..a
        }
    } else {
        a
    }
}

/// The transition of a key press in the navigation modes (normal, moving,
/// editing): the new state and the outside work it calls for.
pub open spec fn spec_dispatch(a: AppV, key: Key, ctrl: bool) -> (AppV, KeyAction) {
    if key == Key::Char('q') && !ctrl {
        if a.unsaved_changes {
            (
                spec_with_mode(
                    a,
                    AppModeV::Confirm {
                        action: ConfirmActionV::Quit,
                        message: "Unsaved changes. Quit anyway?"@,
                    },
                ),
                KeyAction::Nothing,
            )
        } else {
            (a, KeyAction::Quit)
        }
    } else if key == Key::Up || key == Key::Char('k') {
        (spec_select_prev(a), KeyAction::Nothing)
    } else if key == Key::Down || key == Key::Char('j') {
        (spec_select_next(a), KeyAction::Nothing)
    } else if key == Key::Tab || key == Key::BackTab {
        (AppV { focus_settings: !a.focus_settings, ..a }, KeyAction::Nothing)
    } else if key == Key::Enter || key == Key::Char('e') {
        (
            spec_with_mode(a, AppModeV::Editing { field: EditField::Resolution }),
            KeyAction::Nothing,
        )
    } else if key == Key::Char('m') {
        (spec_with_mode(a, AppModeV::Moving), KeyAction::Nothing)
    } else if key == Key::Char(' ') {
        (spec_set_primary(a), KeyAction::Nothing)
    } else if key == Key::Char('d') {
        (spec_toggle_enabled(a), KeyAction::Nothing)
    } else if key == Key::Char('r') {
        (spec_cycle_transform(a), KeyAction::Nothing)
    } else if key == Key::Char('a') {
        (spec_push_history(a), KeyAction::ApplyAll)
    } else if key == Key::Char('s') {
        (a, KeyAction::SaveProfile)
    } else if key == Key::Char('x') {
        (a, KeyAction::ExportConfig)
    } else if key == Key::Char('p') {
        (spec_with_mode(a, AppModeV::ProfileSelect), KeyAction::Nothing)
    } else if key == Key::Char('u') {
        (spec_undo(a), KeyAction::Nothing)
    } else if key == Key::Char('R') {
        (
            spec_with_mode(
                a,
                AppModeV::Confirm {
                    action: ConfirmActionV::Reset,
                    message: "Reset to current Hyprland config?"@,
                },
            ),
            KeyAction::Nothing,
        )
    } else if key == Key::Char('?') {
        (spec_with_mode(a, AppModeV::Help), KeyAction::Nothing)
    } else {
        (a, KeyAction::Nothing)
    }
}

/// The transition of a 'yes' in a confirmation dialog: what the confirmed
/// action does and the outside work it calls for; the dialog closes.
pub open spec fn spec_confirm_yes(a: AppV, action: ConfirmActionV) -> (AppV, KeyAction) {
    match action {
        ConfirmActionV::Quit => (spec_with_mode(a, AppModeV::Normal), KeyAction::Quit),
        ConfirmActionV::Apply => (
            AppV { unsaved_changes: false, mode: AppModeV::Normal, ..a },
            KeyAction::ApplyAllQuiet,
        ),
        ConfirmActionV::Save => (spec_with_mode(a, AppModeV::Normal), KeyAction::Nothing),
        ConfirmActionV::Reset => (spec_with_mode(a, AppModeV::Normal), KeyAction::FetchReset),
        ConfirmActionV::DeleteProfile(_) => (
            spec_with_mode(a, AppModeV::Normal),
            KeyAction::Nothing,
        ),
    }
}

/// The transition of any key press: the overlay modes consume their keys
/// first, everything else falls through to the navigation dispatch.
pub open spec fn spec_handle_key(a: AppV, key: Key, ctrl: bool) -> (AppV, KeyAction) {
    match a.mode {
        AppModeV::Confirm { action, message } => {
            if key == Key::Char('y') || key == Key::Char('Y') {
                spec_confirm_yes(a, action)
            } else if key == Key::Char('n') || key == Key::Char('N') || key == Key::Esc {
                (spec_with_mode(a, AppModeV::Normal), KeyAction::Nothing)
            } else {
                (a, KeyAction::Nothing)
            }
        },
        AppModeV::Help => {
            if key == Key::Char('?') || key == Key::Esc {
                (spec_with_mode(a, AppModeV::Normal), KeyAction::Nothing)
            } else {
                (a, KeyAction::Nothing)
            }
        },
        AppModeV::ProfileSelect => {
            if key == Key::Esc {
                (spec_with_mode(a, AppModeV::Normal), KeyAction::Nothing)
            } else {
                (a, KeyAction::Nothing)
            }
        },
        _ => spec_dispatch(a, key, ctrl),
    }
}

/// Offsets a coordinate, saturating at the ends of the coordinate space.
fn offset_coord(x: i32, d: i32) -> (r: i32)
    ensures
        r == spec_offset_coord(x, d),
{
    let sum: i64 = x as i64 + d as i64;
    if sum > i32::MAX as i64 {
        i32::MAX
    } else if sum < i32::MIN as i64 {
        i32::MIN
    } else {
        sum as i32
    }
}

impl App {
    /// Moves the selection one monitor up.
    pub fn select_prev(&mut self)
        ensures
            final(self)@ == spec_select_prev(old(self)@),
    {
        if self.selected_monitor >= 1 {
            self.selected_monitor = self.selected_monitor - 1;
        }
        if self.monitors.len() > 0 && self.selected_monitor >= self.monitors.len() {
            self.selected_monitor = self.monitors.len() - 1;
        }
        proof {
            assert(final(self)@ =~= spec_select_prev(old(self)@));
        }
    }

    /// Moves the selection one monitor down.
    pub fn select_next(&mut self)
        ensures
            final(self)@ == spec_select_next(old(self)@),
    {
        if self.monitors.len() > 0 && self.selected_monitor < self.monitors.len() - 1 {
            self.selected_monitor = self.selected_monitor + 1;
        }
        proof {
            assert(final(self)@ =~= spec_select_next(old(self)@));
        }
    }

    /// Makes the selected monitor the one primary output: sets primary on
    /// it and clears it on every other monitor first.
    pub fn set_primary_exclusive(&mut self)
        ensures
            final(self)@ == spec_set_primary(old(self)@),
    {
        let len = self.monitors.len();
        let sel = self.selected_monitor;
        if sel < len {
            let mut i: usize = 0;
            while i < len
                invariant
                    0 <= i <= len,
                    len == self.monitors@.len(),
                    len == old(self).monitors@.len(),
                    sel == self.selected_monitor < len,
                    self.selected_monitor == old(self).selected_monitor,
                    self.mode@ == old(self).mode@,
                    self.focus_settings == old(self).focus_settings,
                    self.unsaved_changes == old(self).unsaved_changes,
                    self.config_path@ == old(self).config_path@,
                    self.history.deep_view() == old(self).history.deep_view(),
                    self.profiles.deep_view() == old(self).profiles.deep_view(),
                    self.status_message == old(self).status_message,
                    self.error_message == old(self).error_message,
                    forall|j: int|
                        0 <= j < i ==> #[trigger] self.monitors@[j]@ == (MonitorV {
                            primary: j == sel,
                            ..old(self).monitors@[j]@
                        }),
                    forall|j: int|
                        i <= j < len ==> #[trigger] self.monitors@[j] == old(self).monitors@[j],
                decreases len - i,
            {
                let ghost prev = self.monitors@;
                self.monitors[i].primary = i == sel;
                proof {
                    assert(self.monitors@[i as int]@ =~= (MonitorV {
                        primary: i == sel,
                        ..prev[i as int]@
                    }));
                }
                i = i + 1;
            }
            self.unsaved_changes = true;
            proof {
                assert(final(self)@.monitors =~= spec_set_primary(old(self)@).monitors);
                assert(final(self)@ =~= spec_set_primary(old(self)@));
            }
        } else {
            proof {
                assert(final(self)@ =~= spec_set_primary(old(self)@));
            }
        }
    }

    /// Toggles the selected monitor's enabled flag.
    pub fn toggle_enabled(&mut self)
        ensures
            final(self)@ == spec_toggle_enabled(old(self)@),
    {
        if self.selected_monitor < self.monitors.len() {
            let i = self.selected_monitor;
            let e = self.monitors[i].enabled;
            self.monitors[i].enabled = !e;
            self.unsaved_changes = true;
            proof {
                assert(final(self)@.monitors =~= spec_toggle_enabled(old(self)@).monitors);
                assert(final(self)@ =~= spec_toggle_enabled(old(self)@));
            }
        } else {
            proof {
                assert(final(self)@ =~= spec_toggle_enabled(old(self)@));
            }
        }
    }

    /// Cycles the selected monitor's transform to the next in the cycle.
    pub fn cycle_transform(&mut self)
        ensures
            final(self)@ == spec_cycle_transform(old(self)@),
    {
        if self.selected_monitor < self.monitors.len() {
            let i = self.selected_monitor;
            let t = self.monitors[i].transform;
            self.monitors[i].transform = t.next();
            self.unsaved_changes = true;
            proof {
                assert(final(self)@.monitors =~= spec_cycle_transform(old(self)@).monitors);
                assert(final(self)@ =~= spec_cycle_transform(old(self)@));
            }
        } else {
            proof {
                assert(final(self)@ =~= spec_cycle_transform(old(self)@));
            }
        }
    }

    /// Moves the selected monitor by an offset in the virtual pixel
    /// space, saturating at the ends of the coordinate space.
    pub fn move_selected(&mut self, dx: i32, dy: i32)
        ensures
            final(self)@ == spec_move_selected(old(self)@, dx, dy),
    {
        if self.selected_monitor < self.monitors.len() {
            let i = self.selected_monitor;
            let x = offset_coord(self.monitors[i].position.x, dx);
            let y = offset_coord(self.monitors[i].position.y, dy);
            self.monitors[i].position = Position { x, y };
            self.unsaved_changes = true;
            proof {
                assert(final(self)@.monitors =~= spec_move_selected(old(self)@, dx, dy).monitors);
                assert(final(self)@ =~= spec_move_selected(old(self)@, dx, dy));
            }
        } else {
            proof {
                assert(final(self)@ =~= spec_move_selected(old(self)@, dx, dy));
            }
        }
    }

    /// Steps the selected monitor's scale by a signed amount of
    /// hundredths, clamped into the editable range.
    pub fn adjust_scale(&mut self, delta: i32)
        ensures
            final(self)@ == spec_adjust_scale(old(self)@, delta as int),
    {
        if self.selected_monitor < self.monitors.len() {
            let i = self.selected_monitor;
            let s = self.monitors[i].scale;
            let stepped: i64 = s as i64 + delta as i64;
            let clamped: u32 = if stepped < SCALE_MIN as i64 {
                SCALE_MIN
            } else if stepped > SCALE_MAX as i64 {
                SCALE_MAX
            } else {
                stepped as u32
            };
            self.monitors[i].scale = clamped;
            self.unsaved_changes = true;
            proof {
                assert(final(self)@.monitors =~= spec_adjust_scale(
                    old(self)@,
                    delta as int,
                ).monitors);
                assert(final(self)@ =~= spec_adjust_scale(old(self)@, delta as int));
            }
        } else {
            proof {
                assert(final(self)@ =~= spec_adjust_scale(old(self)@, delta as int));
            }
        }
    }

    /// Handles one key press: consumes it according to the current mode,
    /// mutates the state exactly as [`spec_handle_key`] says, and names
    /// the outside work the press calls for.
    pub fn handle_key(&mut self, key: Key, ctrl: bool) -> (r: KeyAction)
        ensures
            final(self)@ == spec_handle_key(old(self)@, key, ctrl).0,
            r == spec_handle_key(old(self)@, key, ctrl).1,
    {
        let in_overlay: bool = match &self.mode {
            AppMode::Confirm { .. } => true,
            AppMode::Help => true,
            AppMode::ProfileSelect => true,
            _ => false,
        };
        if in_overlay {
            return self.handle_overlay_key(key);
        }
        if matches!(key, Key::Char('q')) && !ctrl {
            if self.unsaved_changes {
                self.mode = AppMode::Confirm {
                    action: ConfirmAction::Quit,
                    message: String::from_str("Unsaved changes. Quit anyway?"),
                };
                proof {
                    assert(final(self)@ =~= spec_handle_key(old(self)@, key, ctrl).0);
                }
                return KeyAction::Nothing;
            } else {
                return KeyAction::Quit;
            }
        }
        match key {
            Key::Up => {
                self.select_prev();
                KeyAction::Nothing
            },
            Key::Char('k') => {
                self.select_prev();
                KeyAction::Nothing
            },
            Key::Down => {
                self.select_next();
                KeyAction::Nothing
            },
            Key::Char('j') => {
                self.select_next();
                KeyAction::Nothing
            },
            Key::Tab | Key::BackTab => {
                self.focus_settings = !self.focus_settings;
                proof {
                    assert(final(self)@ =~= spec_handle_key(old(self)@, key, ctrl).0);
                }
                KeyAction::Nothing
            },
            Key::Enter | Key::Char('e') => {
                self.mode = AppMode::Editing { field: EditField::Resolution };
                proof {
                    assert(final(self)@ =~= spec_handle_key(old(self)@, key, ctrl).0);
                }
                KeyAction::Nothing
            },
            Key::Char('m') => {
                self.mode = AppMode::Moving;
                proof {
                    assert(final(self)@ =~= spec_handle_key(old(self)@, key, ctrl).0);
                }
                KeyAction::Nothing
            },
            Key::Char(' ') => {
                self.set_primary_exclusive();
                KeyAction::Nothing
            },
            Key::Char('d') => {
                self.toggle_enabled();
                KeyAction::Nothing
            },
            Key::Char('r') => {
                self.cycle_transform();
                KeyAction::Nothing
            },
            Key::Char('a') => {
                self.push_history();
                KeyAction::ApplyAll
            },
            Key::Char('s') => KeyAction::SaveProfile,
            Key::Char('x') => KeyAction::ExportConfig,
            Key::Char('p') => {
                self.mode = AppMode::ProfileSelect;
                proof {
                    assert(final(self)@ =~= spec_handle_key(old(self)@, key, ctrl).0);
                }
                KeyAction::Nothing
            },
            Key::Char('u') => {
                self.undo();
                KeyAction::Nothing
            },
            Key::Char('R') => {
                self.mode = AppMode::Confirm {
                    action: ConfirmAction::Reset,
                    message: String::from_str("Reset to current Hyprland config?"),
                };
                proof {
                    assert(final(self)@ =~= spec_handle_key(old(self)@, key, ctrl).0);
                }
                KeyAction::Nothing
            },
            Key::Char('?') => {
                self.mode = AppMode::Help;
                proof {
                    assert(final(self)@ =~= spec_handle_key(old(self)@, key, ctrl).0);
                }
                KeyAction::Nothing
            },
            _ => KeyAction::Nothing,
        }
    }

    /// Handles a key press while an overlay mode (confirmation, help, or
    /// profile selection) is consuming the keys.
    fn handle_overlay_key(&mut self, key: Key) -> (r: KeyAction)
        requires
            old(self)@.mode matches AppModeV::Confirm { .. } || old(self)@.mode is Help || old(
                self,
            )@.mode is ProfileSelect,
        ensures
            final(self)@ == spec_handle_key(old(self)@, key, false).0,
            r == spec_handle_key(old(self)@, key, false).1,
            forall|c: bool|
                #[trigger] spec_handle_key(old(self)@, key, c) == spec_handle_key(
                    old(self)@,
                    key,
                    false,
                ),
    {
        match &self.mode {
            AppMode::Confirm { action, .. } => {
                if matches!(key, Key::Char('y')) || matches!(key, Key::Char('Y')) {
                    let act: KeyAction = match action {
                        ConfirmAction::Quit => KeyAction::Quit,
                        ConfirmAction::Apply => KeyAction::ApplyAllQuiet,
                        ConfirmAction::Save => KeyAction::Nothing,
                        ConfirmAction::Reset => KeyAction::FetchReset,
                        ConfirmAction::DeleteProfile(_) => KeyAction::Nothing,
                    };
                    if matches!(act, KeyAction::ApplyAllQuiet) {
                        self.unsaved_changes = false;
                    }
                    self.mode = AppMode::Normal;
                    proof {
                        assert(final(self)@ =~= spec_handle_key(old(self)@, key, false).0);
                    }
                    act
                } else if matches!(key, Key::Char('n')) || matches!(key, Key::Char('N'))
                    || matches!(key, Key::Esc) {
                    self.mode = AppMode::Normal;
                    proof {
                        assert(final(self)@ =~= spec_handle_key(old(self)@, key, false).0);
                    }
                    KeyAction::Nothing
                } else {
                    KeyAction::Nothing
                }
            },
            AppMode::Help => {
                if matches!(key, Key::Char('?')) || matches!(key, Key::Esc) {
                    self.mode = AppMode::Normal;
                    proof {
                        assert(final(self)@ =~= spec_handle_key(old(self)@, key, false).0);
                    }
                }
                KeyAction::Nothing
            },
            _ => {
                if matches!(key, Key::Esc) {
                    self.mode = AppMode::Normal;
                    proof {
                        assert(final(self)@ =~= spec_handle_key(old(self)@, key, false).0);
                    }
                }
                KeyAction::Nothing
            },
        }
    }

    /// Notes the outcome of an apply pass: success shows the applied
    /// status and clears the dirty flag; failure shows the error.
    pub fn apply_finished(&mut self, error: Option<String>)
        ensures
            error is None ==> final(self)@ == (AppV {
                status_message: Some("Applied."@),
                unsaved_changes: false,
                ..old(self)@
            }),
            error matches Some(e) ==> final(self)@ == (AppV {
                error_message: Some(e@),
                ..old(self)@
            }),
    {
        match error {
            None => {
                self.status_message = Some(String::from_str("Applied."));
                self.unsaved_changes = false;
                proof {
                    assert(final(self)@ =~= (AppV {
                        status_message: Some("Applied."@),
                        unsaved_changes: false,
                        ..old(self)@
                    }));
                }
            },
            Some(e) => {
                self.error_message = Some(e);
                proof {
                    assert(final(self)@ =~= (AppV { error_message: Some(e@), ..old(self)@ }));
                }
            },
        }
    }

    /// Notes the outcome of saving the default profile: success shows the
    /// saved status and clears the dirty flag; failure shows the error.
    pub fn save_finished(&mut self, error: Option<String>)
        ensures
            error is None ==> final(self)@ == (AppV {
                status_message: Some("Saved to default profile."@),
                unsaved_changes: false,
                ..old(self)@
            }),
            error matches Some(e) ==> final(self)@ == (AppV {
                error_message: Some(e@),
                ..old(self)@
            }),
    {
        match error {
            None => {
                self.status_message = Some(String::from_str("Saved to default profile."));
                self.unsaved_changes = false;
                proof {
                    assert(final(self)@ =~= (AppV {
                        status_message: Some("Saved to default profile."@),
                        unsaved_changes: false,
                        ..old(self)@
                    }));
                }
            },
            Some(e) => {
                self.error_message = Some(e);
                proof {
                    assert(final(self)@ =~= (AppV { error_message: Some(e@), ..old(self)@ }));
                }
            },
        }
    }

    /// Notes the outcome of exporting the generated configuration:
    /// success shows the exported status; failure shows the error. The
    /// dirty flag is untouched either way.
    pub fn export_finished(&mut self, error: Option<String>)
        ensures
            error is None ==> final(self)@ == (AppV {
                status_message: Some("Exported to stdout."@),
                ..old(self)@
            }),
            error matches Some(e) ==> final(self)@ == (AppV {
                error_message: Some(e@),
                ..old(self)@
            }),
    {
        match error {
            None => {
                self.status_message = Some(String::from_str("Exported to stdout."));
                proof {
                    assert(final(self)@ =~= (AppV {
                        status_message: Some("Exported to stdout."@),
                        ..old(self)@
                    }));
                }
            },
            Some(e) => {
                self.error_message = Some(e);
                proof {
                    assert(final(self)@ =~= (AppV { error_message: Some(e@), ..old(self)@ }));
                }
            },
        }
    }

    /// Notes the outcome of a confirmed reset: a fetched snapshot is
    /// installed after the old one is pushed to history, the selection is
    /// clamped into its bounds, and the state is clean again; a failed
    /// fetch changes nothing.
    pub fn reset_finished(&mut self, monitors: Option<Vec<Monitor>>)
        ensures
            monitors matches Some(ms) ==> final(self)@ == {
                let pushed = spec_push_history(old(self)@);
                AppV {
                    monitors: ms.deep_view(),
                    selected_monitor: spec_clamped(pushed.selected_monitor, ms.deep_view().len()),
                    unsaved_changes: false,
                    ..pushed
                }
            },
            monitors is None ==> final(self)@ == old(self)@,
    {
        match monitors {
            Some(ms) => {
                self.push_history();
                self.monitors = ms;
                let len = self.monitors.len();
                let cap: usize = if len == 0 {
                    0
                } else {
                    len - 1
                };
                if self.selected_monitor > cap {
                    self.selected_monitor = cap;
                }
                self.unsaved_changes = false;
                proof {
                    let pushed = spec_push_history(old(self)@);
                    assert(final(self)@ =~= (AppV {
                        monitors: final(self)@.monitors,
                        selected_monitor: spec_clamped(
                            pushed.selected_monitor,
                            final(self)@.monitors.len(),
                        ),
                        unsaved_changes: false,
                        ..pushed
                    }));
                }
            },
            None => {
                proof {
                    assert(final(self)@ =~= old(self)@);
                }
            },
        }
    }
}

/// However many pushes have happened, and from whatever state: a push
/// retains at most the limit of entries, one more than before when under
/// it; the capture itself is always the newest entry, and a push at the
/// limit evicts exactly the oldest entry, never a newer one.
pub proof fn lemma_history_stays_bounded(a: AppV)
    ensures
        spec_push_history(a).history.len() == if a.history.len() + 1 <= HISTORY_LIMIT {
            a.history.len() + 1
        } else {
            HISTORY_LIMIT as nat
        },
        spec_push_history(a).history.last() == spec_snapshot_of(a),
        a.history.len() == HISTORY_LIMIT ==> spec_push_history(a).history == a.history.skip(
            1,
        ).push(spec_snapshot_of(a)),
{
    let pushed = a.history.push(spec_snapshot_of(a));
    if a.history.len() == HISTORY_LIMIT {
        assert(pushed.skip(pushed.len() - HISTORY_LIMIT) =~= a.history.skip(1).push(
            spec_snapshot_of(a),
        ));
    }
}

} // verus!
