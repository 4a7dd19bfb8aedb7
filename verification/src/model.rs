//! The controller as a state machine over plain values: what each command
//! and each report makes of a state, and what is asked of the driver next.

use crate::effects::{ActionView, Error, FileOp, PendingView};
use crate::history::{
    lemma_full_cycle, lemma_moved_in_window, lemma_recorded_distinct, moved, moved_by, recorded,
    visible_count,
};
use crate::keys::{Command, Direction, KeyEvent, KeyKind};
use crate::state::{Focused, Theme};
use crate::surface::{lemma_reload, loaded_lines, reloaded_lines, UNDO_DEPTH};
use crate::text::{joined, no_line_feeds};
use vstd::prelude::*;

verus! {

/// The state of the editor as the contracts see it.
pub struct AppView {
    /// The lines of the buffer.
    pub lines: Seq<Seq<char>>,
    /// The depth of the buffer's undo history.
    pub undo_depth: nat,
    /// The active path; empty while the buffer has no file.
    pub current_path: Seq<char>,
    /// The paths that were active before, the most recently left first.
    pub recent_files: Seq<Seq<char>>,
    /// Whether the buffer may differ from the file.
    pub dirty: bool,
    /// Whether the editor is to stop.
    pub exit: bool,
    /// The place of the sidebar cursor among the visible entries.
    pub cursor: int,
    pub focused: Focused,
    pub theme: Theme,
    /// The answer that the controller waits for.
    pub pending: PendingView,
}

impl AppView {
    /// The state a new editor starts in: one empty line, no file, no
    /// history, nothing to save, the focus in the editor.
    pub open spec fn initial() -> AppView {
        AppView {
            lines: seq![Seq::empty()],
            undo_depth: UNDO_DEPTH as nat,
            current_path: Seq::empty(),
            recent_files: Seq::empty(),
            dirty: false,
            exit: false,
            cursor: 0,
            focused: Focused::Editor,
            theme: Theme::Professional,
            pending: PendingView::Idle,
        }
    }

    /// The number of history entries that the sidebar shows.
    pub open spec fn visible(self) -> int {
        visible_count(self.recent_files.len()) as int
    }

    /// What holds of every state that the controller reaches: no path
    /// occurs twice in the history, the cursor points at a visible entry if
    /// there is one and is zero otherwise, and the buffer has the undo depth
    /// of the editor.
    pub open spec fn wf(self) -> bool {
        &&& self.recent_files.no_duplicates()
        &&& 0 <= self.cursor
        &&& self.cursor < self.visible() || self.cursor == 0
        &&& self.undo_depth == UNDO_DEPTH
    }

    /// Whether the controller takes key events and commands.
    pub open spec fn is_idle(self) -> bool {
        self.pending is Idle
    }

    /// The editor is to stop.
    pub open spec fn quit(self) -> AppView {
        AppView { exit: true, ..self }
    }

    /// The focus moves to the other pane.
    pub open spec fn focus_toggled(self) -> AppView {
        AppView { focused: self.focused.toggled(), ..self }
    }

    /// The theme goes on to the next palette.
    pub open spec fn theme_advanced(self) -> AppView {
        AppView { theme: self.theme.next_option(), ..self }
    }

    /// The cursor moves one entry round the visible window while the
    /// sidebar has the focus. Where the window is empty it stays.
    pub open spec fn navigated(self, direction: Direction) -> AppView {
        if self.focused == Focused::SideBar {
            AppView { cursor: moved(self.cursor, self.visible(), direction), ..self }
        } else {
            self
        }
    }

    /// The state after `steps` steps of the cursor in one direction.
    pub open spec fn navigated_by(self, direction: Direction, steps: nat) -> AppView
        decreases steps,
    {
        if steps == 0 {
            self
        } else {
            self.navigated_by(direction, (steps - 1) as nat).navigated(direction)
        }
    }

    /// The state after the theme was advanced `steps` times.
    pub open spec fn theme_advanced_by(self, steps: nat) -> AppView
        decreases steps,
    {
        if steps == 0 {
            self
        } else {
            self.theme_advanced_by((steps - 1) as nat).theme_advanced()
        }
    }

    /// The change of the active path: the path that is left is noted in the
    /// history, `path` becomes the active path, and its content is asked
    /// for.
    pub open spec fn path_changed(self, path: Seq<char>, mark_clean: bool) -> (AppView, ActionView) {
        (
            AppView {
                recent_files: recorded(self.recent_files, self.current_path, path),
                current_path: path,
                pending: PendingView::Loading { mark_clean },
                ..self
            },
            ActionView::Read { path },
        )
    }

    /// Whether the cursor points at an entry that can be loaded now.
    pub open spec fn can_select(self) -> bool {
        &&& self.is_idle()
        &&& self.focused == Focused::SideBar
        &&& 0 <= self.cursor < self.visible()
    }

    /// The entry under the cursor becomes the active path. Nothing happens
    /// unless the sidebar has the focus and the cursor points at an entry.
    pub open spec fn selected(self) -> (AppView, ActionView) {
        if self.can_select() {
            self.path_changed(self.recent_files[self.cursor], false)
        } else {
            (self, ActionView::Wait)
        }
    }

    /// An operation that begins with a file dialog asks for the dialog.
    pub open spec fn choosing(self, op: FileOp) -> (AppView, ActionView) {
        if self.is_idle() {
            (
                AppView { pending: PendingView::Choosing(op), ..self },
                match op {
                    FileOp::Open => ActionView::ChooseExisting,
                    FileOp::Create | FileOp::SaveAs => ActionView::ChooseDestination,
                },
            )
        } else {
            (self, ActionView::Wait)
        }
    }

    /// Saving asks for the text of the buffer to be written to the active
    /// path.
    pub open spec fn saving(self) -> (AppView, ActionView) {
        if self.is_idle() {
            (
                AppView { pending: PendingView::Saving, ..self },
                ActionView::Write { path: self.current_path, text: joined(self.lines) },
            )
        } else {
            (self, ActionView::Wait)
        }
    }

    /// What a command makes of a state, and what it asks for.
    pub open spec fn performed(self, command: Command) -> (AppView, ActionView) {
        match command {
            Command::Quit => (self.quit(), ActionView::Wait),
            Command::ToggleFocus => (self.focus_toggled(), ActionView::Wait),
            Command::AdvanceTheme => (self.theme_advanced(), ActionView::Wait),
            Command::Navigate(direction) => (self.navigated(direction), ActionView::Wait),
            Command::Select => self.selected(),
            Command::Create => self.choosing(FileOp::Create),
            Command::Open => self.choosing(FileOp::Open),
            Command::SaveAs => self.choosing(FileOp::SaveAs),
            Command::Save => self.saving(),
        }
    }

    /// The command bound to the key of an event is performed; an event
    /// whose key is bound to none changes nothing.
    pub open spec fn dispatched(self, event: KeyEvent) -> (AppView, ActionView) {
        match event.command() {
            Some(command) => self.performed(command),
            None => (self, ActionView::Wait),
        }
    }

    /// What a key event makes of a state once the buffer has seen it: a
    /// press marks the buffer as changed, whatever the key, and is then
    /// dispatched. Other events do nothing.
    pub open spec fn keyed(self, event: KeyEvent) -> (AppView, ActionView) {
        if event.kind == KeyKind::Press {
            (AppView { dirty: true, ..self }).dispatched(event)
        } else {
            (self, ActionView::Wait)
        }
    }

    /// What the choice made in a file dialog leads to. No choice ends the
    /// operation with nothing changed. A chosen path is written to when a
    /// file is created (with nothing) or saved under a new name (with the
    /// text of the buffer), and read when a file is opened.
    pub open spec fn chosen(self, choice: Option<Seq<char>>) -> (AppView, Result<ActionView, Error>) {
        match (self.pending, choice) {
            (PendingView::Choosing(_), None) => (
                AppView { pending: PendingView::Idle, ..self },
                Ok(ActionView::Wait),
            ),
            (PendingView::Choosing(FileOp::Open), Some(path)) => (
                AppView { pending: PendingView::Opening { path }, ..self },
                Ok(ActionView::Read { path }),
            ),
            (PendingView::Choosing(FileOp::Create), Some(path)) => (
                AppView { pending: PendingView::Writing { path }, ..self },
                Ok(ActionView::Write { path, text: Seq::empty() }),
            ),
            (PendingView::Choosing(FileOp::SaveAs), Some(path)) => (
                AppView { pending: PendingView::Writing { path }, ..self },
                Ok(ActionView::Write { path, text: joined(self.lines) }),
            ),
            _ => (self, Err(Error::Unexpected)),
        }
    }

    /// What the outcome of a write leads to. A failure ends the operation
    /// with nothing else changed. After a save the buffer counts as saved.
    /// After a write to a new path the path is read back.
    pub open spec fn written(self, succeeded: bool) -> (AppView, Result<ActionView, Error>) {
        match self.pending {
            PendingView::Saving => if succeeded {
                (AppView { dirty: false, pending: PendingView::Idle, ..self }, Ok(ActionView::Wait))
            } else {
                (AppView { pending: PendingView::Idle, ..self }, Err(Error::WriteFailed))
            },
            PendingView::Writing { path } => if succeeded {
                (
                    AppView { pending: PendingView::Reading { path }, ..self },
                    Ok(ActionView::Read { path }),
                )
            } else {
                (AppView { pending: PendingView::Idle, ..self }, Err(Error::WriteFailed))
            },
            _ => (self, Err(Error::Unexpected)),
        }
    }

    /// The state with the buffer replaced by a fresh one that holds the
    /// content that was read, or left as it is where the file could not be
    /// read.
    pub open spec fn shown(self, content: Option<Seq<char>>) -> AppView {
        match content {
            Some(content) => AppView {
                lines: loaded_lines(content),
                undo_depth: UNDO_DEPTH as nat,
                ..self
            },
            None => self,
        }
    }

    /// What the content of a file leads to; no content says that the file
    /// could not be read. A file that is to be opened and cannot be read
    /// ends the operation with nothing changed. Otherwise content read
    /// before the change of path goes into the buffer, and the path becomes
    /// the active one, which asks for its content once more. Content read
    /// after the change of path goes into the buffer and ends the operation;
    /// the buffer then counts as saved unless the path came from the
    /// history. Where there is no content the buffer stays as it is.
    pub open spec fn read(self, content: Option<Seq<char>>) -> (AppView, Result<ActionView, Error>) {
        match self.pending {
            PendingView::Opening { path } => if content is Some {
                let changed = self.shown(content).path_changed(path, true);
                (changed.0, Ok(changed.1))
            } else {
                (AppView { pending: PendingView::Idle, ..self }, Err(Error::ReadFailed))
            },
            PendingView::Reading { path } => {
                let changed = self.shown(content).path_changed(path, true);
                (changed.0, Ok(changed.1))
            },
            PendingView::Loading { mark_clean } => {
                let shown = self.shown(content);
                (
                    AppView {
                        dirty: if mark_clean {
                            false
                        } else {
                            shown.dirty
                        },
                        pending: PendingView::Idle,
                        ..shown
                    },
                    Ok(ActionView::Wait),
                )
            },
            _ => (self, Err(Error::Unexpected)),
        }
    }

    /// Toggling the focus twice leaves the state as it was.
    pub proof fn lemma_focus_toggled_twice(self)
        ensures
            self.focus_toggled().focus_toggled() == self,
    {
    }

    /// Advancing the theme changes the theme and nothing else, and moves it
    /// as many places round the cycle of palettes as it is advanced.
    pub proof fn lemma_theme_advanced_by(self, steps: nat)
        ensures
            self.theme_advanced_by(steps) == (AppView { theme: self.theme.advanced(steps), ..self }),
        decreases steps,
    {
        if steps > 0 {
            self.lemma_theme_advanced_by((steps - 1) as nat);
        }
    }

    /// Advancing the theme six times leads back to the state one started
    /// from, and no smaller positive number of steps leads back to its
    /// theme.
    pub proof fn lemma_theme_full_cycle(self, steps: nat)
        ensures
            self.theme_advanced_by(6) == self,
            0 < steps < 6 ==> self.theme_advanced_by(steps).theme != self.theme,
    {
        self.lemma_theme_advanced_by(6);
        self.lemma_theme_advanced_by(steps);
        self.theme.lemma_full_cycle(steps);
    }

    /// While the sidebar has the focus, steps of the cursor change the
    /// cursor and nothing else.
    pub proof fn lemma_navigated_by(self, direction: Direction, steps: nat)
        requires
            self.focused == Focused::SideBar,
        ensures
            self.navigated_by(direction, steps) == (AppView {
                cursor: moved_by(self.cursor, self.visible(), direction, steps),
                ..self
            }),
        decreases steps,
    {
        if steps > 0 {
            self.lemma_navigated_by(direction, (steps - 1) as nat);
        }
    }

    /// With the focus in the sidebar and the cursor at a visible entry, as
    /// many steps up, or as many steps down, as there are visible entries
    /// lead back to the state one started from.
    pub proof fn lemma_navigation_full_cycle(self, direction: Direction)
        requires
            self.focused == Focused::SideBar,
            0 <= self.cursor < self.visible(),
        ensures
            self.navigated_by(direction, self.visible() as nat) == self,
    {
        self.lemma_navigated_by(direction, self.visible() as nat);
        lemma_full_cycle(self.cursor, self.visible(), direction);
    }

    /// Where no history entry is visible, or the editor has the focus, a
    /// step of the cursor changes nothing.
    pub proof fn lemma_navigation_without_entries(self, direction: Direction)
        requires
            self.visible() == 0 || self.focused == Focused::Editor,
        ensures
            self.navigated(direction) == self,
    {
    }

    /// An operation that is given up leaves the state as it was before it
    /// began: one whose dialog is closed without a choice, one whose write
    /// fails, and the opening of a file that cannot be read.
    pub proof fn lemma_abandoned_operations_change_nothing(self, op: FileOp, path: Seq<char>)
        requires
            self.is_idle(),
        ensures
            self.choosing(op).0.chosen(None) == (self, Ok::<ActionView, Error>(ActionView::Wait)),
            op != FileOp::Open ==> self.choosing(op).0.chosen(Some(path)).0.written(false) == (
                self,
                Err::<ActionView, Error>(Error::WriteFailed),
            ),
            self.saving().0.written(false) == (self, Err::<ActionView, Error>(Error::WriteFailed)),
            self.choosing(FileOp::Open).0.chosen(Some(path)).0.read(None) == (
                self,
                Err::<ActionView, Error>(Error::ReadFailed),
            ),
    {
    }

    /// The state in which saving under the new name `path` ends, where the
    /// write succeeds and each of the two reads gives what the file holds.
    pub open spec fn saved_as(self, path: Seq<char>, first: Seq<char>, second: Seq<char>) -> AppView {
        self.choosing(FileOp::SaveAs).0.chosen(Some(path)).0.written(true).0.read(Some(first)).0.read(
            Some(second),
        ).0
    }

    /// Saving under a new name, with a file that reads back as it was
    /// written: the text of the buffer is what is written; afterwards the
    /// buffer holds the lines that a reload leaves of it, `path` is the
    /// active path, the path that was left is noted in the history, and
    /// nothing is left to save. All else is as it was.
    pub proof fn lemma_save_as_round_trip(self, path: Seq<char>)
        requires
            self.is_idle(),
            self.lines.len() >= 1,
            no_line_feeds(self.lines),
        ensures
            self.choosing(FileOp::SaveAs).0.chosen(Some(path)).1 == Ok::<ActionView, Error>(
                ActionView::Write { path, text: joined(self.lines) },
            ),
            self.saved_as(path, joined(self.lines), joined(self.lines)) == (AppView {
                lines: reloaded_lines(self.lines),
                undo_depth: UNDO_DEPTH as nat,
                current_path: path,
                recent_files: recorded(self.recent_files, self.current_path, path),
                dirty: false,
                ..self
            }),
    {
        lemma_reload(self.lines);
    }

    /// A change of the active path keeps a state well formed.
    pub proof fn lemma_path_changed_wf(self, path: Seq<char>, mark_clean: bool)
        requires
            self.wf(),
        ensures
            self.path_changed(path, mark_clean).0.wf(),
    {
        lemma_recorded_distinct(self.recent_files, self.current_path, path);
    }

    /// No command leads out of the well-formed states.
    pub proof fn lemma_performed_wf(self, command: Command)
        requires
            self.wf(),
        ensures
            self.performed(command).0.wf(),
    {
        match command {
            Command::Navigate(direction) => {
                if self.visible() > 0 {
                    lemma_moved_in_window(self.cursor, self.visible(), direction);
                }
            },
            Command::Select => {
                if self.can_select() {
                    self.lemma_path_changed_wf(self.recent_files[self.cursor], false);
                }
            },
            _ => {},
        }
    }

    /// No key event leads out of the well-formed states.
    pub proof fn lemma_keyed_wf(self, event: KeyEvent)
        requires
            self.wf(),
        ensures
            self.dispatched(event).0.wf(),
            self.keyed(event).0.wf(),
    {
        let marked = AppView { dirty: true, ..self };
        if let Some(command) = event.command() {
            self.lemma_performed_wf(command);
            marked.lemma_performed_wf(command);
        }
    }

    /// No report leads out of the well-formed states.
    pub proof fn lemma_reports_wf(
        self,
        choice: Option<Seq<char>>,
        succeeded: bool,
        content: Option<Seq<char>>,
    )
        requires
            self.wf(),
        ensures
            self.chosen(choice).0.wf(),
            self.written(succeeded).0.wf(),
            self.read(content).0.wf(),
    {
        match self.pending {
            PendingView::Opening { path } | PendingView::Reading { path } => {
                self.shown(content).lemma_path_changed_wf(path, true);
            },
            _ => {},
        }
    }
}

} // verus!
