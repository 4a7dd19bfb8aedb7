//! The interaction controller: it owns the buffer, the active path, the
//! history, the focus and the theme, takes key events, and tells its driver
//! which dialog to open and which file to read or write.

use crate::display::{
    border, border_of, lines_view, list_lines, listed, names_of, title, title_of, visible_names,
    EditorPane, SidebarPane,
};
use crate::effects::{outcome_view, Action, ActionView, Error, FileOp, Pending};
use crate::history::{all_distinct, record, step, visible_len};
use crate::keys::{Command, Direction, KeyEvent, KeyKind};
use crate::model::AppView;
use crate::state::{Focused, Theme};
use crate::surface::{surface_lines, surface_undo_depth, Surface, UNDO_DEPTH};
use crate::text::joined;
use vstd::prelude::*;

verus! {

/// The state of the editor.
#[derive(Debug)]
pub struct App<'a> {
    /// The buffer.
    pub text: Surface<'a>,
    /// The active path; empty while the buffer has no file.
    pub current_path: String,
    /// The paths that were active before, the most recently left first.
    pub recent_files: Vec<String>,
    /// Whether the buffer may differ from the file.
    pub dirty: bool,
    /// Whether the editor is to stop.
    pub exit: bool,
    /// The place of the sidebar cursor among the visible entries.
    pub current_recent_file_index: usize,
    pub focused: Focused,
    pub theme: Theme,
    /// The answer that the controller waits for.
    pub pending: Pending,
}

impl<'a> View for App<'a> {
    type V = AppView;

    open spec fn view(&self) -> AppView {
        AppView {
            lines: surface_lines(self.text),
            undo_depth: surface_undo_depth(self.text),
            current_path: self.current_path@,
            recent_files: self.recent_files.deep_view(),
            dirty: self.dirty,
            exit: self.exit,
            cursor: self.current_recent_file_index as int,
            focused: self.focused,
            theme: self.theme,
            pending: self.pending@,
        }
    }
}

impl<'a> Default for App<'a> {
    /// An editor with an empty buffer and no file.
    fn default() -> (app: Self)
        ensures
            app@ == AppView::initial(),
    {
        App::new()
    }
}

impl<'a> App<'a> {
    /// An editor with an empty buffer and no file.
    pub fn new() -> (app: Self)
        ensures
            app@ == AppView::initial(),
            app@.wf(),
    {
        let app = App {
            text: Surface::new(),
            current_path: String::new(),
            recent_files: Vec::new(),
            dirty: false,
            exit: false,
            current_recent_file_index: 0,
            focused: Focused::Editor,
            theme: Theme::Professional,
            pending: Pending::Idle,
        };
        assert(app@.recent_files =~= Seq::empty());
        app
    }

    /// Whether the state is one that the controller can have reached.
    pub fn is_well_formed(&self) -> (ok: bool)
        ensures
            ok == self@.wf(),
    {
        let count = visible_len(&self.recent_files);
        let cursor = self.current_recent_file_index;
        all_distinct(&self.recent_files) && (cursor < count || cursor == 0)
            && self.text.undo_depth() == UNDO_DEPTH
    }

    /// Whether the controller takes key events and commands.
    pub fn is_idle(&self) -> (idle: bool)
        ensures
            idle == self@.is_idle(),
    {
        match self.pending {
            Pending::Idle => true,
            _ => false,
        }
    }

    /// The text of the buffer as it is written to a file.
    pub fn buffer_text(&self) -> (text: String)
        ensures
            text@ == joined(self@.lines),
    {
        self.text.text()
    }

    /// Asks the editor to stop.
    pub fn exit(&mut self)
        ensures
            final(self)@ == old(self)@.quit(),
    {
        self.exit = true;
    }

    /// Moves the focus to the other pane.
    pub fn change_focus(&mut self)
        ensures
            final(self)@ == old(self)@.focus_toggled(),
    {
        self.focused = self.focused.toggled();
    }

    /// Goes on to the next theme.
    pub fn advance_theme(&mut self)
        ensures
            final(self)@ == old(self)@.theme_advanced(),
    {
        self.theme = self.theme.next_option();
    }

    /// Moves the sidebar cursor one entry up or down, round the visible
    /// window. Nothing happens while the editor has the focus, or while the
    /// history is empty.
    pub fn navigate(&mut self, direction: Direction)
        ensures
            final(self)@ == old(self)@.navigated(direction),
            old(self)@.wf() ==> final(self)@.wf(),
    {
        proof {
            if self@.wf() {
                self@.lemma_performed_wf(Command::Navigate(direction));
            }
        }
        if self.focused == Focused::SideBar {
            let count = visible_len(&self.recent_files);
            self.current_recent_file_index = step(self.current_recent_file_index, count, direction);
        }
    }

    /// Makes `path` the active path: the path that is left goes to the
    /// front of the history unless it is `path` itself or is there already,
    /// and the content of `path` is asked for. `mark_clean` tells whether
    /// the buffer counts as saved once the content has arrived.
    pub fn change_path(&mut self, path: String, mark_clean: bool) -> (action: Action)
        ensures
            (final(self)@, action@) == old(self)@.path_changed(path@, mark_clean),
            old(self)@.wf() ==> final(self)@.wf(),
    {
        proof {
            if self@.wf() {
                self@.lemma_path_changed_wf(path@, mark_clean);
            }
        }
        record(&mut self.recent_files, &self.current_path, &path);
        self.current_path = path.clone();
        self.pending = Pending::Loading { mark_clean };
        Action::Read { path }
    }

    /// Makes the history entry under the sidebar cursor the active path.
    /// Nothing happens unless the controller is idle, the sidebar has the
    /// focus and the cursor points at a visible entry.
    pub fn select(&mut self) -> (action: Action)
        ensures
            (final(self)@, action@) == old(self)@.selected(),
            old(self)@.wf() ==> final(self)@.wf(),
    {
        let count = visible_len(&self.recent_files);
        if self.is_idle() && self.focused == Focused::SideBar && self.current_recent_file_index
            < count {
            let path = self.recent_files[self.current_recent_file_index].clone();
            self.change_path(path, false)
        } else {
            Action::Wait
        }
    }

    /// Begins an operation that starts with a file dialog. Nothing happens
    /// unless the controller is idle.
    fn ask_for_path(&mut self, op: FileOp) -> (action: Action)
        ensures
            (final(self)@, action@) == old(self)@.choosing(op),
    {
        if self.is_idle() {
            self.pending = Pending::Choosing(op);
            match op {
                FileOp::Open => Action::ChooseExisting,
                _ => Action::ChooseDestination,
            }
        } else {
            Action::Wait
        }
    }

    /// Begins the creation of a file: asks where.
    pub fn create_file(&mut self) -> (action: Action)
        ensures
            (final(self)@, action@) == old(self)@.choosing(FileOp::Create),
    {
        self.ask_for_path(FileOp::Create)
    }

    /// Begins the opening of a file: asks which.
    pub fn open_file(&mut self) -> (action: Action)
        ensures
            (final(self)@, action@) == old(self)@.choosing(FileOp::Open),
    {
        self.ask_for_path(FileOp::Open)
    }

    /// Begins saving under a new name: asks where.
    pub fn save_file_as(&mut self) -> (action: Action)
        ensures
            (final(self)@, action@) == old(self)@.choosing(FileOp::SaveAs),
    {
        self.ask_for_path(FileOp::SaveAs)
    }

    /// Begins saving: asks for the text of the buffer to be written to the
    /// active path. Nothing happens unless the controller is idle.
    pub fn save_file(&mut self) -> (action: Action)
        ensures
            (final(self)@, action@) == old(self)@.saving(),
    {
        if self.is_idle() {
            self.pending = Pending::Saving;
            Action::Write { path: self.current_path.clone(), text: self.text.text() }
        } else {
            Action::Wait
        }
    }

    /// Performs a command.
    pub fn perform(&mut self, command: Command) -> (action: Action)
        ensures
            (final(self)@, action@) == old(self)@.performed(command),
            old(self)@.wf() ==> final(self)@.wf(),
    {
        proof {
            if self@.wf() {
                self@.lemma_performed_wf(command);
            }
        }
        match command {
            Command::Quit => {
                self.exit();
                Action::Wait
            },
            Command::ToggleFocus => {
                self.change_focus();
                Action::Wait
            },
            Command::AdvanceTheme => {
                self.advance_theme();
                Action::Wait
            },
            Command::Navigate(direction) => {
                self.navigate(direction);
                Action::Wait
            },
            Command::Select => self.select(),
            Command::Create => self.create_file(),
            Command::Open => self.open_file(),
            Command::SaveAs => self.save_file_as(),
            Command::Save => self.save_file(),
        }
    }

    /// Performs the command that the key of `event` is bound to, if it is
    /// bound to one.
    pub fn handle_key_event(&mut self, event: KeyEvent) -> (action: Action)
        ensures
            (final(self)@, action@) == old(self)@.dispatched(event),
            old(self)@.wf() ==> final(self)@.wf(),
    {
        match event.command() {
            Some(command) => self.perform(command),
            None => Action::Wait,
        }
    }

    /// Takes one key event. While the controller waits for a report the
    /// event is dropped. Otherwise the buffer sees the event first if the
    /// editor has the focus, and may change its text in any way; then a
    /// press marks the buffer as changed and is dispatched.
    pub fn handle_events(&mut self, event: KeyEvent) -> (action: Action)
        ensures
            !old(self)@.is_idle() ==> final(self)@ == old(self)@ && action@ == ActionView::Wait,
            old(self)@.is_idle() ==> (final(self)@, action@) == (AppView {
                lines: final(self)@.lines,
                ..old(self)@
            }).keyed(event),
            old(self)@.focused == Focused::SideBar || event.kind == KeyKind::Release
                ==> final(self)@.lines == old(self)@.lines,
            old(self)@.is_idle() && event.kind == KeyKind::Press ==> final(self)@.dirty,
            old(self)@.wf() ==> final(self)@.wf(),
    {
        if !self.is_idle() {
            return Action::Wait;
        }
        if self.focused == Focused::Editor {
            self.text.press(&event);
        }
        proof {
            if self@.wf() {
                self@.lemma_keyed_wf(event);
            }
        }
        if event.kind == KeyKind::Press {
            self.dirty = true;
            self.handle_key_event(event)
        } else {
            Action::Wait
        }
    }

    /// Takes the choice made in a file dialog; `None` says that the user
    /// made none. The report is refused as unexpected, and nothing changes,
    /// unless a dialog was asked for.
    pub fn path_chosen(&mut self, choice: Option<String>) -> (outcome: Result<Action, Error>)
        ensures
            (final(self)@, outcome_view(outcome)) == old(self)@.chosen(choice.deep_view()),
            old(self)@.wf() ==> final(self)@.wf(),
    {
        let op = match self.pending {
            Pending::Choosing(op) => op,
            _ => {
                return Err(Error::Unexpected);
            },
        };
        match choice {
            None => {
                self.pending = Pending::Idle;
                Ok(Action::Wait)
            },
            Some(path) => match op {
                FileOp::Open => {
                    self.pending = Pending::Opening { path: path.clone() };
                    Ok(Action::Read { path })
                },
                FileOp::Create => {
                    self.pending = Pending::Writing { path: path.clone() };
                    Ok(Action::Write { path, text: String::new() })
                },
                FileOp::SaveAs => {
                    self.pending = Pending::Writing { path: path.clone() };
                    Ok(Action::Write { path, text: self.text.text() })
                },
            },
        }
    }

    /// Takes the outcome of a write. A failure ends the operation with
    /// `WriteFailed` and leaves buffer, path, history and dirty flag as they
    /// were. The report is refused as unexpected, and nothing changes,
    /// unless a write was asked for.
    pub fn write_finished(&mut self, succeeded: bool) -> (outcome: Result<Action, Error>)
        ensures
            (final(self)@, outcome_view(outcome)) == old(self)@.written(succeeded),
            old(self)@.wf() ==> final(self)@.wf(),
    {
        let target: Option<String> = match &self.pending {
            Pending::Saving => None,
            Pending::Writing { path } => Some(path.clone()),
            _ => {
                return Err(Error::Unexpected);
            },
        };
        if !succeeded {
            self.pending = Pending::Idle;
            return Err(Error::WriteFailed);
        }
        match target {
            None => {
                self.dirty = false;
                self.pending = Pending::Idle;
                Ok(Action::Wait)
            },
            Some(path) => {
                self.pending = Pending::Reading { path: path.clone() };
                Ok(Action::Read { path })
            },
        }
    }

    /// Puts `content` into the buffer; leaves the buffer as it is where
    /// there is none.
    fn show(&mut self, content: Option<String>)
        ensures
            final(self)@ == old(self)@.shown(content.deep_view()),
    {
        if let Some(content) = content {
            self.text = Surface::load(content.as_str());
        }
    }

    /// Takes the content of the file that was asked for; `None` says that
    /// the file could not be read. A file that was to be opened and could
    /// not be read ends the operation with `ReadFailed` and nothing changed.
    /// The report is refused as unexpected, and nothing changes, unless a
    /// read was asked for.
    pub fn read_finished(&mut self, content: Option<String>) -> (outcome: Result<Action, Error>)
        ensures
            (final(self)@, outcome_view(outcome)) == old(self)@.read(content.deep_view()),
            old(self)@.wf() ==> final(self)@.wf(),
    {
        proof {
            if self@.wf() {
                self@.lemma_reports_wf(None, true, content.deep_view());
            }
        }
        let target: String = match &self.pending {
            Pending::Opening { path } => {
                if content.is_none() {
                    self.pending = Pending::Idle;
                    return Err(Error::ReadFailed);
                }
                path.clone()
            },
            Pending::Reading { path } => path.clone(),
            Pending::Loading { mark_clean } => {
                let mark_clean = *mark_clean;
                self.show(content);
                if mark_clean {
                    self.dirty = false;
                }
                self.pending = Pending::Idle;
                return Ok(Action::Wait);
            },
            _ => {
                return Err(Error::Unexpected);
            },
        };
        self.show(content);
        Ok(self.change_path(target, true))
    }

    /// The editor pane as it is to be painted.
    pub fn draw_editor(&self) -> (pane: EditorPane)
        ensures
            pane.title@ == title_of(self@.current_path, self@.dirty),
            pane.border == border_of(Focused::Editor, self@.focused, self@.theme),
    {
        EditorPane {
            title: title(self.current_path.as_str(), self.dirty),
            border: border(Focused::Editor, self.focused, self.theme),
        }
    }

    /// The sidebar as it is to be painted: one line for each visible history
    /// entry that has a file name, showing that name; the line of the entry
    /// under the cursor is highlighted.
    pub fn draw_sidebar(&self) -> (pane: SidebarPane)
        ensures
            lines_view(pane.lines@) == listed(
                names_of(self@.recent_files.take(self@.visible())),
                self@.cursor,
            ),
            pane.border == border_of(Focused::SideBar, self@.focused, self@.theme),
    {
        let names = visible_names(&self.recent_files);
        SidebarPane {
            lines: list_lines(&names, self.current_recent_file_index),
            border: border(Focused::SideBar, self.focused, self.theme),
        }
    }
}

} // verus!
