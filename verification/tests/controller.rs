use lightning::app::App;
use lightning::effects::{Action, Error, FileOp, Pending};
use lightning::keys::{Command, Direction, Key, KeyEvent, KeyKind};
use lightning::state::{Focused, Theme};
use lightning::surface::Surface;
use std::collections::HashMap;

fn list(names: &[&str]) -> Vec<String> {
    names.iter().map(|name| name.to_string()).collect()
}

/// Files by path, and the choices that the dialogs will give, last first.
struct World {
    files: HashMap<String, String>,
    choices: Vec<Option<String>>,
    unwritable: bool,
}

impl World {
    fn new() -> World {
        World { files: HashMap::new(), choices: Vec::new(), unwritable: false }
    }

    fn with_file(mut self, path: &str, content: &str) -> World {
        self.files.insert(path.to_string(), content.to_string());
        self
    }

    fn choosing(mut self, choice: Option<&str>) -> World {
        self.choices.insert(0, choice.map(|path| path.to_string()));
        self
    }

    /// Carries out what the controller asks for until it asks for nothing.
    fn carry_out(&mut self, app: &mut App, first: Action) -> Result<(), Error> {
        let mut action = first;
        loop {
            action = match action {
                Action::Wait => return Ok(()),
                Action::ChooseDestination | Action::ChooseExisting => {
                    app.path_chosen(self.choices.pop().unwrap())?
                }
                Action::Write { path, text } => {
                    if self.unwritable {
                        app.write_finished(false)?
                    } else {
                        self.files.insert(path, text);
                        app.write_finished(true)?
                    }
                }
                Action::Read { path } => app.read_finished(self.files.get(&path).cloned())?,
            };
        }
    }
}

struct Snapshot {
    lines: Vec<String>,
    current_path: String,
    recent_files: Vec<String>,
    dirty: bool,
    exit: bool,
    cursor: usize,
    focused: Focused,
    theme: Theme,
    pending: Pending,
}

fn snapshot(app: &App) -> Snapshot {
    Snapshot {
        lines: app.text.area.lines().to_vec(),
        current_path: app.current_path.clone(),
        recent_files: app.recent_files.clone(),
        dirty: app.dirty,
        exit: app.exit,
        cursor: app.current_recent_file_index,
        focused: app.focused,
        theme: app.theme,
        pending: app.pending.clone(),
    }
}

fn assert_same(app: &App, before: &Snapshot) {
    assert_eq!(app.text.area.lines(), before.lines);
    assert_eq!(app.current_path, before.current_path);
    assert_eq!(app.recent_files, before.recent_files);
    assert_eq!(app.dirty, before.dirty);
    assert_eq!(app.exit, before.exit);
    assert_eq!(app.current_recent_file_index, before.cursor);
    assert_eq!(app.focused, before.focused);
    assert_eq!(app.theme, before.theme);
    assert_eq!(app.pending, before.pending);
}

fn type_text(app: &mut App, text: &str) {
    for c in text.chars() {
        assert_eq!(app.handle_events(KeyEvent::press(Key::Char(c))), Action::Wait);
    }
}

#[test]
fn a_new_editor_is_empty_and_clean() {
    for app in [App::new(), App::default()] {
        assert_eq!(app.text.area.lines(), [""]);
        assert_eq!(app.current_path, "");
        assert_eq!(app.recent_files, list(&[]));
        assert!(!app.dirty);
        assert!(!app.exit);
        assert_eq!(app.current_recent_file_index, 0);
        assert_eq!(app.focused, Focused::Editor);
        assert_eq!(app.theme, Theme::Professional);
        assert_eq!(app.pending, Pending::Idle);
        assert!(app.is_idle());
        assert!(app.is_well_formed());
        assert_eq!(app.buffer_text(), "");
    }
}

#[test]
fn down_in_an_empty_sidebar_changes_nothing() {
    let mut app = App::new();
    app.focused = Focused::SideBar;
    let before = snapshot(&app);
    app.navigate(Direction::Down);
    assert_same(&app, &before);
    app.navigate(Direction::Up);
    assert_same(&app, &before);
    assert_eq!(app.handle_events(KeyEvent::press(Key::Down)), Action::Wait);
    assert_eq!(app.current_recent_file_index, 0);
    assert_eq!(app.recent_files, list(&[]));
    assert!(app.is_well_formed());
}

#[test]
fn down_moves_the_cursor_and_wraps() {
    let mut app = App::new();
    app.recent_files = list(&["a.txt", "b.txt"]);
    app.current_recent_file_index = 0;
    app.focused = Focused::SideBar;
    assert_eq!(app.handle_events(KeyEvent::press(Key::Down)), Action::Wait);
    assert_eq!(app.current_recent_file_index, 1);
    assert_eq!(app.handle_events(KeyEvent::press(Key::Down)), Action::Wait);
    assert_eq!(app.current_recent_file_index, 0);
}

#[test]
fn up_wraps_from_the_first_entry_to_the_last() {
    let mut app = App::new();
    app.recent_files = list(&["a.txt", "b.txt", "c.txt"]);
    app.focused = Focused::SideBar;
    app.handle_events(KeyEvent::press(Key::Up));
    assert_eq!(app.current_recent_file_index, 2);
    app.handle_events(KeyEvent::press(Key::Up));
    assert_eq!(app.current_recent_file_index, 1);
}

#[test]
fn a_full_round_of_navigation_returns_the_cursor() {
    for count in 1..=12usize {
        let visible = count.min(10);
        for start in 0..visible {
            for direction in [Direction::Up, Direction::Down] {
                let mut app = App::new();
                app.recent_files = (0..count).map(|i| format!("{}.txt", i)).collect();
                app.current_recent_file_index = start;
                app.focused = Focused::SideBar;
                for _ in 0..visible {
                    app.navigate(direction);
                    assert!(app.is_well_formed());
                }
                assert_eq!(app.current_recent_file_index, start);
            }
        }
    }
}

#[test]
fn the_cursor_stays_within_the_first_ten_entries() {
    let mut app = App::new();
    app.recent_files = (0..15).map(|i| format!("{}.txt", i)).collect();
    app.current_recent_file_index = 9;
    app.focused = Focused::SideBar;
    app.navigate(Direction::Down);
    assert_eq!(app.current_recent_file_index, 0);
    app.navigate(Direction::Up);
    assert_eq!(app.current_recent_file_index, 9);
}

#[test]
fn navigation_keys_do_not_move_the_cursor_while_the_editor_has_the_focus() {
    let mut app = App::new();
    app.recent_files = list(&["a.txt", "b.txt"]);
    app.handle_events(KeyEvent::press(Key::Down));
    assert_eq!(app.current_recent_file_index, 0);
    app.navigate(Direction::Down);
    assert_eq!(app.current_recent_file_index, 0);
    assert_eq!(app.select(), Action::Wait);
    assert_eq!(app.current_path, "");
}

#[test]
fn save_as_switches_the_path() {
    let mut world = World::new().choosing(Some("b.txt"));
    let mut app = App::new();
    app.current_path = "a.txt".to_string();
    app.dirty = false;
    let action = app.save_file_as();
    assert_eq!(action, Action::ChooseDestination);
    world.carry_out(&mut app, action).unwrap();
    assert_eq!(app.current_path, "b.txt");
    assert_eq!(app.recent_files, list(&["a.txt"]));
    assert!(!app.dirty);
    assert_eq!(app.pending, Pending::Idle);
    assert!(app.is_well_formed());
}

#[test]
fn save_as_by_key_writes_the_buffer_and_ends_clean() {
    let mut world = World::new().choosing(Some("out.txt"));
    let mut app = App::new();
    type_text(&mut app, "hello");
    app.handle_events(KeyEvent::press(Key::Enter));
    type_text(&mut app, "world");
    assert!(app.dirty);
    let action = app.handle_events(KeyEvent::ctrl('p'));
    assert_eq!(action, Action::ChooseDestination);
    assert_eq!(app.pending, Pending::Choosing(FileOp::SaveAs));
    world.carry_out(&mut app, action).unwrap();
    assert_eq!(world.files["out.txt"], "hello\nworld");
    assert_eq!(app.text.area.lines(), ["hello", "world"]);
    assert_eq!(app.current_path, "out.txt");
    assert_eq!(app.recent_files, list(&[""]));
    assert!(!app.dirty);
}

#[test]
fn save_as_asks_step_by_step() {
    let mut app = App::new();
    app.current_path = "a.txt".to_string();
    type_text(&mut app, "x");
    assert_eq!(app.save_file_as(), Action::ChooseDestination);
    assert_eq!(
        app.path_chosen(Some("b.txt".to_string())),
        Ok(Action::Write { path: "b.txt".to_string(), text: "x".to_string() })
    );
    assert_eq!(app.pending, Pending::Writing { path: "b.txt".to_string() });
    assert_eq!(app.current_path, "a.txt");
    assert_eq!(app.write_finished(true), Ok(Action::Read { path: "b.txt".to_string() }));
    assert_eq!(app.pending, Pending::Reading { path: "b.txt".to_string() });
    assert_eq!(app.current_path, "a.txt");
    assert!(app.dirty);
    assert_eq!(
        app.read_finished(Some("x".to_string())),
        Ok(Action::Read { path: "b.txt".to_string() })
    );
    assert_eq!(app.pending, Pending::Loading { mark_clean: true });
    assert_eq!(app.current_path, "b.txt");
    assert_eq!(app.recent_files, list(&["a.txt"]));
    assert!(app.dirty);
    assert_eq!(app.read_finished(Some("x".to_string())), Ok(Action::Wait));
    assert_eq!(app.pending, Pending::Idle);
    assert!(!app.dirty);
    assert_eq!(app.buffer_text(), "x");
}

#[test]
fn a_cancelled_open_changes_nothing() {
    let mut app = App::new();
    app.current_path = "a.txt".to_string();
    app.recent_files = list(&["b.txt"]);
    type_text(&mut app, "unsaved");
    let before = snapshot(&app);
    assert_eq!(app.open_file(), Action::ChooseExisting);
    assert_eq!(app.path_chosen(None), Ok(Action::Wait));
    assert_same(&app, &before);
}

#[test]
fn a_cancelled_create_or_save_as_changes_nothing() {
    for command in [Command::Create, Command::SaveAs] {
        let mut world = World::new().choosing(None);
        let mut app = App::new();
        app.current_path = "a.txt".to_string();
        type_text(&mut app, "text");
        let before = snapshot(&app);
        let action = app.perform(command);
        assert_eq!(action, Action::ChooseDestination);
        world.carry_out(&mut app, action).unwrap();
        assert_same(&app, &before);
        assert!(world.files.is_empty());
    }
}

#[test]
fn any_press_in_the_editor_marks_the_buffer() {
    for key in [Key::Left, Key::Up, Key::Home, Key::Esc, Key::Other, Key::Char('a')] {
        let mut app = App::new();
        assert!(!app.dirty);
        app.handle_events(KeyEvent::press(key));
        assert!(app.dirty, "{:?}", key);
    }
}

#[test]
fn a_press_marks_the_buffer_in_the_sidebar_too() {
    for event in [KeyEvent::press(Key::Down), KeyEvent::ctrl('t'), KeyEvent::ctrl(' ')] {
        let mut app = App::new();
        app.focused = Focused::SideBar;
        app.handle_events(event);
        assert!(app.dirty);
    }
}

#[test]
fn releases_and_repeats_neither_mark_nor_command() {
    for kind in [KeyKind::Release, KeyKind::Repeat] {
        let mut app = App::new();
        let event = KeyEvent { key: Key::Char('q'), ctrl: true, alt: false, shift: false, kind };
        assert_eq!(app.handle_events(event), Action::Wait);
        assert!(!app.dirty);
        assert!(!app.exit);
    }
}

#[test]
fn a_repeat_is_typed_but_does_not_mark_the_buffer() {
    let mut app = App::new();
    let event = KeyEvent { kind: KeyKind::Repeat, ..KeyEvent::press(Key::Char('a')) };
    app.handle_events(event);
    assert_eq!(app.buffer_text(), "a");
    assert!(!app.dirty);
}

#[test]
fn keys_reach_the_buffer_only_while_the_editor_has_the_focus() {
    let mut app = App::new();
    type_text(&mut app, "ab");
    assert_eq!(app.buffer_text(), "ab");
    app.handle_events(KeyEvent::ctrl(' '));
    assert_eq!(app.focused, Focused::SideBar);
    type_text(&mut app, "cd");
    app.handle_events(KeyEvent::press(Key::Backspace));
    assert_eq!(app.buffer_text(), "ab");
    app.handle_events(KeyEvent::ctrl(' '));
    assert_eq!(app.focused, Focused::Editor);
    type_text(&mut app, "e");
    assert_eq!(app.buffer_text(), "abe");
}

#[test]
fn quit_keys_set_the_exit_flag() {
    for c in ['c', 'q'] {
        let mut app = App::new();
        assert_eq!(app.handle_events(KeyEvent::ctrl(c)), Action::Wait);
        assert!(app.exit);
    }
    let mut app = App::new();
    app.exit();
    assert!(app.exit);
}

#[test]
fn the_theme_key_advances_the_theme() {
    let mut app = App::new();
    app.handle_events(KeyEvent::ctrl('t'));
    assert_eq!(app.theme, Theme::Creative);
    for _ in 0..5 {
        assert_ne!(app.theme, Theme::Professional);
        app.advance_theme();
    }
    assert_eq!(app.theme, Theme::Professional);
}

#[test]
fn toggling_the_focus_twice_returns_to_the_pane() {
    let mut app = App::new();
    let before = snapshot(&app);
    app.change_focus();
    assert_eq!(app.focused, Focused::SideBar);
    app.change_focus();
    assert_same(&app, &before);
}

#[test]
fn save_writes_the_buffer_to_the_active_path() {
    let mut world = World::new().with_file("a.txt", "old");
    let mut app = App::new();
    app.current_path = "a.txt".to_string();
    type_text(&mut app, "new");
    let action = app.handle_events(KeyEvent::ctrl('l'));
    assert_eq!(action, Action::Write { path: "a.txt".to_string(), text: "new".to_string() });
    assert_eq!(app.pending, Pending::Saving);
    assert!(app.dirty);
    world.carry_out(&mut app, action).unwrap();
    assert_eq!(world.files["a.txt"], "new");
    assert!(!app.dirty);
    assert_eq!(app.current_path, "a.txt");
    assert_eq!(app.recent_files, list(&[]));
    assert_eq!(app.buffer_text(), "new");
    assert_eq!(app.pending, Pending::Idle);
}

#[test]
fn a_failed_write_is_reported_and_leaves_the_state() {
    for command in [Command::Save, Command::SaveAs, Command::Create] {
        let mut world = World::new().choosing(Some("b.txt"));
        world.unwritable = true;
        let mut app = App::new();
        app.current_path = "a.txt".to_string();
        type_text(&mut app, "text");
        let before = snapshot(&app);
        let action = app.perform(command);
        assert_eq!(world.carry_out(&mut app, action), Err(Error::WriteFailed));
        assert_same(&app, &before);
        assert!(app.dirty);
    }
}

#[test]
fn open_loads_the_file_and_notes_the_path_that_was_left() {
    let mut world = World::new().with_file("dir/b.txt", "one\ntwo\n").choosing(Some("dir/b.txt"));
    let mut app = App::new();
    app.current_path = "a.txt".to_string();
    type_text(&mut app, "unsaved");
    let action = app.handle_events(KeyEvent::ctrl('o'));
    assert_eq!(action, Action::ChooseExisting);
    world.carry_out(&mut app, action).unwrap();
    assert_eq!(app.text.area.lines(), ["one", "two"]);
    assert_eq!(app.current_path, "dir/b.txt");
    assert_eq!(app.recent_files, list(&["a.txt"]));
    assert!(!app.dirty);
    assert_eq!(app.text.area.max_histories(), 10);
    assert!(app.is_well_formed());
}

#[test]
fn open_asks_for_the_file_twice() {
    let mut app = App::new();
    assert_eq!(app.open_file(), Action::ChooseExisting);
    assert_eq!(
        app.path_chosen(Some("f.txt".to_string())),
        Ok(Action::Read { path: "f.txt".to_string() })
    );
    assert_eq!(app.pending, Pending::Opening { path: "f.txt".to_string() });
    assert_eq!(
        app.read_finished(Some("first".to_string())),
        Ok(Action::Read { path: "f.txt".to_string() })
    );
    assert_eq!(app.buffer_text(), "first");
    assert_eq!(app.current_path, "f.txt");
    assert_eq!(app.read_finished(Some("second".to_string())), Ok(Action::Wait));
    assert_eq!(app.buffer_text(), "second");
}

#[test]
fn opening_an_unreadable_file_changes_nothing() {
    let mut world = World::new().choosing(Some("missing.txt"));
    let mut app = App::new();
    app.current_path = "a.txt".to_string();
    app.recent_files = list(&["b.txt"]);
    type_text(&mut app, "kept");
    let before = snapshot(&app);
    let action = app.open_file();
    assert_eq!(world.carry_out(&mut app, action), Err(Error::ReadFailed));
    assert_same(&app, &before);
    assert!(app.dirty);
}

#[test]
fn a_file_that_vanishes_after_it_was_opened_leaves_what_was_read() {
    let mut app = App::new();
    app.current_path = "a.txt".to_string();
    app.open_file();
    app.path_chosen(Some("b.txt".to_string())).unwrap();
    assert_eq!(
        app.read_finished(Some("content".to_string())),
        Ok(Action::Read { path: "b.txt".to_string() })
    );
    assert_eq!(app.read_finished(None), Ok(Action::Wait));
    assert_eq!(app.buffer_text(), "content");
    assert_eq!(app.current_path, "b.txt");
    assert_eq!(app.recent_files, list(&["a.txt"]));
    assert!(!app.dirty);
}

#[test]
fn a_file_that_cannot_be_read_back_still_becomes_the_active_path() {
    let mut app = App::new();
    app.current_path = "a.txt".to_string();
    type_text(&mut app, "kept");
    app.save_file_as();
    app.path_chosen(Some("b.txt".to_string())).unwrap();
    app.write_finished(true).unwrap();
    assert_eq!(app.read_finished(None), Ok(Action::Read { path: "b.txt".to_string() }));
    assert_eq!(app.read_finished(None), Ok(Action::Wait));
    assert_eq!(app.buffer_text(), "kept");
    assert_eq!(app.current_path, "b.txt");
    assert_eq!(app.recent_files, list(&["a.txt"]));
    assert!(!app.dirty);
}

#[test]
fn selecting_an_unreadable_entry_switches_the_path_and_keeps_the_buffer() {
    let mut world = World::new();
    let mut app = App::new();
    app.current_path = "c.txt".to_string();
    app.recent_files = list(&["gone.txt"]);
    app.focused = Focused::SideBar;
    type_text(&mut app, "ignored");
    app.focused = Focused::Editor;
    type_text(&mut app, "kept");
    app.focused = Focused::SideBar;
    let action = app.select();
    world.carry_out(&mut app, action).unwrap();
    assert_eq!(app.buffer_text(), "kept");
    assert_eq!(app.current_path, "gone.txt");
    assert_eq!(app.recent_files, list(&["c.txt", "gone.txt"]));
}

#[test]
fn create_writes_an_empty_file_and_shows_it() {
    let mut world = World::new().choosing(Some("new.txt"));
    let mut app = App::new();
    type_text(&mut app, "draft");
    let action = app.handle_events(KeyEvent::ctrl('n'));
    assert_eq!(action, Action::ChooseDestination);
    assert_eq!(app.pending, Pending::Choosing(FileOp::Create));
    assert_eq!(
        app.path_chosen(Some("new.txt".to_string())),
        Ok(Action::Write { path: "new.txt".to_string(), text: String::new() })
    );
    let action = Action::Write { path: "new.txt".to_string(), text: String::new() };
    world.carry_out(&mut app, action).unwrap();
    assert_eq!(world.files["new.txt"], "");
    assert_eq!(app.text.area.lines(), [""]);
    assert_eq!(app.current_path, "new.txt");
    assert_eq!(app.recent_files, list(&[""]));
    assert!(!app.dirty);
}

#[test]
fn select_loads_the_entry_under_the_cursor() {
    let mut world = World::new().with_file("b.txt", "bee");
    let mut app = App::new();
    app.current_path = "c.txt".to_string();
    app.recent_files = list(&["a.txt", "b.txt"]);
    app.current_recent_file_index = 1;
    app.focused = Focused::SideBar;
    let action = app.handle_events(KeyEvent::press(Key::Enter));
    assert_eq!(action, Action::Read { path: "b.txt".to_string() });
    assert_eq!(app.pending, Pending::Loading { mark_clean: false });
    world.carry_out(&mut app, action).unwrap();
    assert_eq!(app.current_path, "b.txt");
    assert_eq!(app.recent_files, list(&["c.txt", "a.txt", "b.txt"]));
    assert_eq!(app.buffer_text(), "bee");
    assert!(app.dirty);
    assert!(app.is_well_formed());
}

#[test]
fn select_in_an_empty_sidebar_changes_nothing() {
    let mut app = App::new();
    app.focused = Focused::SideBar;
    let before = snapshot(&app);
    assert_eq!(app.select(), Action::Wait);
    assert_same(&app, &before);
    assert_eq!(app.handle_events(KeyEvent::press(Key::Enter)), Action::Wait);
    assert_eq!(app.current_path, "");
    assert_eq!(app.pending, Pending::Idle);
}

#[test]
fn change_path_records_and_asks_for_the_content() {
    let mut app = App::new();
    app.current_path = "a.txt".to_string();
    let action = app.change_path("b.txt".to_string(), true);
    assert_eq!(action, Action::Read { path: "b.txt".to_string() });
    assert_eq!(app.current_path, "b.txt");
    assert_eq!(app.recent_files, list(&["a.txt"]));
    assert_eq!(app.pending, Pending::Loading { mark_clean: true });
    let mut app = App::new();
    app.current_path = "a.txt".to_string();
    app.change_path("a.txt".to_string(), false);
    assert_eq!(app.recent_files, list(&[]));
    assert_eq!(app.pending, Pending::Loading { mark_clean: false });
}

#[test]
fn the_history_stays_distinct_over_many_path_changes() {
    let mut world = World::new();
    let mut app = App::new();
    for target in ["a", "b", "a", "c", "b", "b", "d", "a", "c", "e", "a"] {
        let action = app.change_path(target.to_string(), true);
        world.carry_out(&mut app, action).unwrap();
        assert!(app.is_well_formed(), "{:?}", app.recent_files);
    }
    assert_eq!(app.recent_files, list(&["e", "d", "c", "b", "a", ""]));
    assert_eq!(app.current_path, "a");
}

#[test]
fn unexpected_reports_are_refused() {
    let mut app = App::new();
    type_text(&mut app, "x");
    let before = snapshot(&app);
    assert_eq!(app.path_chosen(Some("a.txt".to_string())), Err(Error::Unexpected));
    assert_eq!(app.path_chosen(None), Err(Error::Unexpected));
    assert_eq!(app.write_finished(true), Err(Error::Unexpected));
    assert_eq!(app.write_finished(false), Err(Error::Unexpected));
    assert_eq!(app.read_finished(Some("y".to_string())), Err(Error::Unexpected));
    assert_eq!(app.read_finished(None), Err(Error::Unexpected));
    assert_same(&app, &before);
    app.open_file();
    let before = snapshot(&app);
    assert_eq!(app.write_finished(true), Err(Error::Unexpected));
    assert_eq!(app.read_finished(None), Err(Error::Unexpected));
    assert_same(&app, &before);
    app.path_chosen(Some("f".to_string())).unwrap();
    let before = snapshot(&app);
    assert_eq!(app.path_chosen(None), Err(Error::Unexpected));
    assert_eq!(app.write_finished(true), Err(Error::Unexpected));
    assert_same(&app, &before);
}

#[test]
fn events_and_commands_wait_while_a_report_is_outstanding() {
    let mut app = App::new();
    type_text(&mut app, "x");
    app.recent_files = list(&["a.txt"]);
    app.focused = Focused::SideBar;
    assert_eq!(app.open_file(), Action::ChooseExisting);
    assert!(!app.is_idle());
    let before = snapshot(&app);
    assert_eq!(app.handle_events(KeyEvent::ctrl('q')), Action::Wait);
    assert_eq!(app.handle_events(KeyEvent::press(Key::Char('y'))), Action::Wait);
    assert_eq!(app.save_file(), Action::Wait);
    assert_eq!(app.save_file_as(), Action::Wait);
    assert_eq!(app.create_file(), Action::Wait);
    assert_eq!(app.open_file(), Action::Wait);
    assert_eq!(app.select(), Action::Wait);
    assert_same(&app, &before);
}

#[test]
fn a_state_off_the_rails_is_not_well_formed() {
    let mut app = App::new();
    app.recent_files = list(&["a", "b", "a"]);
    assert!(!app.is_well_formed());
    let mut app = App::new();
    app.current_recent_file_index = 1;
    assert!(!app.is_well_formed());
    let mut app = App::new();
    app.recent_files = list(&["a", "b"]);
    app.current_recent_file_index = 2;
    assert!(!app.is_well_formed());
    app.current_recent_file_index = 1;
    assert!(app.is_well_formed());
    app.text.area.set_max_histories(3);
    assert!(!app.is_well_formed());
}

#[test]
fn save_as_leaves_lines_that_survive_a_reload_as_they_were() {
    let mut world = World::new().choosing(Some("out.txt"));
    let mut app = App::new();
    app.text = Surface::load("one\n\nthr\ree\r");
    assert_eq!(app.text.area.lines(), ["one", "", "thr\ree\r"]);
    let action = app.save_file_as();
    world.carry_out(&mut app, action).unwrap();
    assert_eq!(world.files["out.txt"], "one\n\nthr\ree\r");
    assert_eq!(app.text.area.lines(), ["one", "", "thr\ree\r"]);
}

#[test]
fn save_as_drops_an_empty_last_line_from_the_buffer() {
    let mut world = World::new().choosing(Some("out.txt"));
    let mut app = App::new();
    type_text(&mut app, "one");
    app.handle_events(KeyEvent::press(Key::Enter));
    assert_eq!(app.text.area.lines(), ["one", ""]);
    let action = app.save_file_as();
    world.carry_out(&mut app, action).unwrap();
    assert_eq!(world.files["out.txt"], "one\n");
    assert_eq!(app.text.area.lines(), ["one"]);
}

#[test]
fn save_as_drops_a_carriage_return_before_a_line_ending_from_the_buffer() {
    let mut world = World::new().choosing(Some("out.txt"));
    let mut app = App::new();
    app.text = Surface::load("one\r\r\ntwo");
    assert_eq!(app.text.area.lines(), ["one\r", "two"]);
    let action = app.save_file_as();
    world.carry_out(&mut app, action).unwrap();
    assert_eq!(world.files["out.txt"], "one\r\ntwo");
    assert_eq!(app.text.area.lines(), ["one", "two"]);
}

#[test]
fn save_leaves_the_buffer_untouched() {
    let mut world = World::new();
    let mut app = App::new();
    app.current_path = "a.txt".to_string();
    type_text(&mut app, "one");
    app.handle_events(KeyEvent::press(Key::Enter));
    let action = app.save_file();
    world.carry_out(&mut app, action).unwrap();
    assert_eq!(world.files["a.txt"], "one\n");
    assert_eq!(app.text.area.lines(), ["one", ""]);
    assert!(!app.dirty);
}
