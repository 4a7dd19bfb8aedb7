use lightning::app::App;
use lightning::display::{border, list_lines, title, visible_names, SidebarLine};
use lightning::state::{AccentColor, Focused, Theme};

fn history_of(names: &[&str]) -> Vec<String> {
    names.iter().map(|name| name.to_string()).collect()
}

fn line(name: &str, highlighted: bool) -> SidebarLine {
    SidebarLine { name: name.to_string(), highlighted }
}

#[test]
fn the_title_shows_the_path_between_bars() {
    assert_eq!(title("a.txt", false), " lightning - text editor | a.txt |");
    assert_eq!(title("", false), " lightning - text editor |  |");
}

#[test]
fn the_title_shows_a_star_for_unsaved_changes() {
    assert_eq!(title("a.txt", true), " lightning - text editor *| a.txt |");
}

#[test]
fn only_the_focused_pane_has_an_accent() {
    assert_eq!(border(Focused::Editor, Focused::Editor, Theme::Calm), Some(AccentColor::LightYellow));
    assert_eq!(border(Focused::Editor, Focused::SideBar, Theme::Calm), None);
    assert_eq!(border(Focused::SideBar, Focused::SideBar, Theme::Warm), Some(AccentColor::LightRed));
    assert_eq!(border(Focused::SideBar, Focused::Editor, Theme::Warm), None);
}

fn names(names: &[Option<&str>]) -> Vec<Option<String>> {
    names.iter().map(|name| name.map(|name| name.to_string())).collect()
}

#[test]
fn entries_are_shown_by_their_file_name() {
    let history = history_of(&["/home/me/notes.txt", "relative/dir/b.rs", "plain.md"]);
    assert_eq!(
        visible_names(&history),
        names(&[Some("notes.txt"), Some("b.rs"), Some("plain.md")])
    );
}

#[test]
fn some_entries_have_no_file_name() {
    let history = history_of(&["a.txt", "", "dir/..", "/", "b.txt", "dir/"]);
    assert_eq!(
        visible_names(&history),
        names(&[Some("a.txt"), None, None, None, Some("b.txt"), Some("dir")])
    );
}

#[test]
fn only_the_first_ten_entries_are_shown() {
    let history: Vec<String> = (0..14).map(|i| format!("dir/{}.txt", i)).collect();
    let expected: Vec<Option<String>> = (0..10).map(|i| Some(format!("{}.txt", i))).collect();
    assert_eq!(visible_names(&history), expected);
    assert_eq!(visible_names(&history_of(&[])), names(&[]));
}

#[test]
fn the_line_at_the_cursor_is_highlighted() {
    let entries = names(&[Some("a"), Some("b"), Some("c")]);
    assert_eq!(list_lines(&entries, 1), vec![line("a", false), line("b", true), line("c", false)]);
    assert_eq!(list_lines(&entries, 0), vec![line("a", true), line("b", false), line("c", false)]);
    assert_eq!(list_lines(&entries, 3), vec![line("a", false), line("b", false), line("c", false)]);
    assert_eq!(list_lines(&names(&[]), 0), vec![]);
}

#[test]
fn entries_without_a_name_get_no_line_and_keep_their_place() {
    let entries = names(&[Some("a"), None, Some("c")]);
    assert_eq!(list_lines(&entries, 2), vec![line("a", false), line("c", true)]);
    assert_eq!(list_lines(&entries, 1), vec![line("a", false), line("c", false)]);
    assert_eq!(list_lines(&entries, 0), vec![line("a", true), line("c", false)]);
    assert_eq!(list_lines(&names(&[None, None]), 0), vec![]);
}

#[test]
fn the_sidebar_highlights_the_entry_under_the_cursor() {
    let mut app = App::new();
    app.recent_files = history_of(&["x/a.txt", "", "y/c.txt"]);
    app.current_recent_file_index = 2;
    let sidebar = app.draw_sidebar();
    assert_eq!(sidebar.lines, vec![line("a.txt", false), line("c.txt", true)]);
}

#[test]
fn the_editor_pane_of_a_new_editor() {
    let app = App::new();
    let pane = app.draw_editor();
    assert_eq!(pane.title, " lightning - text editor |  |");
    assert_eq!(pane.border, Some(AccentColor::Cyan));
    let sidebar = app.draw_sidebar();
    assert_eq!(sidebar.lines, vec![]);
    assert_eq!(sidebar.border, None);
}

#[test]
fn the_panes_follow_the_state() {
    let mut app = App::new();
    app.current_path = "dir/c.txt".to_string();
    app.dirty = true;
    app.recent_files = history_of(&["dir/a.txt", "b.txt"]);
    app.current_recent_file_index = 1;
    app.focused = Focused::SideBar;
    app.theme = Theme::Creative;
    let pane = app.draw_editor();
    assert_eq!(pane.title, " lightning - text editor *| dir/c.txt |");
    assert_eq!(pane.border, None);
    let sidebar = app.draw_sidebar();
    assert_eq!(sidebar.lines, vec![line("a.txt", false), line("b.txt", true)]);
    assert_eq!(sidebar.border, Some(AccentColor::LightMagenta));
}
