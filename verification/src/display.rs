//! What the two panes show, as plain values for a renderer to paint.

use crate::history::{visible_count, visible_len};
use crate::state::{AccentColor, Focused, Theme};
use crate::text::{file_name, file_name_of};
use vstd::prelude::*;

verus! {

/// The editor pane: its title and, while it has the focus, the accent of
/// its border.
#[derive(Debug, Clone, PartialEq, Eq)]
pub struct EditorPane {
    pub title: String,
    pub border: Option<AccentColor>,
}

/// One line of the sidebar.
#[derive(Debug, Clone, PartialEq, Eq)]
pub struct SidebarLine {
    pub name: String,
    pub highlighted: bool,
}

/// The sidebar: its lines and, while it has the focus, the accent of its
/// border.
#[derive(Debug, Clone, PartialEq, Eq)]
pub struct SidebarPane {
    pub lines: Vec<SidebarLine>,
    pub border: Option<AccentColor>,
}

impl View for SidebarLine {
    type V = (Seq<char>, bool);

    open spec fn view(&self) -> (Seq<char>, bool) {
        (self.name@, self.highlighted)
    }
}

/// The lines of a sidebar, each as its name and whether it is highlighted.
pub open spec fn lines_view(lines: Seq<SidebarLine>) -> Seq<(Seq<char>, bool)> {
    Seq::new(lines.len(), |i: int| lines[i]@)
}

/// The title of the editor pane: the name of the program, a star while
/// there are unsaved changes, and the active path between bars.
pub open spec fn title_of(path: Seq<char>, dirty: bool) -> Seq<char> {
    " lightning - text editor "@ + (if dirty {
        "*"@
    } else {
        Seq::empty()
    }) + "| "@ + path + " |"@
}

/// The accent of the border of `pane`: that of the theme while the pane has
/// the focus, none otherwise.
pub open spec fn border_of(pane: Focused, focused: Focused, theme: Theme) -> Option<AccentColor> {
    if focused == pane {
        Some(theme.accent_color())
    } else {
        None
    }
}

/// The file name of each of `paths`, or none where a path has no file name.
pub open spec fn names_of(paths: Seq<Seq<char>>) -> Seq<Option<Seq<char>>> {
    Seq::new(paths.len(), |i: int| file_name_of(paths[i]))
}

/// The lines for a list of entries of which some have a name: one line for
/// each entry that has one, in their order. The line of the entry at the
/// place `cursor` is highlighted, and no other.
pub open spec fn listed(names: Seq<Option<Seq<char>>>, cursor: int) -> Seq<(Seq<char>, bool)>
    decreases names.len(),
{
    if names.len() == 0 {
        Seq::empty()
    } else {
        let before = listed(names.drop_last(), cursor);
        match names.last() {
            Some(name) => before.push((name, names.len() - 1 == cursor)),
            None => before,
        }
    }
}

/// The title of the editor pane.
pub fn title(path: &str, dirty: bool) -> (title: String)
    ensures
        title@ == title_of(path@, dirty),
{
    let mut title = String::from_str(" lightning - text editor ");
    if dirty {
        title.append("*");
    }
    title.append("| ");
    title.append(path);
    title.append(" |");
    title
}

/// The accent of the border of `pane`.
pub fn border(pane: Focused, focused: Focused, theme: Theme) -> (accent: Option<AccentColor>)
    ensures
        accent == border_of(pane, focused, theme),
{
    if focused == pane {
        Some(theme.accent_color())
    } else {
        None
    }
}

/// The file names of the entries of `history` that the sidebar shows, or
/// none where an entry has no file name.
pub fn visible_names(history: &Vec<String>) -> (names: Vec<Option<String>>)
    ensures
        names.deep_view() == names_of(
            history.deep_view().take(visible_count(history.len() as nat) as int),
        ),
{
    let count = visible_len(history);
    let mut names: Vec<Option<String>> = Vec::new();
    let mut i: usize = 0;
    while i < count
        invariant
            i <= count <= history.len(),
            names.len() == i,
            forall|j: int| 0 <= j < i ==> (#[trigger] names[j]).deep_view() == file_name_of(history[j]@),
        decreases count - i,
    {
        names.push(file_name(history[i].as_str()));
        i += 1;
    }
    assert(names.deep_view() =~= names_of(history.deep_view().take(count as int)));
    names
}

/// Turns a list of entries of which some have a name into sidebar lines,
/// and highlights the line of the entry at the place `cursor`.
pub fn list_lines(names: &Vec<Option<String>>, cursor: usize) -> (lines: Vec<SidebarLine>)
    ensures
        lines_view(lines@) == listed(names.deep_view(), cursor as int),
{
    let mut lines: Vec<SidebarLine> = Vec::new();
    let mut i: usize = 0;
    while i < names.len()
        invariant
            i <= names.len(),
            lines_view(lines@) == listed(names.deep_view().take(i as int), cursor as int),
        decreases names.len() - i,
    {
        let ghost shown = names.deep_view().take(i + 1);
        let ghost before = lines_view(lines@);
        proof {
            assert(shown.drop_last() == names.deep_view().take(i as int));
            assert(shown.last() == names[i as int].deep_view());
        }
        if let Some(name) = &names[i] {
            lines.push(SidebarLine { name: name.clone(), highlighted: i == cursor });
            assert(lines_view(lines@) =~= before.push((name@, i == cursor)));
        }
        i += 1;
    }
    assert(names.deep_view().take(names.len() as int) == names.deep_view());
    lines
}

} // verus!
