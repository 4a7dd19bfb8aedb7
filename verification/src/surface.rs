//! The text-editing surface: the widget of `tui-textarea`, which edits the
//! buffer. The controller hands it keys, replaces its content wholesale and
//! reads its lines; it never looks at the cursor or the selection.

use crate::keys::{Key, KeyEvent, KeyKind};
use crate::text::{
    join_lines, joined, lemma_joined_from_front, lemma_line_end_of_first_line,
    lemma_lines_hold_no_line_feed, lines_of, no_line_feeds, split_lines, without_return,
};
use tui_textarea::{Input, TextArea};
use vstd::prelude::*;

verus! {

/// The number of edits that a surface of the editor remembers for undo.
pub const UNDO_DEPTH: usize = 10;

/// The number of edits that `tui-textarea` remembers unless told otherwise.
pub const DEFAULT_UNDO_DEPTH: usize = 50;

/// A text area of `tui-textarea`. What is inside is out of the verifier's
/// sight; `surface_lines` and `surface_undo_depth` name what the
/// controller's contracts say of it.
#[verifier::external_body]
#[derive(Debug)]
pub struct Surface<'a> {
    /// The widget itself, for a renderer to style and paint.
    pub area: TextArea<'a>,
}

/// The lines of text that a surface holds, the first line first.
pub uninterp spec fn surface_lines(surface: Surface) -> Seq<Seq<char>>;

/// The number of edits that a surface was told to remember for undo.
pub uninterp spec fn surface_undo_depth(surface: Surface) -> nat;

/// What `TextArea::input` makes of a surface and a key with its modifiers:
/// whether it reports a change of the text, and the lines that the surface
/// holds afterwards. Both follow from the key map of `tui-textarea` and from
/// all that the text area holds, its cursor, selection and undo history
/// among it.
pub uninterp spec fn input_outcome(
    surface: Surface,
    key: Key,
    ctrl: bool,
    alt: bool,
    shift: bool,
) -> (bool, Seq<Seq<char>>);

/// The lines that a surface shows for a file of the given content: the
/// lines of the content, or one empty line where the content has none.
pub open spec fn loaded_lines(content: Seq<char>) -> Seq<Seq<char>> {
    if lines_of(content).len() == 0 {
        seq![Seq::empty()]
    } else {
        lines_of(content)
    }
}

/// The lines that come back when `lines` are joined into a text and the
/// text is loaded: a last line that is empty is gone unless it is the only
/// line, and each line before the last has lost the carriage return that it
/// ended in.
pub open spec fn reloaded_lines(lines: Seq<Seq<char>>) -> Seq<Seq<char>> {
    let kept = if lines.len() > 1 && lines.last().len() == 0 {
        lines.drop_last()
    } else {
        lines
    };
    Seq::new(
        kept.len(),
        |i: int|
            if i < lines.len() - 1 {
                without_return(kept[i])
            } else {
                kept[i]
            },
    )
}

/// Whether loading the text of `lines` gives `lines` back: no line before
/// the last ends in a carriage return, and the last line is not empty
/// unless it is the only one.
pub open spec fn survives_reload(lines: Seq<Seq<char>>) -> bool {
    &&& forall|i: int|
        0 <= i < lines.len() - 1 ==> (#[trigger] lines[i]).len() == 0 || lines[i].last() != '\r'
    &&& lines.len() == 1 || lines.last().len() > 0
}

/// The lines of the text of `lines`, for lines that hold no line feed.
proof fn lemma_lines_of_joined(lines: Seq<Seq<char>>)
    requires
        lines.len() >= 1,
        no_line_feeds(lines),
    ensures
        lines_of(joined(lines)) == if lines.len() == 1 && lines[0].len() == 0 {
            Seq::<Seq<char>>::empty()
        } else {
            reloaded_lines(lines)
        },
    decreases lines.len(),
{
    let text = joined(lines);
    let first = lines[0];
    assert forall|i: int| 0 <= i < first.len() implies first[i] != '\n' by {
        assert(lines[0][i] != '\n');
    }
    if lines.len() == 1 {
        lemma_line_end_of_first_line(first, Seq::empty());
        if first.len() > 0 {
            assert(lines_of(text) == seq![first]);
            assert(reloaded_lines(lines) == seq![first]);
        }
    } else {
        let others = lines.drop_first();
        lemma_joined_from_front(lines);
        lemma_line_end_of_first_line(first, joined(others));
        assert(no_line_feeds(others)) by {
            assert forall|i: int, j: int|
                0 <= i < others.len() && 0 <= j < others[i].len() implies (#[trigger] others[i][j])
                != '\n' by {
                assert(lines[i + 1][j] != '\n');
            }
        }
        lemma_lines_of_joined(others);
        assert(text.take(first.len() as int) == first);
        assert(text.skip(first.len() as int + 1) == joined(others));
        assert(lines_of(text) == seq![without_return(first)] + lines_of(joined(others)));
        assert(others.last() == lines.last());
        if others.len() == 1 && others[0].len() == 0 {
            assert(lines.drop_last() == seq![first]);
            assert(reloaded_lines(lines) == seq![without_return(first)]);
        } else {
            let back = reloaded_lines(lines);
            let tail = reloaded_lines(others);
            if others.len() > 1 && others.last().len() == 0 {
                assert(lines.drop_last().drop_first() == others.drop_last());
            }
            assert(back == seq![without_return(first)] + tail);
        }
    }
}

/// What becomes of a buffer that is written to a file and loaded from the
/// file as it was written: `reloaded_lines` says which lines it holds
/// afterwards, and they are the lines it held before exactly if the lines
/// survive a reload.
pub proof fn lemma_reload(lines: Seq<Seq<char>>)
    requires
        lines.len() >= 1,
        no_line_feeds(lines),
    ensures
        loaded_lines(joined(lines)) == reloaded_lines(lines),
        reloaded_lines(lines) == lines <==> survives_reload(lines),
{
    lemma_lines_of_joined(lines);
    let back = reloaded_lines(lines);
    if lines.len() == 1 && lines[0].len() == 0 {
        assert(lines[0] =~= Seq::<char>::empty());
        assert(back =~= seq![Seq::<char>::empty()]);
    }
    if survives_reload(lines) {
        assert(back == lines);
    }
    if back == lines {
        assert(back.len() == lines.len());
        assert forall|i: int| 0 <= i < lines.len() - 1 implies (#[trigger] lines[i]).len() == 0
            || lines[i].last() != '\r' by {
            assert(back[i] == without_return(lines[i]));
        }
    }
}

impl<'a> Surface<'a> {
    /// `TextArea::default`: a text area that holds one empty line and
    /// remembers the default number of edits.
    #[verifier::external_body]
    pub(crate) fn blank() -> (surface: Surface<'a>)
        ensures
            surface_lines(surface) == seq![Seq::<char>::empty()],
            surface_undo_depth(surface) == DEFAULT_UNDO_DEPTH,
    {
        Surface { area: TextArea::default() }
    }

    /// `TextArea::new`: a text area that holds the given lines, or one empty
    /// line if there is none, and remembers the default number of edits. The
    /// crate asks that no line holds a line feed.
    #[verifier::external_body]
    pub(crate) fn with_lines(lines: Vec<String>) -> (surface: Surface<'a>)
        requires
            no_line_feeds(lines.deep_view()),
        ensures
            surface_lines(surface) == if lines.len() == 0 {
                seq![Seq::<char>::empty()]
            } else {
                lines.deep_view()
            },
            surface_undo_depth(surface) == DEFAULT_UNDO_DEPTH,
    {
        Surface { area: TextArea::new(lines) }
    }

    /// `TextArea::set_max_histories`: starts a new, empty undo history of
    /// the given depth. The text stays as it is.
    #[verifier::external_body]
    pub(crate) fn set_undo_depth(&mut self, depth: usize)
        ensures
            surface_lines(*final(self)) == surface_lines(*old(self)),
            surface_undo_depth(*final(self)) == depth,
    {
        self.area.set_max_histories(depth);
    }

    /// `TextArea::max_histories`: the depth that the undo history was given.
    #[verifier::external_body]
    pub(crate) fn undo_depth(&self) -> (depth: usize)
        ensures
            depth == surface_undo_depth(*self),
    {
        self.area.max_histories()
    }

    /// `TextArea::lines`: a copy of the lines that the text area holds.
    #[verifier::external_body]
    pub(crate) fn copy_lines(&self) -> (lines: Vec<String>)
        ensures
            lines.deep_view() == surface_lines(*self),
    {
        self.area.lines().to_vec()
    }

    /// `TextArea::input` with a key that edits text, or with one that the
    /// text area knows no use for. The text area does with it what its key
    /// map says, which may change the text in any way: `input_outcome` names
    /// what it reports and what it holds afterwards. The depth of its undo
    /// history stays.
    #[verifier::external_body]
    pub(crate) fn press_editing_key(
        &mut self,
        key: Key,
        ctrl: bool,
        alt: bool,
        shift: bool,
    ) -> (modified: bool)
        requires
            !key.is_motion(),
        ensures
            (modified, surface_lines(*final(self))) == input_outcome(
                *old(self),
                key,
                ctrl,
                alt,
                shift,
            ),
            surface_undo_depth(*final(self)) == surface_undo_depth(*old(self)),
    {
        let key = match key {
            Key::Char(c) => tui_textarea::Key::Char(c),
            Key::Enter => tui_textarea::Key::Enter,
            Key::Tab => tui_textarea::Key::Tab,
            Key::Backspace => tui_textarea::Key::Backspace,
            Key::Delete => tui_textarea::Key::Delete,
            Key::Esc => tui_textarea::Key::Esc,
            Key::F(n) => tui_textarea::Key::F(n),
            _ => tui_textarea::Key::Null,
        };
        self.area.input(Input { key, ctrl, alt, shift })
    }

    /// `TextArea::input` with a key that moves the cursor or the view. The
    /// text area does with it what its key map says: `input_outcome` names
    /// what it reports and what it holds afterwards. The depth of the undo
    /// history stays.
    #[verifier::external_body]
    pub(crate) fn press_motion_key(
        &mut self,
        key: Key,
        ctrl: bool,
        alt: bool,
        shift: bool,
    ) -> (modified: bool)
        requires
            key.is_motion(),
        ensures
            (modified, surface_lines(*final(self))) == input_outcome(
                *old(self),
                key,
                ctrl,
                alt,
                shift,
            ),
            surface_undo_depth(*final(self)) == surface_undo_depth(*old(self)),
    {
        let key = match key {
            Key::Left => tui_textarea::Key::Left,
            Key::Right => tui_textarea::Key::Right,
            Key::Up => tui_textarea::Key::Up,
            Key::Down => tui_textarea::Key::Down,
            Key::Home => tui_textarea::Key::Home,
            Key::End => tui_textarea::Key::End,
            Key::PageUp => tui_textarea::Key::PageUp,
            Key::PageDown => tui_textarea::Key::PageDown,
            _ => tui_textarea::Key::Null,
        };
        self.area.input(Input { key, ctrl, alt, shift })
    }

    /// An empty surface with the undo depth of the editor.
    pub fn new() -> (surface: Surface<'a>)
        ensures
            surface_lines(surface) == seq![Seq::<char>::empty()],
            surface_undo_depth(surface) == UNDO_DEPTH,
    {
        let mut surface = Surface::blank();
        surface.set_undo_depth(UNDO_DEPTH);
        surface
    }

    /// A surface that shows a file of the given content, with the undo depth
    /// of the editor.
    pub fn load(content: &str) -> (surface: Surface<'a>)
        ensures
            surface_lines(surface) == loaded_lines(content@),
            surface_undo_depth(surface) == UNDO_DEPTH,
    {
        let lines = split_lines(content);
        proof {
            lemma_lines_hold_no_line_feed(content@);
        }
        let mut surface = Surface::with_lines(lines);
        surface.set_undo_depth(UNDO_DEPTH);
        surface
    }

    /// The whole text of the surface: its lines, joined by line feeds.
    pub fn text(&self) -> (text: String)
        ensures
            text@ == joined(surface_lines(*self)),
    {
        let lines = self.copy_lines();
        join_lines(&lines)
    }

    /// Hands a key event to the surface: its key and its modifiers, as they
    /// are. The result tells whether the surface reports a change of its
    /// text. A release is not handed on: it changes nothing and reports no
    /// change.
    pub fn press(&mut self, event: &KeyEvent) -> (modified: bool)
        ensures
            event.kind != KeyKind::Release ==> (modified, surface_lines(*final(self)))
                == input_outcome(*old(self), event.key, event.ctrl, event.alt, event.shift),
            event.kind == KeyKind::Release ==> *final(self) == *old(self) && !modified,
            surface_undo_depth(*final(self)) == surface_undo_depth(*old(self)),
    {
        match event.kind {
            KeyKind::Release => false,
            _ => if event.key.is_motion() {
                self.press_motion_key(event.key, event.ctrl, event.alt, event.shift)
            } else {
                self.press_editing_key(event.key, event.ctrl, event.alt, event.shift)
            },
        }
    }
}

} // verus!
