//! Text as lines: how a file's content falls into lines, how lines are
//! joined into the content of a file, and the name a path ends in.

use std::path::Path;
use vstd::prelude::*;

verus! {

/// The index of the first line feed of `text`, or the length of `text` if
/// it holds none.
pub open spec fn line_end(text: Seq<char>) -> int
    decreases text.len(),
{
    if text.len() == 0 || text[0] == '\n' {
        0
    } else {
        1 + line_end(text.drop_first())
    }
}

/// `line` without the carriage return that it ends in, if it ends in one.
pub open spec fn without_return(line: Seq<char>) -> Seq<char> {
    if line.len() > 0 && line.last() == '\r' {
        line.drop_last()
    } else {
        line
    }
}

/// The lines of `text`. A line ends with a line feed, or with a carriage
/// return and a line feed; neither belongs to the line. What follows the
/// last line feed is a line too unless it is empty, and keeps a carriage
/// return that it ends in.
pub open spec fn lines_of(text: Seq<char>) -> Seq<Seq<char>>
    decreases text.len(),
{
    let end = line_end(text);
    if text.len() == 0 {
        Seq::empty()
    } else if 0 <= end < text.len() {
        seq![without_return(text.take(end))] + lines_of(text.skip(end + 1))
    } else {
        seq![text]
    }
}

/// `lines` with a line feed between each two of them.
pub open spec fn joined(lines: Seq<Seq<char>>) -> Seq<char>
    decreases lines.len(),
{
    if lines.len() == 0 {
        Seq::empty()
    } else if lines.len() == 1 {
        lines[0]
    } else {
        joined(lines.drop_last()) + seq!['\n'] + lines.last()
    }
}

/// Whether none of `lines` holds a line feed.
pub open spec fn no_line_feeds(lines: Seq<Seq<char>>) -> bool {
    forall|i: int, j: int|
        0 <= i < lines.len() && 0 <= j < lines[i].len() ==> (#[trigger] lines[i][j]) != '\n'
}

/// The final component of `path` as `std::path::Path` tells it, if the path
/// has one. Where a component ends is for `Path` to say; the contracts rely
/// on nothing but that one path has one name.
pub uninterp spec fn file_name_of(path: Seq<char>) -> Option<Seq<char>>;

/// No line feed stands before the end of the first line, and one stands at
/// it unless the text ends there.
pub proof fn lemma_line_end(text: Seq<char>)
    ensures
        0 <= line_end(text) <= text.len(),
        forall|i: int| 0 <= i < line_end(text) ==> text[i] != '\n',
        line_end(text) < text.len() ==> text[line_end(text)] == '\n',
    decreases text.len(),
{
    if text.len() > 0 && text[0] != '\n' {
        let rest = text.drop_first();
        lemma_line_end(rest);
        assert forall|i: int| 0 <= i < line_end(text) implies text[i] != '\n' by {
            if i > 0 {
                assert(rest[i - 1] == text[i]);
            }
        }
    }
}

/// No line of a text holds a line feed.
pub proof fn lemma_lines_hold_no_line_feed(text: Seq<char>)
    ensures
        no_line_feeds(lines_of(text)),
    decreases text.len(),
{
    let end = line_end(text);
    lemma_line_end(text);
    if text.len() > 0 && end < text.len() {
        let rest = lines_of(text.skip(end + 1));
        lemma_lines_hold_no_line_feed(text.skip(end + 1));
        let lines = lines_of(text);
        assert forall|i: int, j: int| 0 <= i < lines.len() && 0 <= j < lines[i].len() implies (
        #[trigger] lines[i][j]) != '\n' by {
            if i == 0 {
                assert(lines[0][j] == text[j]);
            } else {
                assert(lines[i] == rest[i - 1]);
                assert(rest[i - 1][j] != '\n');
            }
        }
    }
}

/// A text without a line feed is one line to its end; followed by a line
/// feed and more text, it is the first line of the whole.
pub proof fn lemma_line_end_of_first_line(line: Seq<char>, rest: Seq<char>)
    requires
        forall|i: int| 0 <= i < line.len() ==> line[i] != '\n',
    ensures
        line_end(line) == line.len(),
        line_end(line + seq!['\n'] + rest) == line.len(),
    decreases line.len(),
{
    let whole = line + seq!['\n'] + rest;
    if line.len() > 0 {
        let shorter = line.drop_first();
        lemma_line_end_of_first_line(shorter, rest);
        assert(whole.drop_first() == shorter + seq!['\n'] + rest);
        assert(whole[0] == line[0]);
    } else {
        assert(whole[0] == '\n');
    }
}

/// The text of two lines or more is the first line, a line feed, and the
/// text of the other lines.
pub proof fn lemma_joined_from_front(lines: Seq<Seq<char>>)
    requires
        lines.len() >= 2,
    ensures
        joined(lines) == lines[0] + seq!['\n'] + joined(lines.drop_first()),
    decreases lines.len(),
{
    if lines.len() == 2 {
        assert(lines.drop_last() == seq![lines[0]]);
        assert(lines.drop_first() == seq![lines[1]]);
        assert(joined(lines.drop_last()) == lines[0]);
        assert(joined(lines.drop_first()) == lines[1]);
    } else {
        lemma_joined_from_front(lines.drop_last());
        assert(lines.drop_last().drop_first() == lines.drop_first().drop_last());
        assert(lines.drop_last()[0] == lines[0]);
        assert(lines.drop_first().last() == lines.last());
        assert(joined(lines) == lines[0] + seq!['\n'] + joined(lines.drop_first()));
    }
}

/// The lines of `text`, as `str::lines` of the standard library yields
/// them. Its documentation gives the rule that `lines_of` writes down:
/// lines end at a line feed or at a carriage return followed by a line
/// feed, the ending is not part of the line, the last ending may be
/// missing, and a carriage return at the very end belongs to the last line.
#[verifier::external_body]
pub(crate) fn split_lines(text: &str) -> (lines: Vec<String>)
    ensures
        lines.deep_view() == lines_of(text@),
{
    text.lines().map(String::from).collect()
}

/// The final component of `path`, from `Path::file_name` of the standard
/// library. Nothing is claimed of it but that it depends on the path alone.
#[verifier::external_body]
pub(crate) fn file_name(path: &str) -> (name: Option<String>)
    ensures
        name.deep_view() == file_name_of(path@),
{
    let name = Path::new(path).file_name()?;
    Some(name.to_str()?.to_owned())
}

/// Joins `lines` into one text, with a line feed between each two of them.
pub fn join_lines(lines: &Vec<String>) -> (text: String)
    ensures
        text@ == joined(lines.deep_view()),
{
    let mut text = String::new();
    let mut i: usize = 0;
    while i < lines.len()
        invariant
            i <= lines.len(),
            text@ == joined(lines.deep_view().take(i as int)),
        decreases lines.len() - i,
    {
        let ghost before = lines.deep_view().take(i as int);
        let ghost now = lines.deep_view().take(i + 1);
        proof {
            assert(now.drop_last() == before);
            assert(now.last() == lines[i as int]@);
        }
        if i > 0 {
            proof {
                reveal_strlit("\n");
                assert("\n"@ == seq!['\n']);
            }
            text.append("\n");
        } else {
            assert(text@ + lines[i as int]@ == lines[i as int]@);
        }
        text.append(lines[i].as_str());
        i += 1;
    }
    assert(lines.deep_view().take(lines.len() as int) == lines.deep_view());
    text
}

} // verus!
