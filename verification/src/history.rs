//! The history of recently opened files: an ordered list of distinct paths,
//! the most recently left first, with a cursor that moves round the part of
//! it that the sidebar shows.

use crate::keys::Direction;
use vstd::arithmetic::div_mod::{
    lemma_add_mod_noop, lemma_mod_add_multiples_vanish, lemma_mod_self_0,
    lemma_mod_sub_multiples_vanish, lemma_mod_twice, lemma_small_mod, lemma_sub_mod_noop,
};
use vstd::prelude::*;

verus! {

/// The number of entries that the sidebar shows and the cursor reaches.
pub const VISIBLE_RECENT: usize = 10;

/// The size of the visible window of a history of `len` entries.
pub open spec fn visible_count(len: nat) -> nat {
    if len < VISIBLE_RECENT {
        len
    } else {
        VISIBLE_RECENT as nat
    }
}

/// The history after the active path changed from `old_path` to `new_path`:
/// the path that was left goes to the front, unless it was not left at all or
/// is in the history already.
pub open spec fn recorded(
    history: Seq<Seq<char>>,
    old_path: Seq<char>,
    new_path: Seq<char>,
) -> Seq<Seq<char>> {
    if old_path != new_path && !history.contains(old_path) {
        seq![old_path] + history
    } else {
        history
    }
}

/// The cursor after one step in a window of `count` entries: one entry up or
/// down, from the last entry on to the first and from the first back to the
/// last. In an empty window the cursor stays.
pub open spec fn moved(cursor: int, count: int, direction: Direction) -> int {
    if count <= 0 {
        cursor
    } else {
        match direction {
            Direction::Down => (cursor + 1) % count,
            Direction::Up => (cursor - 1) % count,
        }
    }
}

/// The cursor after `steps` steps in one direction.
pub open spec fn moved_by(cursor: int, count: int, direction: Direction, steps: nat) -> int
    decreases steps,
{
    if steps == 0 {
        cursor
    } else {
        moved(moved_by(cursor, count, direction, (steps - 1) as nat), count, direction)
    }
}

/// The active path and the history after the active path was changed to each
/// of `targets` in turn.
pub open spec fn after_changes(
    current: Seq<char>,
    history: Seq<Seq<char>>,
    targets: Seq<Seq<char>>,
) -> (Seq<char>, Seq<Seq<char>>)
    decreases targets.len(),
{
    if targets.len() == 0 {
        (current, history)
    } else {
        let before = after_changes(current, history, targets.drop_last());
        (targets.last(), recorded(before.1, before.0, targets.last()))
    }
}

/// Whether each of `targets`, at the moment the active path changes to it, is
/// a path that the history does not hold.
pub open spec fn targets_are_new(
    current: Seq<char>,
    history: Seq<Seq<char>>,
    targets: Seq<Seq<char>>,
) -> bool
    decreases targets.len(),
{
    targets.len() > 0 ==> {
        &&& targets_are_new(current, history, targets.drop_last())
        &&& !after_changes(current, history, targets.drop_last()).1.contains(targets.last())
    }
}

/// A change of path leaves a history of distinct paths distinct, and the
/// history holds the new active path afterwards exactly if it held it before.
pub proof fn lemma_recorded_distinct(
    history: Seq<Seq<char>>,
    old_path: Seq<char>,
    new_path: Seq<char>,
)
    requires
        history.no_duplicates(),
    ensures
        recorded(history, old_path, new_path).no_duplicates(),
        recorded(history, old_path, new_path).contains(new_path) <==> history.contains(new_path),
        forall|path: Seq<char>|
            history.contains(path) ==> #[trigger] recorded(history, old_path, new_path).contains(
                path,
            ),
{
    let after = recorded(history, old_path, new_path);
    if old_path != new_path && !history.contains(old_path) {
        assert forall|i: int, j: int| 0 <= i < after.len() && 0 <= j < after.len() && i != j implies after[i]
            != after[j] by {
            if i > 0 && j > 0 {
                assert(history[i - 1] != history[j - 1]);
            } else if i == 0 {
                assert(history[j - 1] == after[j]);
            } else {
                assert(history[i - 1] == after[i]);
            }
        }
        if after.contains(new_path) {
            let i = choose|i: int| 0 <= i < after.len() && after[i] == new_path;
            assert(history[i - 1] == new_path);
        }
        assert forall|path: Seq<char>| history.contains(path) implies #[trigger] after.contains(
            path,
        ) by {
            let i = choose|i: int| 0 <= i < history.len() && history[i] == path;
            assert(after[i + 1] == path);
        }
    }
}

/// However often the active path changes, and to whatever paths, a history
/// of distinct paths stays one.
pub proof fn lemma_changes_keep_history_distinct(
    current: Seq<char>,
    history: Seq<Seq<char>>,
    targets: Seq<Seq<char>>,
)
    requires
        history.no_duplicates(),
    ensures
        after_changes(current, history, targets).1.no_duplicates(),
    decreases targets.len(),
{
    if targets.len() > 0 {
        lemma_changes_keep_history_distinct(current, history, targets.drop_last());
        let before = after_changes(current, history, targets.drop_last());
        lemma_recorded_distinct(before.1, before.0, targets.last());
    }
}

/// Whether, after the active path was changed to each of `targets` in turn,
/// the history holds the active path.
pub open spec fn holds_active(
    current: Seq<char>,
    history: Seq<Seq<char>>,
    targets: Seq<Seq<char>>,
) -> bool {
    after_changes(current, history, targets).1.contains(
        after_changes(current, history, targets).0,
    )
}

/// A history that does not hold the active path never comes to hold it in
/// the course of changes to paths that are new to it; and it comes to hold
/// it with the first change to a path that it holds already.
pub proof fn lemma_changes_to_new_paths_exclude_active(
    current: Seq<char>,
    history: Seq<Seq<char>>,
    targets: Seq<Seq<char>>,
)
    requires
        history.no_duplicates(),
        !history.contains(current),
    ensures
        targets_are_new(current, history, targets) <==> (forall|n: int|
            0 <= n <= targets.len() ==> !#[trigger] holds_active(current, history, targets.take(n))),
    decreases targets.len(),
{
    assert(targets.take(targets.len() as int) == targets);
    if targets.len() == 0 {
        assert forall|n: int| 0 <= n <= targets.len() implies !#[trigger] holds_active(
            current,
            history,
            targets.take(n),
        ) by {
            assert(targets.take(n) == targets);
        }
    } else {
        let front = targets.drop_last();
        lemma_changes_to_new_paths_exclude_active(current, history, front);
        lemma_changes_keep_history_distinct(current, history, front);
        let before = after_changes(current, history, front);
        lemma_recorded_distinct(before.1, before.0, targets.last());
        assert forall|n: int| 0 <= n < targets.len() implies #[trigger] targets.take(n)
            == front.take(n) by {}
        if targets_are_new(current, history, targets) {
            assert forall|n: int| 0 <= n <= targets.len() implies !#[trigger] holds_active(
                current,
                history,
                targets.take(n),
            ) by {
                if n < targets.len() {
                    assert(targets.take(n) == front.take(n));
                }
            }
        }
        if forall|n: int|
            0 <= n <= targets.len() ==> !#[trigger] holds_active(current, history, targets.take(n)) {
            assert forall|n: int| 0 <= n <= front.len() implies !#[trigger] holds_active(
                current,
                history,
                front.take(n),
            ) by {
                assert(targets.take(n) == front.take(n));
                assert(!holds_active(current, history, targets.take(n)));
            }
            assert(!holds_active(current, history, targets.take(targets.len() as int)));
        }
    }
}

/// In a window that is not empty the cursor stays inside it, whichever way
/// it moves and wherever it started.
pub proof fn lemma_moved_in_window(cursor: int, count: int, direction: Direction)
    requires
        count > 0,
    ensures
        0 <= moved(cursor, count, direction) < count,
{
}

/// `steps` steps down move the cursor `steps` entries forward round the
/// window, and `steps` steps up as many backward.
pub proof fn lemma_moved_by(cursor: int, count: int, direction: Direction, steps: nat)
    requires
        count > 0,
        0 <= cursor < count,
    ensures
        moved_by(cursor, count, direction, steps) == match direction {
            Direction::Down => (cursor + steps) % count,
            Direction::Up => (cursor - steps) % count,
        },
    decreases steps,
{
    if steps == 0 {
        lemma_small_mod(cursor as nat, count as nat);
    } else {
        lemma_moved_by(cursor, count, direction, (steps - 1) as nat);
        match direction {
            Direction::Down => {
                lemma_add_mod_noop(cursor + steps - 1, 1, count);
                lemma_add_mod_noop((cursor + steps - 1) % count, 1, count);
                lemma_mod_twice(cursor + steps - 1, count);
            },
            Direction::Up => {
                lemma_sub_mod_noop(cursor - steps + 1, 1, count);
                lemma_sub_mod_noop((cursor - steps + 1) % count, 1, count);
                lemma_mod_twice(cursor - steps + 1, count);
            },
        }
    }
}

/// As many steps in one direction as the window has entries bring the cursor
/// back to where it started.
pub proof fn lemma_full_cycle(cursor: int, count: int, direction: Direction)
    requires
        count > 0,
        0 <= cursor < count,
    ensures
        moved_by(cursor, count, direction, count as nat) == cursor,
{
    lemma_moved_by(cursor, count, direction, count as nat);
    lemma_small_mod(cursor as nat, count as nat);
    match direction {
        Direction::Down => {
            lemma_mod_add_multiples_vanish(cursor, count);
        },
        Direction::Up => {
            lemma_mod_sub_multiples_vanish(cursor, count);
        },
    }
}

/// Whether `path` is one of `paths`.
pub fn contains_path(paths: &Vec<String>, path: &String) -> (found: bool)
    ensures
        found == paths.deep_view().contains(path@),
{
    let mut i: usize = 0;
    while i < paths.len()
        invariant
            i <= paths.len(),
            forall|j: int| 0 <= j < i ==> paths.deep_view()[j] != path@,
        decreases paths.len() - i,
    {
        if paths[i] == *path {
            assert(paths.deep_view()[i as int] == path@);
            return true;
        }
        i += 1;
    }
    false
}

/// Whether no path occurs twice among `paths`.
pub fn all_distinct(paths: &Vec<String>) -> (distinct: bool)
    ensures
        distinct == paths.deep_view().no_duplicates(),
{
    let ghost view = paths.deep_view();
    let mut i: usize = 0;
    while i < paths.len()
        invariant
            i <= paths.len(),
            view == paths.deep_view(),
            forall|a: int, b: int| 0 <= a < i && a < b < view.len() ==> view[a] != view[b],
        decreases paths.len() - i,
    {
        let mut j: usize = i + 1;
        while j < paths.len()
            invariant
                i < j <= paths.len(),
                view == paths.deep_view(),
                forall|b: int| i < b < j ==> view[i as int] != view[b],
            decreases paths.len() - j,
        {
            if paths[i] == paths[j] {
                assert(view[i as int] == view[j as int]);
                return false;
            }
            j += 1;
        }
        i += 1;
    }
    assert forall|a: int, b: int| 0 <= a < view.len() && 0 <= b < view.len() && a != b implies view[a]
        != view[b] by {
        if a < b {
            assert(view[a] != view[b]);
        } else {
            assert(view[b] != view[a]);
        }
    }
    true
}

/// Notes in `history` that the active path changed from `old_path` to
/// `new_path`.
pub fn record(history: &mut Vec<String>, old_path: &String, new_path: &String)
    ensures
        final(history).deep_view() == recorded(old(history).deep_view(), old_path@, new_path@),
{
    if *old_path != *new_path {
        if !contains_path(history, old_path) {
            history.insert(0, old_path.clone());
            assert(history.deep_view() =~= seq![old_path@] + old(history).deep_view());
        }
    }
}

/// The number of entries of `history` that the sidebar shows.
pub fn visible_len(history: &Vec<String>) -> (count: usize)
    ensures
        count == visible_count(history.len() as nat),
        count <= history.len(),
        count <= VISIBLE_RECENT,
{
    if history.len() < VISIBLE_RECENT {
        history.len()
    } else {
        VISIBLE_RECENT
    }
}

/// Moves a cursor one step in a window of `count` entries.
pub fn step(cursor: usize, count: usize, direction: Direction) -> (next: usize)
    ensures
        next == moved(cursor as int, count as int, direction),
{
    if count == 0 {
        return cursor;
    }
    let at: usize = cursor % count;
    proof {
        lemma_add_mod_noop(cursor as int, 1, count as int);
        lemma_sub_mod_noop(cursor as int, 1, count as int);
        if count > 1 {
            lemma_small_mod(1, count as nat);
            if at + 1 < count {
                lemma_small_mod((at + 1) as nat, count as nat);
            } else {
                lemma_mod_self_0(count as int);
            }
            if at > 0 {
                lemma_small_mod((at - 1) as nat, count as nat);
            } else {
                lemma_mod_add_multiples_vanish(-1, count as int);
                lemma_small_mod((count - 1) as nat, count as nat);
            }
        } else {
            assert((cursor + 1) % 1 == 0 && (cursor - 1) % 1 == 0);
        }
    }
    match direction {
        Direction::Down => if at + 1 == count {
            0
        } else {
            at + 1
        },
        Direction::Up => if at == 0 {
            count - 1
        } else {
            at - 1
        },
    }
}

} // verus!
