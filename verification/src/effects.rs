//! What the controller asks of the world around it, and what it is waiting
//! for. The controller never opens a dialog or touches a file: it returns a
//! request, whoever drives it carries the request out and reports back.

use vstd::prelude::*;

verus! {

/// The operations that begin with a file dialog.
#[derive(Debug, Clone, Copy, PartialEq, Eq, Structural)]
pub enum FileOp {
    Create,
    Open,
    SaveAs,
}

/// The answer that the controller is waiting for.
#[derive(Debug, Clone, PartialEq, Eq)]
pub enum Pending {
    /// Nothing: the controller takes key events.
    Idle,
    /// The choice made in the file dialog of an operation.
    Choosing(FileOp),
    /// The outcome of writing the buffer to the active path.
    Saving,
    /// The outcome of writing to a newly chosen path.
    Writing { path: String },
    /// The content of the file that is being opened.
    Opening { path: String },
    /// The content of a path that was just written to, read back before the
    /// path becomes active.
    Reading { path: String },
    /// The content of the active path, read after the path became active.
    /// `mark_clean` tells whether the buffer counts as saved afterwards.
    Loading { mark_clean: bool },
}

/// A `Pending` with its paths as sequences of characters.
pub enum PendingView {
    Idle,
    Choosing(FileOp),
    Saving,
    Writing { path: Seq<char> },
    Opening { path: Seq<char> },
    Reading { path: Seq<char> },
    Loading { mark_clean: bool },
}

impl View for Pending {
    type V = PendingView;

    open spec fn view(&self) -> PendingView {
        match self {
            Pending::Idle => PendingView::Idle,
            Pending::Choosing(op) => PendingView::Choosing(*op),
            Pending::Saving => PendingView::Saving,
            Pending::Writing { path } => PendingView::Writing { path: path@ },
            Pending::Opening { path } => PendingView::Opening { path: path@ },
            Pending::Reading { path } => PendingView::Reading { path: path@ },
            Pending::Loading { mark_clean } => PendingView::Loading { mark_clean: *mark_clean },
        }
    }
}

/// What the driver of the controller has to do next.
#[derive(Debug, Clone, PartialEq, Eq)]
pub enum Action {
    /// Nothing: wait for the next key event.
    Wait,
    /// Let the user choose where to save, and report the choice.
    ChooseDestination,
    /// Let the user pick an existing file, and report the choice.
    ChooseExisting,
    /// Write `text` to the file at `path`, replacing what it holds, and
    /// report whether that succeeded.
    Write { path: String, text: String },
    /// Read the file at `path` as text, and report its content.
    Read { path: String },
}

/// An `Action` with its strings as sequences of characters.
pub enum ActionView {
    Wait,
    ChooseDestination,
    ChooseExisting,
    Write { path: Seq<char>, text: Seq<char> },
    Read { path: Seq<char> },
}

impl View for Action {
    type V = ActionView;

    open spec fn view(&self) -> ActionView {
        match self {
            Action::Wait => ActionView::Wait,
            Action::ChooseDestination => ActionView::ChooseDestination,
            Action::ChooseExisting => ActionView::ChooseExisting,
            Action::Write { path, text } => ActionView::Write { path: path@, text: text@ },
            Action::Read { path } => ActionView::Read { path: path@ },
        }
    }
}

/// Why a report was not acted upon.
#[derive(Debug, Clone, Copy, PartialEq, Eq, Structural)]
pub enum Error {
    /// The report answers no request that is outstanding.
    Unexpected,
    /// The file could not be written.
    WriteFailed,
    /// The file that was to be opened could not be read.
    ReadFailed,
}

/// The view of what a report led to.
pub open spec fn outcome_view(outcome: Result<Action, Error>) -> Result<ActionView, Error> {
    match outcome {
        Ok(action) => Ok(action@),
        Err(error) => Err(error),
    }
}

} // verus!
