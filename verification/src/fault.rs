//! What can go wrong in the layout tree and around it, and how loudly each
//! failure is reported.

use vstd::prelude::*;

verus! {

/// Why an operation did not take place.
#[derive(Clone, Copy, Debug, PartialEq, Eq, Structural, Hash)]
pub enum Fault {
    /// The view or output is not in the tree.
    NotFound,
    /// The view or output is in the tree already.
    AlreadyPresent,
    /// A fullscreen view keeps the focus.
    BlockedByFullscreen,
    /// Another interactive action is under way.
    ActionInProgress,
    /// The view is tiled, so it cannot be dragged.
    NotFloating,
    /// The tree is held elsewhere and the caller did not wait.
    LockUnavailable,
    /// The tree was left in an unknown state by a holder that failed.
    LockPoisoned,
    /// An answer that does not fit the question, or another failure inside
    /// the dispatch itself.
    Internal,
    /// Any other failure of the tree or of the engine.
    Other,
}

impl Fault {
    /// The failures that are part of normal operation and are never reported.
    pub open spec fn spec_is_benign(self) -> bool {
        self != Fault::LockPoisoned && self != Fault::Internal && self != Fault::Other
    }

    /// Whether this failure is part of normal operation.
    #[verifier::when_used_as_spec(spec_is_benign)]
    pub fn is_benign(self) -> (r: bool)
        ensures
            r == self.spec_is_benign(),
    {
        match self {
            Fault::LockPoisoned | Fault::Internal | Fault::Other => false,
            _ => true,
        }
    }
}

/// What the embedding program should put in its log once an event is dealt
/// with.
#[derive(Clone, Copy, Debug, PartialEq, Eq, Structural, Hash)]
pub enum Report {
    /// Nothing worth a line.
    Quiet,
    /// The operation failed; dispatch goes on as usual.
    Warning(Fault),
    /// The operation failed and should be looked into.
    Error(Fault),
    /// The operation could not be carried out at all; the event is given up.
    Fatal(Fault),
}

impl Report {
    /// Every failure is an error.
    pub open spec fn spec_error_of(result: Result<(), Fault>) -> Report {
        match result {
            Ok(_) => Report::Quiet,
            Err(fault) => Report::Error(fault),
        }
    }

    /// Every failure is worth a warning.
    pub open spec fn spec_warning_of(result: Result<(), Fault>) -> Report {
        match result {
            Ok(_) => Report::Quiet,
            Err(fault) => Report::Warning(fault),
        }
    }

    /// Every failure is an error, but that the view or output is not in the
    /// tree is not worth a line.
    pub open spec fn spec_error_unless_missing(result: Result<(), Fault>) -> Report {
        match result {
            Ok(_) => Report::Quiet,
            Err(Fault::NotFound) => Report::Quiet,
            Err(fault) => Report::Error(fault),
        }
    }

    /// Every failure is worth a warning, but that the view or output is not
    /// in the tree is not worth a line.
    pub open spec fn spec_warning_unless_missing(result: Result<(), Fault>) -> Report {
        match result {
            Ok(_) => Report::Quiet,
            Err(Fault::NotFound) => Report::Quiet,
            Err(fault) => Report::Warning(fault),
        }
    }

    /// The report on an operation of which every failure is an error.
    #[verifier::when_used_as_spec(spec_error_of)]
    pub fn error_of(result: Result<(), Fault>) -> (r: Report)
        ensures
            r == Self::spec_error_of(result),
    {
        match result {
            Ok(_) => Report::Quiet,
            Err(fault) => Report::Error(fault),
        }
    }

    /// The report on an operation of which every failure is worth a warning.
    #[verifier::when_used_as_spec(spec_warning_of)]
    pub fn warning_of(result: Result<(), Fault>) -> (r: Report)
        ensures
            r == Self::spec_warning_of(result),
    {
        match result {
            Ok(_) => Report::Quiet,
            Err(fault) => Report::Warning(fault),
        }
    }

    /// The report on an operation that may find its view or output gone:
    /// that is passed over, every other failure is an error.
    #[verifier::when_used_as_spec(spec_error_unless_missing)]
    pub fn error_unless_missing(result: Result<(), Fault>) -> (r: Report)
        ensures
            r == Self::spec_error_unless_missing(result),
    {
        match result {
            Ok(_) => Report::Quiet,
            Err(Fault::NotFound) => Report::Quiet,
            Err(fault) => Report::Error(fault),
        }
    }

    /// The report on an operation that may find its view or output gone:
    /// that is passed over, every other failure is worth a warning.
    #[verifier::when_used_as_spec(spec_warning_unless_missing)]
    pub fn warning_unless_missing(result: Result<(), Fault>) -> (r: Report)
        ensures
            r == Self::spec_warning_unless_missing(result),
    {
        match result {
            Ok(_) => Report::Quiet,
            Err(Fault::NotFound) => Report::Quiet,
            Err(fault) => Report::Warning(fault),
        }
    }
}

/// Whether the engine should keep the event from the client.
#[derive(Clone, Copy, Debug, PartialEq, Eq, Structural, Hash)]
pub enum Verdict {
    /// The event is dealt with; the client does not see it.
    Consumed,
    /// The event goes on to the client.
    PassThrough,
}

impl Verdict {
    pub open spec fn spec_as_bool(self) -> bool {
        self == Verdict::Consumed
    }

    /// The flag that the engine expects: `true` for a consumed event.
    #[verifier::when_used_as_spec(spec_as_bool)]
    pub fn as_bool(self) -> (r: bool)
        ensures
            r == self.spec_as_bool(),
    {
        match self {
            Verdict::Consumed => true,
            Verdict::PassThrough => false,
        }
    }
}

} // verus!
