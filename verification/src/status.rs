//! The status of a population run, as its observers see it.

use vstd::prelude::*;

verus! {

/// What observers of a run see: it has not ended, it ended well, or it was
/// given up for the reason named.
#[derive(Debug)]
pub enum PopulateStatus {
    NotDone,
    Done,
    Failed(String),
}

/// The mathematical value of a [`PopulateStatus`].
pub enum StatusView {
    NotDone,
    Done,
    Failed(Seq<char>),
}

impl View for PopulateStatus {
    type V = StatusView;

    open spec fn view(&self) -> StatusView {
        match self {
            PopulateStatus::NotDone => StatusView::NotDone,
            PopulateStatus::Done => StatusView::Done,
            PopulateStatus::Failed(reason) => StatusView::Failed(reason@),
        }
    }
}

impl StatusView {
    /// A terminal status is one that a run ends with.
    pub open spec fn is_terminal(self) -> bool {
        !(self is NotDone)
    }
}

impl Clone for PopulateStatus {
    fn clone(&self) -> (copy: Self)
        ensures
            copy@ == self@,
    {
        match self {
            PopulateStatus::NotDone => PopulateStatus::NotDone,
            PopulateStatus::Done => PopulateStatus::Done,
            PopulateStatus::Failed(reason) => PopulateStatus::Failed(reason.clone()),
        }
    }
}

impl PopulateStatus {
    /// Whether the run has ended.
    pub fn is_terminal(&self) -> (terminal: bool)
        ensures
            terminal == self@.is_terminal(),
    {
        match self {
            PopulateStatus::NotDone => false,
            _ => true,
        }
    }

    /// The status that a run ends with, given what it returned.
    pub fn from_result(result: Result<(), String>) -> (status: PopulateStatus)
        ensures
            status@ == (match result {
                Ok(_) => StatusView::Done,
                Err(reason) => StatusView::Failed(reason@),
            }),
    {
        match result {
            Ok(_) => PopulateStatus::Done,
            Err(reason) => PopulateStatus::Failed(reason),
        }
    }
}

} // verus!
