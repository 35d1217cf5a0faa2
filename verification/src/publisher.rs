//! The cell through which a run's status reaches its observers.
//!
//! The cell is a watch channel: it holds one value, the run writes it, and
//! any number of observers read it or wait for it to change. The publisher
//! sees to it that the run writes once, and only a status that a run ends
//! with. It holds the channel's only writing end, and never clones it: what
//! the cell holds changes through the publisher alone.

use crate::status::{PopulateStatus, StatusView};
use vstd::prelude::*;

verus! {

/// The writing end of a watch channel. What the channel holds is named by
/// [`held`].
#[verifier::external_type_specification]
#[verifier::external_body]
#[verifier::reject_recursive_types(T)]
pub struct ExSender<T>(tokio::sync::watch::Sender<T>);

/// A reading end of a watch channel. Nothing is known of what is inside.
#[verifier::external_type_specification]
#[verifier::external_body]
#[verifier::reject_recursive_types(T)]
pub struct ExReceiver<T>(tokio::sync::watch::Receiver<T>);

/// The value that the channel of this writing end holds: the one that
/// `tokio::sync::watch::Sender::borrow` shows, which is the value that the
/// channel was made with until a value is sent, and the last value sent after
/// that.
pub uninterp spec fn held(sender: tokio::sync::watch::Sender<PopulateStatus>) -> StatusView;

/// Calls `tokio::sync::watch::channel`.
///
/// Not proved: that the channel holds the value that it was made with.
/// Nothing is claimed of the reading end.
#[verifier::external_body]
fn watch_channel(initial: PopulateStatus) -> (ends: (
    tokio::sync::watch::Sender<PopulateStatus>,
    tokio::sync::watch::Receiver<PopulateStatus>,
))
    ensures
        held(ends.0) == initial@,
{
    tokio::sync::watch::channel(initial)
}

/// Calls `tokio::sync::watch::Sender::send`, and tells whether it returned
/// `Ok`.
///
/// Not proved: that the channel holds the status if the call returned `Ok`,
/// and what it held before if not. The call returns `Ok` when a reading end
/// is left, which depends on what the holders of the reading ends have done:
/// of that nothing is claimed. The call waits while a holder of a reading end
/// keeps a borrow of the value.
#[verifier::external_body]
fn watch_send(
    sender: &mut tokio::sync::watch::Sender<PopulateStatus>,
    status: PopulateStatus,
) -> (delivered: bool)
    ensures
        delivered ==> held(*final(sender)) == status@,
        !delivered ==> held(*final(sender)) == held(*old(sender)),
{
    sender.send(status).is_ok()
}

/// How an attempt to publish a status ended.
#[derive(Clone, Copy, Debug, PartialEq, Eq, Structural)]
pub enum Publication {
    /// The status is in the cell, for the observers that are there and for
    /// those that come later.
    Delivered,
    /// No observer holds a handle any more, and the status was dropped. This
    /// is no failure: it is for the caller to make a note of.
    NobodyWaiting,
    /// The status is not one that a run ends with. Nothing was written.
    NotTerminal,
    /// A status was published before. Nothing was written.
    AlreadyPublished,
}

impl Publication {
    /// How the publication of a terminal status ended, given whether the
    /// cell took it.
    pub fn of_delivery(delivered: bool) -> (publication: Publication)
        ensures
            publication == if delivered {
                Publication::Delivered
            } else {
                Publication::NobodyWaiting
            },
    {
        if delivered {
            Publication::Delivered
        } else {
            Publication::NobodyWaiting
        }
    }
}

/// The writing end of the cell. It starts out showing that the run has not
/// ended, and takes one status after that: the one that the run ends with.
pub struct StatusPublisher {
    sender: tokio::sync::watch::Sender<PopulateStatus>,
    published: Option<PopulateStatus>,
}

impl StatusPublisher {
    /// The status that was published, if one was.
    pub closed spec fn published(&self) -> Option<StatusView> {
        match self.published {
            Some(status) => Some(status@),
            None => None,
        }
    }

    /// The status that the cell holds: what its observers see.
    pub closed spec fn shown(&self) -> StatusView {
        held(self.sender)
    }

    /// What holds of a publisher from the moment it is made: the cell shows
    /// that the run has not ended, or it shows the status that was published.
    pub open spec fn consistent(&self) -> bool {
        self.shown() is NotDone || self.published() == Some(self.shown())
    }

    /// Makes the cell, showing that the run has not ended, and returns its
    /// writing end with a first handle for observers. A handle can be cloned.
    pub fn new() -> (made: (StatusPublisher, tokio::sync::watch::Receiver<PopulateStatus>))
        ensures
            made.0.shown() is NotDone,
            made.0.published() is None,
    {
        let (sender, receiver) = watch_channel(PopulateStatus::NotDone);
        (StatusPublisher { sender, published: None }, receiver)
    }

    /// Whether a status was published.
    pub fn has_published(&self) -> (published: bool)
        ensures
            published == self.published() is Some,
    {
        self.published.is_some()
    }

    /// Publishes the status that the run ended with.
    ///
    /// Only the first terminal status is written to the cell: a status that
    /// is not terminal, and any status after the first, is turned away and
    /// changes nothing. Whether the status reached an observer is for the
    /// cell to say; either way it counts as published. The cell shows the
    /// status from then on if it took it, and what it showed before if it
    /// did not.
    pub fn publish(&mut self, status: PopulateStatus) -> (publication: Publication)
        ensures
            old(self).published() is Some ==> {
                &&& publication is AlreadyPublished
                &&& final(self).published() == old(self).published()
                &&& final(self).shown() == old(self).shown()
            },
            old(self).published() is None && !status@.is_terminal() ==> {
                &&& publication is NotTerminal
                &&& final(self).published() is None
                &&& final(self).shown() == old(self).shown()
            },
            old(self).published() is None && status@.is_terminal() ==> {
                &&& publication is Delivered || publication is NobodyWaiting
                &&& final(self).published() == Some(status@)
                &&& final(self).shown() == if publication is Delivered {
                    status@
                } else {
                    old(self).shown()
                }
            },
            old(self).consistent() ==> final(self).consistent(),
    {
        if self.published.is_some() {
            Publication::AlreadyPublished
        } else if !status.is_terminal() {
            Publication::NotTerminal
        } else {
            self.published = Some(status.clone());
            let delivered = watch_send(&mut self.sender, status);
            Publication::of_delivery(delivered)
        }
    }
}

} // verus!
