//! The result codes of the store, and how a failure is classified.

use vstd::prelude::*;
use vstd::string::*;

verus! {

/// The kinds of failure that the store reports.
#[derive(Clone, Copy, Debug, PartialEq, Eq, Structural)]
pub enum ErrorKind {
    /// A record that the request refers to does not exist.
    ObjectNotFound,
    /// The record that the request creates exists already.
    ObjectAlreadyExists,
    /// The request is malformed.
    InvalidRequest,
    /// The store met a condition that it cannot explain.
    InternalError,
    /// The store cannot be reached, or is not ready yet.
    ServiceUnavailable,
}

/// What a failure means for the step that met it.
#[derive(Clone, Copy, Debug, PartialEq, Eq, Structural)]
pub enum FailureClass {
    /// The store may answer later: the step is tried again.
    Transient,
    /// Trying again would not help: the run is given up.
    Permanent,
}

impl ErrorKind {
    /// Only an unreachable store is worth another attempt.
    pub open spec fn class_spec(self) -> FailureClass {
        if self is ServiceUnavailable {
            FailureClass::Transient
        } else {
            FailureClass::Permanent
        }
    }

    /// The words that stand for this kind in a message.
    pub open spec fn label_spec(self) -> Seq<char> {
        match self {
            ErrorKind::ObjectNotFound => "object not found"@,
            ErrorKind::ObjectAlreadyExists => "object already exists"@,
            ErrorKind::InvalidRequest => "invalid request"@,
            ErrorKind::InternalError => "internal error"@,
            ErrorKind::ServiceUnavailable => "service unavailable"@,
        }
    }

    /// Classifies a failure of this kind.
    pub fn class(self) -> (class: FailureClass)
        ensures
            class == self.class_spec(),
    {
        match self {
            ErrorKind::ServiceUnavailable => FailureClass::Transient,
            _ => FailureClass::Permanent,
        }
    }

    /// The words that stand for this kind in a message.
    pub fn label(self) -> (label: &'static str)
        ensures
            label@ == self.label_spec(),
    {
        match self {
            ErrorKind::ObjectNotFound => "object not found",
            ErrorKind::ObjectAlreadyExists => "object already exists",
            ErrorKind::InvalidRequest => "invalid request",
            ErrorKind::InternalError => "internal error",
            ErrorKind::ServiceUnavailable => "service unavailable",
        }
    }
}

/// A failure as the store reports it: its kind, and the store's own words.
#[derive(Debug)]
pub struct StoreError {
    pub kind: ErrorKind,
    pub message: String,
}

/// The mathematical value of a [`StoreError`].
pub struct ErrorView {
    pub kind: ErrorKind,
    pub message: Seq<char>,
}

impl ErrorView {
    /// The kind's label, a colon and a space, then the store's words.
    pub open spec fn describe(self) -> Seq<char> {
        self.kind.label_spec() + ": "@ + self.message
    }
}

impl View for StoreError {
    type V = ErrorView;

    open spec fn view(&self) -> ErrorView {
        ErrorView { kind: self.kind, message: self.message@ }
    }
}

impl Clone for StoreError {
    fn clone(&self) -> (copy: Self)
        ensures
            copy@ == self@,
    {
        StoreError { kind: self.kind, message: self.message.clone() }
    }
}

impl StoreError {
    /// A failure of the given kind with the given words.
    pub fn new(kind: ErrorKind, message: &str) -> (error: StoreError)
        ensures
            error@ == (ErrorView { kind, message: message@ }),
    {
        StoreError { kind, message: String::from_str(message) }
    }

    /// Classifies this failure: transient if and only if the store was
    /// unavailable.
    pub fn class(&self) -> (class: FailureClass)
        ensures
            class == self@.kind.class_spec(),
            class is Transient <==> self@.kind is ServiceUnavailable,
    {
        self.kind.class()
    }

    /// This failure in words.
    pub fn describe(&self) -> (text: String)
        ensures
            text@ == self@.describe(),
    {
        let mut text = String::from_str(self.kind.label());
        text.append(": ");
        text.append(self.message.as_str());
        text
    }
}

} // verus!
