//! The errors of the store and their descriptions.

use vstd::prelude::*;
use vstd::std_specs::cmp::PartialEqSpecImpl;
use vstd::string::StringExecFns;

verus! {

/// What a [`KvError`] stands for in contracts.
pub ghost enum ErrorView {
    NotFound(Seq<char>, Seq<char>),
    InvalidCommand(Seq<char>),
    Internal(Seq<char>),
}

impl ErrorView {
    /// The description of the error that a response carries.
    pub open spec fn message(self) -> Seq<char> {
        match self {
            ErrorView::NotFound(table, key) => "Not found for table: "@ + table + ", key: "@ + key,
            ErrorView::InvalidCommand(what) => "Cannot parse command: "@ + what,
            ErrorView::Internal(what) => "Internal error: "@ + what,
        }
    }
}

/// What can go wrong while a command is served.
#[derive(Debug, Eq)]
pub enum KvError {
    /// A read asked for a key that the table does not hold: table, then key.
    NotFound(String, String),
    /// The request itself is malformed or incomplete.
    InvalidCommand(String),
    /// A command that is not served yet, or any other failure.
    Internal(String),
}

impl View for KvError {
    type V = ErrorView;

    open spec fn view(&self) -> ErrorView {
        match self {
            KvError::NotFound(table, key) => ErrorView::NotFound(table@, key@),
            KvError::InvalidCommand(what) => ErrorView::InvalidCommand(what@),
            KvError::Internal(what) => ErrorView::Internal(what@),
        }
    }
}

impl PartialEq for KvError {
    fn eq(&self, other: &KvError) -> (same: bool) {
        match (self, other) {
            (KvError::NotFound(t1, k1), KvError::NotFound(t2, k2)) => *t1 == *t2 && *k1 == *k2,
            (KvError::InvalidCommand(a), KvError::InvalidCommand(b)) => *a == *b,
            (KvError::Internal(a), KvError::Internal(b)) => *a == *b,
            _ => false,
        }
    }
}

impl PartialEqSpecImpl for KvError {
    open spec fn obeys_eq_spec() -> bool {
        true
    }

    open spec fn eq_spec(&self, other: &KvError) -> bool {
        self@ == other@
    }
}

impl KvError {
    /// The description of the error, as a response carries it.
    pub fn message(&self) -> (text: String)
        ensures
            text@ == self@.message(),
    {
        match self {
            KvError::NotFound(table, key) => {
                let mut text = String::from_str("Not found for table: ");
                text.append(table.as_str());
                text.append(", key: ");
                text.append(key.as_str());
                text
            },
            KvError::InvalidCommand(what) => {
                let mut text = String::from_str("Cannot parse command: ");
                text.append(what.as_str());
                text
            },
            KvError::Internal(what) => {
                let mut text = String::from_str("Internal error: ");
                text.append(what.as_str());
                text
            },
        }
    }
}

} // verus!
