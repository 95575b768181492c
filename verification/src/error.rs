//! The error of every disk operation.

use vstd::prelude::*;

verus! {

/// A disk operation that failed, with a message for the operator.
#[derive(Debug, Clone, PartialEq, Eq)]
pub struct DiskError {
    pub message: String,
}

impl View for DiskError {
    type V = Seq<char>;

    open spec fn view(&self) -> Seq<char> {
        self.message@
    }
}

impl DiskError {
    /// An error that carries `message`.
    pub fn new(message: String) -> (error: DiskError)
        ensures
            error@ == message@,
    {
        DiskError { message }
    }

    /// The message of this error.
    pub fn message(&self) -> (message: &str)
        ensures
            message@ == self@,
    {
        self.message.as_str()
    }
}

} // verus!
