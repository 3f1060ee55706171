//! The error value reported by the decision functions.

use vstd::prelude::*;

verus! {

/// A failure description carried up to the caller, who prints it.
#[derive(Debug)]
pub struct Error {
    message: String,
}

impl Error {
    /// The message this error carries.
    pub closed spec fn spec_message(&self) -> Seq<char> {
        self.message@
    }

    /// Wraps a human-readable message.
    pub fn new(message: &str) -> (e: Self)
        ensures
            e.spec_message() == message@,
    {
        Error { message: message.to_owned() }
    }

    /// The message given at construction.
    pub fn message(&self) -> (m: &String)
        ensures
            m@ == self.spec_message(),
    {
        &self.message
    }
}

} // verus!
