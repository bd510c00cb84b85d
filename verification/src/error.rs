//! The error that a failed bootstrap reports to the window.

use vstd::prelude::*;

verus! {

/// A bootstrap failure, carrying the text shown to the user.
pub enum BootError {
    Message(String),
}

impl View for BootError {
    type V = Seq<char>;

    open spec fn view(&self) -> Seq<char> {
        match self {
            BootError::Message(m) => m@,
        }
    }
}

impl BootError {
    /// The text shown to the user.
    pub fn message(&self) -> (m: String)
        ensures
            m@ == self@,
    {
        match self {
            BootError::Message(m) => m.clone(),
        }
    }
}

} // verus!
