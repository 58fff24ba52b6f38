//! The library's plain error type, carried by fallible operations whose
//! failure is described by a message.

use vstd::prelude::*;

verus! {

/// An error described by a message.
#[derive(Debug)]
pub struct Error {
    /// What went wrong.
    pub msg: String,
}

impl Error {
    /// Wraps a message as an error.
    pub fn new(msg: &str) -> (e: Self)
        ensures
            e.msg@ == msg@,
    {
        Error { msg: msg.to_owned() }
    }

    /// The error's message.
    pub fn message(&self) -> (r: &str)
        ensures
            r@ == self.msg@,
    {
        self.msg.as_str()
    }
}

} // verus!
