//! Minimal string-carrying error used for top-level reporting.

use vstd::prelude::*;

verus! {

/// Error reported by top-level functions of this library.
#[derive(Debug)]
pub struct Error {
    pub message: String,
}

impl Error {
    /// Creates an error carrying the given message.
    pub fn new(msg: String) -> (r: Error)
        ensures
            r.message@ == msg@,
    {
        Error { message: msg }
    }
}

impl From<String> for Error {
    fn from(s: String) -> (r: Error) {
        Error { message: s }
    }
}

impl vstd::std_specs::convert::FromSpecImpl<String> for Error {
    open spec fn obeys_from_spec() -> bool {
        true
    }

    open spec fn from_spec(s: String) -> Error {
        Error { message: s }
    }
}

impl From<&str> for Error {
    fn from(s: &str) -> (r: Error)
        ensures
            r.message@ == s@,
    {
        Error { message: s.to_owned() }
    }
}

impl vstd::std_specs::convert::FromSpecImpl<&str> for Error {
    open spec fn obeys_from_spec() -> bool {
        false
    }

    open spec fn from_spec(s: &str) -> Error {
        choose|e: Error| e.message@ == s@
    }
}

} // verus!
