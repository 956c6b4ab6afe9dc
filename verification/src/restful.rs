//! The error value the HTTP response layer carries: a status-like code and
//! a message. Turning it into an HTTP response belongs to the web framework
//! and happens outside the library.

use vstd::prelude::*;
use crate::error::CALError;

verus! {

/// An error on its way to an HTTP response.
#[derive(Debug)]
pub struct RESTfulError {
    pub code: u16,
    pub err: String,
}

impl RESTfulError {
    /// The response for a known error kind: its code and its message.
    pub fn from_kind(kind: CALError) -> (e: Self)
        ensures
            e.code == kind.spec_code(),
            e.err@ == kind.spec_text(),
    {
        RESTfulError { code: kind.code(), err: String::from_str(kind.text()) }
    }
}

} // verus!
