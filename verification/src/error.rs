//! Core error type. `message` renders the bare text so that platform adapters can
//! surface it to the UI as it is.

use vstd::prelude::*;

verus! {

#[derive(Debug, Clone)]
pub struct CoreError(pub String);

/// The result of a core operation.
pub type CoreResult<T> = Result<T, CoreError>;

impl CoreError {
    /// The bare message.
    pub fn message(&self) -> (r: String)
        ensures
            r@ == self.0@,
    {
        self.0.clone()
    }
}

impl From<String> for CoreError {
    fn from(s: String) -> (r: Self) {
        CoreError(s)
    }
}

impl vstd::std_specs::convert::FromSpecImpl<String> for CoreError {
    open spec fn obeys_from_spec() -> bool {
        true
    }

    open spec fn from_spec(s: String) -> CoreError {
        CoreError(s)
    }
}

impl<'a> From<&'a str> for CoreError {
    fn from(s: &'a str) -> (r: Self)
        ensures
            r.0@ == s@,
    {
        CoreError::from_text(s)
    }
}

/// Many strings could hold the text of a `&str`, so that the error is given by its text,
/// in the conversion's own `ensures`, and not as a value.
impl<'a> vstd::std_specs::convert::FromSpecImpl<&'a str> for CoreError {
    open spec fn obeys_from_spec() -> bool {
        false
    }

    open spec fn from_spec(s: &'a str) -> CoreError {
        choose|e: CoreError| e.0@ == s@
    }
}

impl From<CoreError> for String {
    fn from(e: CoreError) -> (r: Self) {
        e.0
    }
}

impl vstd::std_specs::convert::FromSpecImpl<CoreError> for String {
    open spec fn obeys_from_spec() -> bool {
        true
    }

    open spec fn from_spec(e: CoreError) -> String {
        e.0
    }
}

impl CoreError {
    /// An error with the given message.
    pub fn from_text(s: &str) -> (r: CoreError)
        ensures
            r.0@ == s@,
    {
        CoreError(s.to_owned())
    }
}

} // verus!
