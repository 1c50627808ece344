use core::fmt::Write;
use vstd::prelude::*;
use crate::any_error::NotAnyError;
use crate::some_error::NotSomeError;

verus! {

/// An error that keeps the debug rendering of the error it was made from.
#[derive(Clone, Debug, Eq)]
pub struct FormattedError(pub String);

/// Marks the types whose debug rendering converts into [`FormattedError`];
/// `FormattedError` itself never carries it.
pub trait NotFormattedError {}

/// The payload of `FormattedError::default()`.
pub open spec fn default_message() -> Seq<char> {
    "Default FormattedError"@
}

impl FormattedError {
    /// Wraps an owned copy of `string`.
    pub fn new(string: &str) -> (r: FormattedError)
        ensures
            r.0@ == string@,
    {
        FormattedError(string.to_owned())
    }
}

impl PartialEq for FormattedError {
    fn eq(&self, other: &FormattedError) -> (r: bool) {
        self.0 == other.0
    }
}

impl vstd::std_specs::cmp::PartialEqSpecImpl for FormattedError {
    open spec fn obeys_eq_spec() -> bool {
        true
    }

    open spec fn eq_spec(&self, other: &FormattedError) -> bool {
        self.0@ == other.0@
    }
}

impl Default for FormattedError {
    fn default() -> (r: FormattedError)
        ensures
            r.0@ == default_message(),
    {
        FormattedError::new("Default FormattedError")
    }
}

/// Relies on the `Debug` impl of `T`, written through `write!` into a fresh
/// `String`, for the rendering of `v`. Writing into a `String` never fails, and
/// an error from the `Debug` impl leaves the text written so far.
#[verifier::external_body]
fn debug_rendering<T: core::fmt::Debug>(v: &T) -> (r: String) {
    let mut text = String::new();
    let _ = write!(text, "{:?}", v);
    text
}

impl<T: core::fmt::Debug + NotFormattedError> From<T> for FormattedError {
    fn from(v: T) -> (r: FormattedError) {
        FormattedError(debug_rendering(&v))
    }
}

/// No claim: the text comes from the `Debug` impl of `T`, which proofs cannot see.
impl<T: core::fmt::Debug + NotFormattedError> vstd::std_specs::convert::FromSpecImpl<T> for FormattedError {
    open spec fn obeys_from_spec() -> bool {
        false
    }

    open spec fn from_spec(v: T) -> FormattedError {
        arbitrary()
    }
}

impl NotSomeError for FormattedError {}

impl NotAnyError for FormattedError {}

} // verus!
