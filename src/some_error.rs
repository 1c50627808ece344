use vstd::prelude::*;
use vstd::std_specs::convert::FromSpec;
use crate::any_error::NotAnyError;
use crate::formatted_error::NotFormattedError;

verus! {

/// A zero-sized error that only records that some error happened.
#[derive(Copy, Clone, Debug, PartialEq, Eq, Structural)]
pub struct SomeError;

/// Marks the types that convert into [`SomeError`]; `SomeError` itself never carries it.
pub trait NotSomeError {}

impl Default for SomeError {
    fn default() -> (r: SomeError)
        ensures
            r == SomeError,
    {
        SomeError
    }
}

impl<T: NotSomeError> From<T> for SomeError {
    fn from(v: T) -> (r: SomeError)
        ensures
            r == SomeError,
    {
        SomeError
    }
}

impl<T: NotSomeError> vstd::std_specs::convert::FromSpecImpl<T> for SomeError {
    open spec fn obeys_from_spec() -> bool {
        true
    }

    open spec fn from_spec(v: T) -> SomeError {
        SomeError
    }
}

impl NotFormattedError for SomeError {}

impl NotAnyError for SomeError {}

/// All values of `SomeError` are equal.
pub proof fn lemma_unit_errors_equal(a: SomeError, b: SomeError)
    ensures
        a == b,
{
}

/// Any value of a marked type converts into `SomeError`, and the result equals
/// every other `SomeError`, among them the default one.
pub proof fn lemma_conversion_gives_the_unit_error<T: NotSomeError>(v: T, other: SomeError)
    ensures
        <SomeError as FromSpec<T>>::obeys_from_spec(),
        <SomeError as FromSpec<T>>::from_spec(v) == other,
{
}

} // verus!
