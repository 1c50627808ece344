//! Converting a shape into itself goes through std's reflexive `From`, never
//! through the shape's blanket impl, since the shape lacks its own marker.
use vstd::prelude::*;
use crate::any_error::AnyError;
use crate::formatted_error::FormattedError;
use crate::some_error::SomeError;

verus! {

/// Relies on std's `impl<T> From<T> for T`, documented to return its argument unchanged.
pub assume_specification<Source>[ <Source as core::convert::From<Source>>::from ](t: Source) -> (r: Source)
    ensures
        r == t,
;

/// Converting a `SomeError` into `SomeError` hands back the same value.
pub proof fn lemma_unit_error_into_itself(e: SomeError, r: SomeError)
    requires
        call_ensures(<SomeError as From<SomeError>>::from, (e,), r),
    ensures
        r == e,
{
}

/// Converting a `FormattedError` into `FormattedError` hands back the same value.
pub proof fn lemma_formatted_error_into_itself(e: FormattedError, r: FormattedError)
    requires
        call_ensures(<FormattedError as From<FormattedError>>::from, (e,), r),
    ensures
        r == e,
{
}

/// Converting an `AnyError` into `AnyError` hands back the same value.
pub proof fn lemma_any_error_into_itself(e: AnyError, r: AnyError)
    requires
        call_ensures(<AnyError as From<AnyError>>::from, (e,), r),
    ensures
        r == e,
{
}

} // verus!
