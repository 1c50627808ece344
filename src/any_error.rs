use vstd::prelude::*;
use crate::some_error::NotSomeError;

verus! {

/// An error that owns the value it was made from, with its type erased.
///
/// The value sits behind `Box<dyn Any>`, which Verus cannot represent, so the
/// struct is opaque to proofs.
#[verifier::external_body]
pub struct AnyError(pub Box<dyn core::any::Any>);

/// Marks the types that [`AnyError`] can absorb; `AnyError` itself never carries it.
pub trait NotAnyError {}

/// Relies on `Box::new` and the unsizing coercion to `Box<dyn Any>` to take
/// ownership of `v` with its type erased.
#[verifier::external_body]
fn erase<T: 'static>(v: T) -> (r: AnyError) {
    AnyError(Box::new(v))
}

/// Relies on `<Box<dyn Any>>::downcast::<T>`: it hands the value out when it
/// has type `T`, and otherwise gives the same box back.
#[verifier::external_body]
fn recover<T: 'static>(e: AnyError) -> (r: Result<T, AnyError>)
    ensures
        r matches Err(back) ==> back == e,
{
    match e.0.downcast::<T>() {
        Ok(v) => Ok(*v),
        Err(b) => Err(AnyError(b)),
    }
}

impl AnyError {
    /// Takes the absorbed value back out when it has type `T`; otherwise
    /// returns this same error, payload untouched.
    pub fn downcast<T: 'static>(self) -> (r: Result<T, AnyError>)
        ensures
            r matches Err(back) ==> back == self,
    {
        recover(self)
    }
}

impl<T: 'static + NotAnyError> From<T> for AnyError {
    fn from(v: T) -> (r: AnyError) {
        erase(v)
    }
}

/// No claim: the erased value is out of the reach of proofs.
impl<T: 'static + NotAnyError> vstd::std_specs::convert::FromSpecImpl<T> for AnyError {
    open spec fn obeys_from_spec() -> bool {
        false
    }

    open spec fn from_spec(v: T) -> AnyError {
        arbitrary()
    }
}

impl Default for AnyError {
    fn default() -> (r: AnyError) {
        AnyError::from(())
    }
}

impl NotSomeError for AnyError {}

} // verus!
