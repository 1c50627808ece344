//! Catch-all error types that any other error value converts into with `?`.
//!
//! Each of the three shapes comes with a marker trait that every type but the
//! shape itself may carry. The blanket `From` impl of a shape asks for its
//! marker, so it never overlaps with the identity conversion of std.
pub mod any_error;
pub mod formatted_error;
pub mod identity;
pub mod some_error;
pub mod std_markers;

pub use any_error::{AnyError, NotAnyError};
pub use formatted_error::{FormattedError, NotFormattedError};
pub use some_error::{NotSomeError, SomeError};
