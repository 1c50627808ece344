//! The exclusion markers for std types that commonly end up as errors.
//!
//! A crate that uses this library can mark its own types, but not std's.
use vstd::prelude::*;
use crate::any_error::NotAnyError;
use crate::formatted_error::NotFormattedError;
use crate::some_error::NotSomeError;

verus! {

// std error types that vstd does not declare; the declarations claim nothing.
#[verifier::external_type_specification]
#[verifier::external_body]
pub struct ExParseIntError(core::num::ParseIntError);

#[verifier::external_type_specification]
#[verifier::external_body]
pub struct ExUtf8Error(core::str::Utf8Error);

#[verifier::external_type_specification]
#[verifier::external_body]
pub struct ExFromUtf8Error(std::string::FromUtf8Error);

#[verifier::external_type_specification]
#[verifier::external_body]
pub struct ExFmtError(core::fmt::Error);

#[verifier::external_type_specification]
#[verifier::external_body]
pub struct ExIoError(std::io::Error);

#[verifier::external_type_specification]
#[verifier::external_body]
pub struct ExParseBoolError(core::str::ParseBoolError);

#[verifier::external_type_specification]
#[verifier::external_body]
pub struct ExParseCharError(core::char::ParseCharError);

impl NotSomeError for () {}
impl NotSomeError for bool {}
impl NotSomeError for char {}
impl NotSomeError for u8 {}
impl NotSomeError for u16 {}
impl NotSomeError for u32 {}
impl NotSomeError for u64 {}
impl NotSomeError for u128 {}
impl NotSomeError for usize {}
impl NotSomeError for i8 {}
impl NotSomeError for i16 {}
impl NotSomeError for i32 {}
impl NotSomeError for i64 {}
impl NotSomeError for i128 {}
impl NotSomeError for isize {}
impl NotSomeError for String {}
impl<'a> NotSomeError for &'a str {}
impl NotSomeError for core::convert::Infallible {}
impl NotSomeError for core::num::TryFromIntError {}
impl NotSomeError for std::collections::TryReserveError {}
impl NotSomeError for core::num::ParseIntError {}
impl NotSomeError for core::str::Utf8Error {}
impl NotSomeError for std::string::FromUtf8Error {}
impl NotSomeError for core::fmt::Error {}
impl NotSomeError for std::io::Error {}
impl NotSomeError for core::str::ParseBoolError {}
impl NotSomeError for core::char::ParseCharError {}

impl NotFormattedError for () {}
impl NotFormattedError for bool {}
impl NotFormattedError for char {}
impl NotFormattedError for u8 {}
impl NotFormattedError for u16 {}
impl NotFormattedError for u32 {}
impl NotFormattedError for u64 {}
impl NotFormattedError for u128 {}
impl NotFormattedError for usize {}
impl NotFormattedError for i8 {}
impl NotFormattedError for i16 {}
impl NotFormattedError for i32 {}
impl NotFormattedError for i64 {}
impl NotFormattedError for i128 {}
impl NotFormattedError for isize {}
impl NotFormattedError for String {}
impl<'a> NotFormattedError for &'a str {}
impl NotFormattedError for core::convert::Infallible {}
impl NotFormattedError for core::num::TryFromIntError {}
impl NotFormattedError for std::collections::TryReserveError {}
impl NotFormattedError for core::num::ParseIntError {}
impl NotFormattedError for core::str::Utf8Error {}
impl NotFormattedError for std::string::FromUtf8Error {}
impl NotFormattedError for core::fmt::Error {}
impl NotFormattedError for std::io::Error {}
impl NotFormattedError for core::str::ParseBoolError {}
impl NotFormattedError for core::char::ParseCharError {}

impl NotAnyError for () {}
impl NotAnyError for bool {}
impl NotAnyError for char {}
impl NotAnyError for u8 {}
impl NotAnyError for u16 {}
impl NotAnyError for u32 {}
impl NotAnyError for u64 {}
impl NotAnyError for u128 {}
impl NotAnyError for usize {}
impl NotAnyError for i8 {}
impl NotAnyError for i16 {}
impl NotAnyError for i32 {}
impl NotAnyError for i64 {}
impl NotAnyError for i128 {}
impl NotAnyError for isize {}
impl NotAnyError for String {}
impl<'a> NotAnyError for &'a str {}
impl NotAnyError for core::convert::Infallible {}
impl NotAnyError for core::num::TryFromIntError {}
impl NotAnyError for std::collections::TryReserveError {}
impl NotAnyError for core::num::ParseIntError {}
impl NotAnyError for core::str::Utf8Error {}
impl NotAnyError for std::string::FromUtf8Error {}
impl NotAnyError for core::fmt::Error {}
impl NotAnyError for std::io::Error {}
impl NotAnyError for core::str::ParseBoolError {}
impl NotAnyError for core::char::ParseCharError {}

} // verus!
