//! The ways in which encoding an address can fail.

use core::str::Utf8Error;
use vstd::prelude::*;
use vstd::std_specs::convert::FromSpecImpl;

verus! {

/// Declares `core::str::Utf8Error` as an opaque type, so that an error can carry one.
#[verifier::external_type_specification]
#[verifier::external_body]
pub struct ExUtf8Error(Utf8Error);

/// Why an input was rejected. At most one variant applies to any input: the
/// length is looked at first, then the prefix, then the characters from left
/// to right.
#[derive(Debug, PartialEq, Eq)]
#[allow(inconsistent_fields)]
pub enum Error<'a> {
    /// The input has neither of the two accepted lengths.
    Length { expected_either: [usize; 2], actual: usize },
    /// The input is as long as a prefixed address, but starts with something else.
    Prefix { expected: &'a str, actual: &'a str },
    /// The bytes handed in are not UTF-8 text.
    Utf8(Utf8Error),
    /// Invalid Hex character
    HexChar { value: char, index: usize },
}

/// What an [`Error`] says, as mathematical values.
#[allow(inconsistent_fields)]
pub enum ErrorView {
    Length { expected_either: Seq<nat>, actual: nat },
    Prefix { expected: Seq<char>, actual: Seq<char> },
    Utf8(Utf8Error),
    HexChar { value: char, index: nat },
}

impl<'a> View for Error<'a> {
    type V = ErrorView;

    open spec fn view(&self) -> ErrorView {
        match *self {
            Error::Length { expected_either, actual } => ErrorView::Length {
                expected_either: expected_either@.map_values(|n: usize| n as nat),
                actual: actual as nat,
            },
            Error::Prefix { expected, actual } => ErrorView::Prefix {
                expected: expected@,
                actual: actual@,
            },
            Error::Utf8(e) => ErrorView::Utf8(e),
            Error::HexChar { value, index } => ErrorView::HexChar { value, index: index as nat },
        }
    }
}

impl<'a> From<Utf8Error> for Error<'a> {
    fn from(e: Utf8Error) -> (r: Self) {
        Error::Utf8(e)
    }
}

impl<'a> FromSpecImpl<Utf8Error> for Error<'a> {
    open spec fn obeys_from_spec() -> bool {
        true
    }

    open spec fn from_spec(e: Utf8Error) -> Self {
        Error::Utf8(e)
    }
}

} // verus!
