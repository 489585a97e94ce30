//! The encoder as a method of the values that can hold an address.

use crate::error::{Error, ErrorView};
use crate::model::{checksum, outcome};
use crate::Checksum;
use core::str::Utf8Error;
use vstd::prelude::*;
use vstd::utf8::{decode_utf8, encode_utf8, encode_utf8_decode_utf8, valid_utf8};

verus! {

/// The error with which `core::str::from_utf8` turns down `bytes`, where
/// they are not UTF-8. It depends on the bytes alone.
pub uninterp spec fn utf8_error(bytes: Seq<u8>) -> Utf8Error;

/// `core::str::from_utf8` checks that the bytes are UTF-8. Where they are,
/// it returns them as a string slice, byte for byte; where they are not, it
/// returns an error that describes the first fault.
pub assume_specification[ core::str::from_utf8 ](v: &[u8]) -> (r: Result<&str, Utf8Error>)
    ensures
        match r {
            Ok(s) => valid_utf8(v@) && encode_utf8(s@) == v@,
            Err(e) => !valid_utf8(v@) && e == utf8_error(v@),
        },
;

/// The text that a result of decoding stands for: the characters, or the
/// error as [`Error`] carries it.
pub open spec fn decoded(bytes: Seq<u8>) -> Result<Seq<char>, ErrorView> {
    if valid_utf8(bytes) {
        Ok(decode_utf8(bytes))
    } else {
        Err(ErrorView::Utf8(utf8_error(bytes)))
    }
}

/// The encoding of `text`, or the error that kept `text` from being read.
pub open spec fn checksum_of_text(text: Result<Seq<char>, ErrorView>) -> Result<
    Seq<char>,
    ErrorView,
> {
    match text {
        Ok(t) => checksum(t),
        Err(e) => Err(e),
    }
}

/// A value that may hold an address.
pub trait TryChecksum {
    /// The text that the value holds, or why it holds none.
    spec fn text(&self) -> Result<Seq<char>, ErrorView>;

    /// Encodes the address that the value holds.
    fn try_checksum<'a>(&'a self) -> (r: Result<String, Error<'a>>)
        ensures
            outcome(r) == checksum_of_text(self.text()),
    ;
}

impl TryChecksum for str {
    open spec fn text(&self) -> Result<Seq<char>, ErrorView> {
        Ok(self@)
    }

    fn try_checksum<'a>(&'a self) -> (r: Result<String, Error<'a>>) {
        Checksum::from_str(self)
    }
}

impl TryChecksum for String {
    open spec fn text(&self) -> Result<Seq<char>, ErrorView> {
        Ok(self@)
    }

    fn try_checksum<'a>(&'a self) -> (r: Result<String, Error<'a>>) {
        Checksum::from_str(self.as_str())
    }
}

impl TryChecksum for [u8; 40] {
    open spec fn text(&self) -> Result<Seq<char>, ErrorView> {
        decoded(self@)
    }

    fn try_checksum<'a>(&'a self) -> (r: Result<String, Error<'a>>) {
        match core::str::from_utf8(self.as_slice()) {
            Ok(string) => {
                proof {
                    encode_utf8_decode_utf8(string@);
                }
                Checksum::from_str(string)
            },
            Err(e) => Err(Error::from(e)),
        }
    }
}

} // verus!
