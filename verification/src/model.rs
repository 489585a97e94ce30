//! What the encoding is, stated over sequences of characters and bytes.
//!
//! An address is 40 hexadecimal characters, with or without the prefix `0x`.
//! Its checksum lives in the case of its letters: the address is lower-cased
//! and hashed, and each letter is then raised or left alone according to one
//! half-byte of the digest.

use crate::error::{Error, ErrorView};
use crate::keccak::keccak256;
use vstd::prelude::*;
use vstd::utf8::encode_utf8;

verus! {

/// Number of characters in an address without its prefix.
pub const BODY_LEN: usize = 40;

/// Number of characters in an address with its prefix.
pub const PREFIXED_LEN: usize = 42;

/// The characters of the prefix, `0x`.
pub open spec fn prefix() -> Seq<char> {
    seq!['0', 'x']
}

/// `c` is one of `0` to `9`.
pub open spec fn is_decimal_digit(c: char) -> bool {
    '0' <= c <= '9'
}

/// `c` is one of `a` to `f`.
pub open spec fn is_hex_letter(c: char) -> bool {
    'a' <= c <= 'f'
}

/// `c` is a hexadecimal digit in its lower-case form.
pub open spec fn is_hex_digit(c: char) -> bool {
    is_decimal_digit(c) || is_hex_letter(c)
}

/// `c` is a hexadecimal digit, with a letter in either case.
pub open spec fn is_hex_char(c: char) -> bool {
    is_decimal_digit(c) || 'a' <= c <= 'f' || 'A' <= c <= 'F'
}

/// The lower-case form of `c`: the letters `A` to `Z` move to `a` to `z`,
/// every other character stays as it is.
pub open spec fn lowercase(c: char) -> char {
    if 'A' <= c <= 'Z' {
        (c as u32 + 32) as char
    } else {
        c
    }
}

/// The upper-case form of `c`: the letters `a` to `z` move to `A` to `Z`,
/// every other character stays as it is.
pub open spec fn uppercase(c: char) -> char {
    if 'a' <= c <= 'z' {
        (c as u32 - 32) as char
    } else {
        c
    }
}

/// `text` with every character in its lower-case form.
pub open spec fn normalize(text: Seq<char>) -> Seq<char> {
    Seq::new(text.len(), |i: int| lowercase(text[i]))
}

/// The half-byte of `digest` that governs position `i`: the high half of
/// byte `i / 2` where `i` is even, the low half where it is odd.
pub open spec fn control_value(digest: Seq<u8>, i: int) -> int {
    if i % 2 == 0 {
        digest[i / 2] as int / 16
    } else {
        digest[i / 2] as int % 16
    }
}

/// A letter at position `i` is raised to upper case.
pub open spec fn is_raised(digest: Seq<u8>, i: int) -> bool {
    control_value(digest, i) >= 8
}

/// The character that stands at position `i` of the result, where `c`
/// stands there in the normalized address.
pub open spec fn recased_char(c: char, digest: Seq<u8>, i: int) -> char {
    if is_hex_letter(c) && is_raised(digest, i) {
        uppercase(c)
    } else {
        c
    }
}

/// The normalized address with the case of each letter set by `digest`.
pub open spec fn recased(normalized: Seq<char>, digest: Seq<u8>) -> Seq<char> {
    Seq::new(normalized.len(), |i: int| recased_char(normalized[i], digest, i))
}

/// The first position at or after `from` whose character is no hexadecimal
/// digit, or the length of `text` where there is none.
pub open spec fn first_invalid_from(text: Seq<char>, from: int) -> int
    decreases text.len() - from,
{
    if from < 0 || from >= text.len() || !is_hex_digit(text[from]) {
        from
    } else {
        first_invalid_from(text, from + 1)
    }
}

/// The first position whose character is no hexadecimal digit, or the
/// length of `text` where every character is one.
pub open spec fn first_invalid(text: Seq<char>) -> int {
    first_invalid_from(text, 0)
}

/// What a scan of the normalized address from left to right gives: the
/// recased address, or the first character that is no hexadecimal digit
/// together with its position.
pub open spec fn recase_or_reject(normalized: Seq<char>, digest: Seq<u8>) -> Result<
    Seq<char>,
    ErrorView,
> {
    let at = first_invalid(normalized);
    if at < normalized.len() {
        Err(ErrorView::HexChar { value: normalized[at], index: at as nat })
    } else {
        Ok(recased(normalized, digest))
    }
}

/// The digest that decides the case of `body`: the hash of the bytes of its
/// normalized form.
pub open spec fn digest_of(body: Seq<char>) -> Seq<u8> {
    keccak256(encode_utf8(normalize(body)))
}

/// The encoding of an address without prefix.
pub open spec fn checksum_of_body(body: Seq<char>) -> Result<Seq<char>, ErrorView> {
    recase_or_reject(normalize(body), digest_of(body))
}

/// The encoding of `input`, or the reason why it has none.
pub open spec fn checksum(input: Seq<char>) -> Result<Seq<char>, ErrorView> {
    if input.len() == BODY_LEN {
        checksum_of_body(input)
    } else if input.len() == PREFIXED_LEN {
        let head = input.subrange(0, 2);
        if head != prefix() {
            Err(ErrorView::Prefix { expected: prefix(), actual: head })
        } else {
            match checksum_of_body(input.subrange(2, PREFIXED_LEN as int)) {
                Ok(body) => Ok(head + body),
                Err(e) => Err(e),
            }
        }
    } else {
        Err(
            ErrorView::Length {
                expected_either: seq![BODY_LEN as nat, PREFIXED_LEN as nat],
                actual: input.len(),
            },
        )
    }
}

/// The part of `input` that holds the hexadecimal digits: what follows the
/// first two characters where `input` is as long as a prefixed address,
/// else all of it.
pub open spec fn body_of(input: Seq<char>) -> Seq<char> {
    if input.len() == PREFIXED_LEN {
        input.subrange(2, PREFIXED_LEN as int)
    } else {
        input
    }
}

/// `input` is an address: 40 hexadecimal digits, alone or behind the prefix.
pub open spec fn is_address(input: Seq<char>) -> bool {
    if input.len() == BODY_LEN {
        forall|i: int| 0 <= i < input.len() ==> is_hex_char(#[trigger] input[i])
    } else {
        &&& input.len() == PREFIXED_LEN
        &&& input.subrange(0, 2) == prefix()
        &&& forall|i: int| 2 <= i < input.len() ==> is_hex_char(#[trigger] input[i])
    }
}

/// A result of this library as mathematical values: the characters of the
/// encoding, or the view of the error.
pub open spec fn outcome<'a>(r: Result<String, Error<'a>>) -> Result<Seq<char>, ErrorView> {
    match r {
        Ok(s) => Ok(s@),
        Err(e) => Err(e@),
    }
}

} // verus!
