//! The encoder: lower-casing, hashing and the pass that sets the case.

use crate::error::Error;
use crate::keccak::keccak256_hash;
use crate::laws::lemma_first_invalid_from;
use crate::model::{
    checksum_of_body, is_hex_digit, is_raised, lowercase, normalize, outcome, recase_or_reject,
    recased, recased_char, uppercase, BODY_LEN,
};
use vstd::prelude::*;

verus! {

/// `String::push` appends the character to the end of the string.
pub assume_specification[ String::push ](s: &mut String, c: char)
    ensures
        final(s)@ == old(s)@.push(c),
;

/// Whether the letter at position `i` is written in upper case: the
/// half-byte of the digest that belongs to `i` is 8 or more.
pub fn should_be_uppercased(array: &[u8; 32], i: usize) -> (raised: bool)
    requires
        i < 64,
    ensures
        raised == is_raised(array@, i as int),
{
    let byte: u8 = array[i / 2];
    let half_byte_at: u8 = if i & 1 == 0 {
        byte >> 4
    } else {
        byte & 0x0f
    };
    assert(byte >> 4 == byte / 16) by (bit_vector);
    assert(byte & 0x0f == byte % 16) by (bit_vector);
    assert(i & 1 == i % 2) by (bit_vector);
    half_byte_at >= 8
}

/// The lower-case form of one character.
pub fn to_lower(c: char) -> (r: char)
    ensures
        r == lowercase(c),
{
    if 'A' <= c && c <= 'Z' {
        let code: u8 = c as u8;
        (code + 32) as char
    } else {
        c
    }
}

/// The upper-case form of one character.
pub fn to_upper(c: char) -> (r: char)
    ensures
        r == uppercase(c),
{
    if 'a' <= c && c <= 'z' {
        let code: u8 = c as u8;
        (code - 32) as char
    } else {
        c
    }
}

/// `text` with every character in its lower-case form.
pub fn to_lowercase(text: &str) -> (lowered: String)
    ensures
        lowered@ == normalize(text@),
{
    let mut lowered = String::new();
    for c in it: text.chars()
        invariant
            it.seq() == text@,
            lowered@.len() == it.index(),
            forall|j: int| 0 <= j < it.index() ==> lowered@[j] == lowercase(text@[j]),
    {
        lowered.push(to_lower(c));
    }
    lowered
}

/// Sets the case of each letter of `normalized` by `digest`, reading the
/// address from left to right, and gives up at the first character that is
/// no hexadecimal digit.
pub fn recase<'a>(normalized: &str, digest: &[u8; 32]) -> (r: Result<String, Error<'a>>)
    requires
        normalized@.len() == BODY_LEN,
    ensures
        outcome(r) == recase_or_reject(normalized@, digest@),
{
    let mut result = String::new();
    let mut i: usize = 0;
    for a_char in it: normalized.chars()
        invariant
            it.seq() == normalized@,
            normalized@.len() == BODY_LEN,
            i == it.index(),
            result@.len() == i,
            forall|j: int| 0 <= j < i ==> is_hex_digit(#[trigger] normalized@[j]),
            forall|j: int|
                0 <= j < i ==> result@[j] == recased_char(normalized@[j], digest@, j),
    {
        let new_char = if '0' <= a_char && a_char <= '9' {
            a_char
        } else if 'a' <= a_char && a_char <= 'f' {
            if should_be_uppercased(digest, i) {
                to_upper(a_char)
            } else {
                a_char
            }
        } else {
            proof {
                lemma_first_invalid_from(normalized@, 0, i as int);
            }
            return Err(Error::HexChar { value: a_char, index: i });
        };
        result.push(new_char);
        i += 1;
    }
    proof {
        lemma_first_invalid_from(normalized@, 0, i as int);
        assert(result@ =~= recased(normalized@, digest@));
    }
    Ok(result)
}

/// Encodes an address that has no prefix: lower-cases it, hashes the bytes
/// of the lower-case form, and sets the case of each letter by the digest.
pub fn to_checksum_address<'a>(address_string: &'a str) -> (r: Result<String, Error<'a>>)
    requires
        address_string@.len() == BODY_LEN,
    ensures
        outcome(r) == checksum_of_body(address_string@),
{
    let address_string = to_lowercase(address_string);
    let hash = keccak256_hash(address_string.as_str().as_bytes());
    recase(address_string.as_str(), &hash)
}

} // verus!
