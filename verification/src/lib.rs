//! Mixed-case checksum encoding of hexadecimal account addresses (EIP-55).
//!
//! [`Checksum::from_str`] takes an address of 40 hexadecimal characters,
//! with or without the prefix `0x`, and returns it with the case of each
//! letter set by the Keccak-256 digest of its lower-case form. The module
//! [`model`] says what that result is; [`laws`] holds what follows from it.

pub mod encode;
pub mod error;
pub mod keccak;
pub mod laws;
pub mod model;
pub mod try_checksum;

pub use encode::{recase, should_be_uppercased, to_checksum_address};
pub use error::Error;
pub use try_checksum::TryChecksum;

use laws::{
    law_accepts_exactly_addresses, law_digits_are_kept, law_length_is_kept,
    law_prefix_passes_through,
};
use model::{
    checksum, digest_of, is_address, is_decimal_digit, lowercase, outcome, prefix, recased_char,
    BODY_LEN, PREFIXED_LEN,
};
use vstd::prelude::*;

verus! {

/// The prefix that an address may carry.
pub const PREFIX: &'static str = "0x";

/// The encoder. It holds no state: every call stands alone.
pub struct Checksum {}

impl Checksum {
    /// Encodes `input`, an address of 40 hexadecimal characters that may
    /// follow the prefix `0x`.
    ///
    /// The length is checked first, then the prefix, then the characters of
    /// the address from left to right; the first check that fails decides
    /// the error.
    pub fn from_str<'a>(input: &'a str) -> (r: Result<String, Error<'a>>)
        ensures
            outcome(r) == checksum(input@),
            r is Ok <==> is_address(input@),
            r matches Ok(encoded) ==> encoded@.len() == input@.len(),
            r matches Ok(encoded) ==> forall|i: int|
                0 <= i < input@.len() && is_decimal_digit(input@[i]) ==> encoded@[i] == input@[i],
            r matches Ok(encoded) ==> input@.len() == PREFIXED_LEN ==> {
                &&& encoded@.subrange(0, 2) == prefix()
                &&& forall|i: int|
                    0 <= i < BODY_LEN ==> #[trigger] encoded@[i + 2] == recased_char(
                        lowercase(input@[i + 2]),
                        digest_of(input@.subrange(2, PREFIXED_LEN as int)),
                        i,
                    )
            },
    {
        proof {
            law_accepts_exactly_addresses(input@);
            law_length_is_kept(input@);
            assert forall|i: int|
                0 <= i < input@.len() && is_decimal_digit(input@[i]) implies (checksum(
                input@,
            ) matches Ok(encoded) ==> encoded[i] == input@[i]) by {
                law_digits_are_kept(input@, i);
            }
            if input@.len() == PREFIXED_LEN && input@.subrange(0, 2) == prefix() {
                law_prefix_passes_through(input@);
            }
        }
        let length = input.unicode_len();
        if length == BODY_LEN {
            to_checksum_address(input)
        } else if length == PREFIXED_LEN {
            proof {
                reveal_strlit("0x");
            }
            let head = input.substring_char(0, 2);
            if head.get_char(0) != '0' || head.get_char(1) != 'x' {
                assert(PREFIX@ =~= prefix());
                return Err(Error::Prefix { expected: PREFIX, actual: head });
            }
            assert(head@ =~= prefix());
            let hash = input.substring_char(2, PREFIXED_LEN);
            match to_checksum_address(hash) {
                Ok(checksummed) => {
                    let mut prefixed = String::from_str(head);
                    prefixed.append(checksummed.as_str());
                    Ok(prefixed)
                },
                Err(e) => Err(e),
            }
        } else {
            let expected_either = [BODY_LEN, PREFIXED_LEN];
            assert(expected_either@.map_values(|n: usize| n as nat) =~= seq![40nat, 42nat]);
            Err(Error::Length { expected_either, actual: length })
        }
    }
}

} // verus!
