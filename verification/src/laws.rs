//! What holds of every encoding, proved from the description in [`crate::model`].

use crate::error::{Error, ErrorView};
use crate::model::{
    body_of, checksum, checksum_of_body, control_value, digest_of, first_invalid,
    first_invalid_from, is_address, is_decimal_digit, is_hex_char, is_hex_digit, lowercase,
    normalize, outcome, prefix, recased_char, BODY_LEN, PREFIXED_LEN,
};
use vstd::prelude::*;

verus! {

/// Where every character before `at` is a hexadecimal digit, and `at` is the
/// end of `text` or holds a character that is none, a scan that starts at
/// `from` stops at `at`.
pub proof fn lemma_first_invalid_from(text: Seq<char>, from: int, at: int)
    requires
        0 <= from <= at <= text.len(),
        forall|j: int| from <= j < at ==> is_hex_digit(#[trigger] text[j]),
        at == text.len() || !is_hex_digit(text[at]),
    ensures
        first_invalid_from(text, from) == at,
    decreases at - from,
{
    if from < at {
        assert(is_hex_digit(text[from]));
        lemma_first_invalid_from(text, from + 1, at);
    }
}

/// A scan for the first character that is no hexadecimal digit stops inside
/// the text or at its end, passes only hexadecimal digits on its way, and
/// stops inside the text only at a character that is none.
pub proof fn lemma_first_invalid_from_stops(text: Seq<char>, from: int)
    requires
        0 <= from <= text.len(),
    ensures
        from <= first_invalid_from(text, from) <= text.len(),
        forall|j: int|
            from <= j < first_invalid_from(text, from) ==> is_hex_digit(#[trigger] text[j]),
        first_invalid_from(text, from) < text.len() ==> !is_hex_digit(
            text[first_invalid_from(text, from)],
        ),
    decreases text.len() - from,
{
    if from < text.len() && is_hex_digit(text[from]) {
        lemma_first_invalid_from_stops(text, from + 1);
    }
}

/// A character has a hexadecimal digit as its lower-case form exactly when
/// it is one of `0` to `9`, `a` to `f` or `A` to `F`.
pub proof fn lemma_hex_char_lowers_to_hex_digit(c: char)
    ensures
        is_hex_digit(lowercase(c)) <==> is_hex_char(c),
{
}

/// An address without prefix has an encoding exactly when each of its
/// characters is a hexadecimal digit, in either case.
pub proof fn lemma_body_accepted(body: Seq<char>)
    ensures
        checksum_of_body(body) is Ok <==> forall|i: int|
            0 <= i < body.len() ==> is_hex_char(#[trigger] body[i]),
{
    let normalized = normalize(body);
    lemma_first_invalid_from_stops(normalized, 0);
    let at = first_invalid(normalized);
    if at < normalized.len() {
        lemma_hex_char_lowers_to_hex_digit(body[at]);
    } else {
        assert forall|i: int| 0 <= i < body.len() implies is_hex_char(#[trigger] body[i]) by {
            assert(is_hex_digit(normalized[i]));
            lemma_hex_char_lowers_to_hex_digit(body[i]);
        }
    }
}

/// An input has an encoding exactly when it is an address: 40 hexadecimal
/// digits, in either case, alone or behind the prefix `0x`.
pub proof fn law_accepts_exactly_addresses(input: Seq<char>)
    ensures
        checksum(input) is Ok <==> is_address(input),
{
    if input.len() == BODY_LEN {
        lemma_body_accepted(input);
    } else if input.len() == PREFIXED_LEN {
        let body = input.subrange(2, PREFIXED_LEN as int);
        lemma_body_accepted(body);
        if is_address(input) {
            assert forall|i: int| 0 <= i < body.len() implies is_hex_char(#[trigger] body[i]) by {
                assert(body[i] == input[i + 2]);
            }
        }
        if checksum(input) is Ok {
            assert forall|i: int| 2 <= i < input.len() implies is_hex_char(
                #[trigger] input[i],
            ) by {
                assert(input[i] == body[i - 2]);
            }
        }
    }
}

/// Each error comes on its own inputs and on no others: a length error on
/// an input of neither accepted length; a prefix error on one as long as a
/// prefixed address that starts with anything but `0x`; and on any other
/// input that is no address, the first character that is no hexadecimal
/// digit, in its lower-case form, with its place among the 40. No input
/// gives an error of decoding.
pub proof fn law_errors_name_the_first_fault(input: Seq<char>)
    ensures
        match checksum(input) {
            Ok(_) => is_address(input),
            Err(ErrorView::Length { expected_either, actual }) => {
                &&& input.len() != BODY_LEN
                &&& input.len() != PREFIXED_LEN
                &&& expected_either == seq![40nat, 42nat]
                &&& actual == input.len()
            },
            Err(ErrorView::Prefix { expected, actual }) => {
                &&& input.len() == PREFIXED_LEN
                &&& actual == input.subrange(0, 2)
                &&& actual != prefix()
                &&& expected == prefix()
            },
            Err(ErrorView::HexChar { value, index }) => {
                &&& input.len() == BODY_LEN || (input.len() == PREFIXED_LEN && input.subrange(0, 2)
                    == prefix())
                &&& index < BODY_LEN
                &&& !is_hex_char(body_of(input)[index as int])
                &&& value == lowercase(body_of(input)[index as int])
                &&& forall|j: int| 0 <= j < index ==> is_hex_char(#[trigger] body_of(input)[j])
            },
            Err(ErrorView::Utf8(_)) => false,
        },
{
    law_accepts_exactly_addresses(input);
    if input.len() == BODY_LEN || (input.len() == PREFIXED_LEN && input.subrange(0, 2)
        == prefix()) {
        let body = body_of(input);
        let normalized = normalize(body);
        lemma_first_invalid_from_stops(normalized, 0);
        let at = first_invalid(normalized);
        if at < normalized.len() {
            lemma_hex_char_lowers_to_hex_digit(body[at]);
            assert forall|j: int| 0 <= j < at implies is_hex_char(#[trigger] body[j]) by {
                assert(is_hex_digit(normalized[j]));
                lemma_hex_char_lowers_to_hex_digit(body[j]);
            }
        }
    }
}

/// The half-byte that governs a position of the address is a number from 0
/// to 15.
pub proof fn law_control_value_is_a_half_byte(digest: Seq<u8>, i: int)
    ensures
        0 <= control_value(digest, i) < 16,
{
}

/// The case in which an input is written has no part in its result: the
/// lower-case form of an input is encoded, or turned down, as the input is.
///
/// An input as long as a prefixed address that starts with anything but
/// `0x` is left out: lower-casing may mend or change what it starts with.
pub proof fn law_input_case_is_ignored(input: Seq<char>)
    requires
        input.len() == PREFIXED_LEN ==> input.subrange(0, 2) == prefix(),
    ensures
        checksum(normalize(input)) == checksum(input),
{
    let lowered = normalize(input);
    assert(normalize(lowered) =~= lowered);
    if input.len() == PREFIXED_LEN {
        let body = input.subrange(2, PREFIXED_LEN as int);
        assert(lowered.subrange(2, PREFIXED_LEN as int) =~= normalize(body));
        assert(normalize(normalize(body)) =~= normalize(body));
        assert(input.subrange(0, 2)[0] == '0' && input.subrange(0, 2)[1] == 'x');
        assert(lowered.subrange(0, 2) =~= prefix());
    }
}

/// An encoding is as long as the input that it was made of.
pub proof fn law_length_is_kept(input: Seq<char>)
    ensures
        checksum(input) matches Ok(encoded) ==> encoded.len() == input.len(),
{
}

/// A decimal digit of the input stands unchanged at its place in the
/// encoding.
pub proof fn law_digits_are_kept(input: Seq<char>, i: int)
    requires
        0 <= i < input.len(),
        is_decimal_digit(input[i]),
    ensures
        checksum(input) matches Ok(encoded) ==> encoded[i] == input[i],
{
}

/// The encoding of a prefixed address starts with the prefix, and each
/// character behind it is the lower-case form of the input's character at
/// that place, with its case set by the digest of the address.
pub proof fn law_prefix_passes_through(input: Seq<char>)
    requires
        input.len() == PREFIXED_LEN,
        input.subrange(0, 2) == prefix(),
    ensures
        checksum(input) matches Ok(encoded) ==> {
            &&& encoded.len() == PREFIXED_LEN
            &&& encoded.subrange(0, 2) == prefix()
            &&& forall|i: int|
                0 <= i < BODY_LEN ==> #[trigger] encoded[i + 2] == recased_char(
                    lowercase(input[i + 2]),
                    digest_of(input.subrange(2, PREFIXED_LEN as int)),
                    i,
                )
        },
{
    if let Ok(encoded) = checksum(input) {
        assert(encoded.subrange(0, 2) =~= prefix());
    }
}

/// Two results for one input are the same: equal characters, or equal
/// errors.
pub proof fn law_encoding_is_a_function<'a, 'b>(
    input: Seq<char>,
    first: Result<String, Error<'a>>,
    second: Result<String, Error<'b>>,
)
    requires
        outcome(first) == checksum(input),
        outcome(second) == checksum(input),
    ensures
        outcome(first) == outcome(second),
        first is Ok <==> second is Ok,
        first matches Ok(a) ==> second matches Ok(b) && a@ == b@,
{
}

} // verus!
