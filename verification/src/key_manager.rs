//! Key material: keys and initialization vectors drawn from the operating
//! system's random source.

use vstd::prelude::*;
use vstd::string::StrSliceExecFns;
use crate::cipher::{IV_LENGTH, KEY_LENGTH};
use crate::error::EncryptionError;

verus! {

/// Length in bytes of a key where the configuration names none.
pub const DEFAULT_KEY_LENGTH: usize = 32;

/// The longest key, in bytes, that `generate_key` makes.
pub const MAX_KEY_LENGTH: usize = 1024;

/// The error of `ring` for any failure, here that of the random source.
#[verifier::external_type_specification]
#[verifier::external_body]
pub struct ExUnspecified(ring::error::Unspecified);

/// The error of `rand` for a failure of the random source.
#[verifier::external_type_specification]
#[verifier::external_body]
pub struct ExRandError(rand::Error);

/// Whether `length` is a key length that this library generates.
pub open spec fn valid_key_length(length: nat) -> bool {
    0 < length <= MAX_KEY_LENGTH
}

/// Calls `fill` of `ring::rand::SystemRandom` on the whole buffer.
///
/// Trusted, not proved: the buffer keeps its length. Nothing is claimed of
/// the bytes that it then holds, nor of success.
#[verifier::external_body]
pub(crate) fn fill_from_system_random(buffer: &mut Vec<u8>) -> (outcome: Result<(), ring::error::Unspecified>)
    ensures
        final(buffer)@.len() == old(buffer)@.len(),
{
    ring::rand::SecureRandom::fill(&ring::rand::SystemRandom::new(), buffer.as_mut_slice())
}

/// Calls `try_fill_bytes` of `rand::rngs::OsRng` on the whole buffer.
///
/// Trusted, not proved: the buffer keeps its length. Nothing is claimed of
/// the bytes that it then holds, nor of success.
#[verifier::external_body]
pub(crate) fn fill_from_os_rng(buffer: &mut Vec<u8>) -> (outcome: Result<(), rand::Error>)
    ensures
        final(buffer)@.len() == old(buffer)@.len(),
{
    rand::RngCore::try_fill_bytes(&mut rand::rngs::OsRng, buffer.as_mut_slice())
}

/// What a draw from the random source amounts to for the caller: the filled
/// buffer where the source delivered, `EntropySourceError` where it did not.
pub fn accept_draw<E>(buffer: Vec<u8>, outcome: Result<(), E>) -> (result: Result<Vec<u8>, EncryptionError>)
    ensures
        outcome is Ok ==> result == Ok::<Vec<u8>, EncryptionError>(buffer),
        outcome is Err ==> result == Err::<Vec<u8>, EncryptionError>(EncryptionError::EntropySourceError),
{
    match outcome {
        Ok(_) => Ok(buffer),
        Err(_) => Err(EncryptionError::EntropySourceError),
    }
}

/// A fresh random key of `length` bytes.
///
/// Fails with `InvalidKeyLength` exactly when `length` is zero or above
/// `MAX_KEY_LENGTH`; the random source is then not touched. Otherwise the
/// only failure is `EntropySourceError`.
pub fn generate_key(length: usize) -> (result: Result<Vec<u8>, EncryptionError>)
    ensures
        !valid_key_length(length as nat) ==> result == Err::<Vec<u8>, EncryptionError>(
            EncryptionError::InvalidKeyLength,
        ),
        valid_key_length(length as nat) ==> match result {
            Ok(key) => key@.len() == length,
            Err(kind) => kind == EncryptionError::EntropySourceError,
        },
{
    if length == 0 || length > MAX_KEY_LENGTH {
        return Err(EncryptionError::InvalidKeyLength);
    }
    let mut key: Vec<u8> = vec![0u8; length];
    let outcome = fill_from_system_random(&mut key);
    accept_draw(key, outcome)
}

/// A fresh random initialization vector of 16 bytes. The only failure is
/// `EntropySourceError`.
pub fn generate_iv() -> (result: Result<Vec<u8>, EncryptionError>)
    ensures
        match result {
            Ok(iv) => iv@.len() == 16,
            Err(kind) => kind == EncryptionError::EntropySourceError,
        },
{
    let mut iv: Vec<u8> = vec![0u8; IV_LENGTH];
    let outcome = fill_from_os_rng(&mut iv);
    accept_draw(iv, outcome)
}

/// A fresh random 32-byte key and a fresh random 16-byte initialization
/// vector, in this order. The only failure is `EntropySourceError`.
pub fn generate_key_and_iv() -> (result: Result<(Vec<u8>, Vec<u8>), EncryptionError>)
    ensures
        match result {
            Ok((key, iv)) => key@.len() == 32 && iv@.len() == 16,
            Err(kind) => kind == EncryptionError::EntropySourceError,
        },
{
    let mut key: Vec<u8> = vec![0u8; KEY_LENGTH];
    let key_outcome = fill_from_os_rng(&mut key);
    match accept_draw(key, key_outcome) {
        Err(kind) => Err(kind),
        Ok(key) => match generate_iv() {
            Err(kind) => Err(kind),
            Ok(iv) => Ok((key, iv)),
        },
    }
}

/// Whether `c` is one of the digits `0` to `9`.
pub open spec fn is_digit(c: char) -> bool {
    '0' <= c <= '9'
}

/// The number that a sequence of digits denotes in base ten; zero for none.
pub open spec fn decimal_value(digits: Seq<char>) -> nat
    decreases digits.len(),
{
    if digits.len() == 0 {
        0
    } else {
        (decimal_value(digits.drop_last()) * 10 + (digits.last() as u32 - '0' as u32)) as nat
    }
}

/// The digits of a length as text: the text itself, without a leading plus
/// sign where it has one.
pub open spec fn digits_of(text: Seq<char>) -> Seq<char> {
    if text.len() > 0 && text[0] == '+' {
        text.subrange(1, text.len() as int)
    } else {
        text
    }
}

/// The key length that `text` asks for: the text is an optional plus sign and
/// then one or more digits, nothing else, and the number is a valid key
/// length.
pub open spec fn parse_key_length_spec(text: Seq<char>) -> Result<usize, EncryptionError> {
    let digits = digits_of(text);
    if digits.len() > 0 && (forall|i: int| 0 <= i < digits.len() ==> is_digit(#[trigger] digits[i]))
        && valid_key_length(decimal_value(digits)) {
        Ok(decimal_value(digits) as usize)
    } else {
        Err(EncryptionError::InvalidKeyLength)
    }
}

/// Appending digits never makes the number smaller.
proof fn lemma_decimal_value_grows(digits: Seq<char>, shorter: int)
    requires
        0 <= shorter <= digits.len(),
        forall|i: int| 0 <= i < digits.len() ==> is_digit(#[trigger] digits[i]),
    ensures
        decimal_value(digits.subrange(0, shorter)) <= decimal_value(digits),
    decreases digits.len() - shorter,
{
    if shorter == digits.len() {
        assert(digits.subrange(0, shorter) =~= digits);
    } else {
        let longer = digits.subrange(0, shorter + 1);
        assert(longer.drop_last() =~= digits.subrange(0, shorter));
        assert(is_digit(digits[shorter]));
        assert(longer.last() == digits[shorter]);
        lemma_decimal_value_grows(digits, shorter + 1);
    }
}

/// Reads a key length from its decimal text, as a configuration gives it.
///
/// Fails with `InvalidKeyLength` where the text is not an optional plus sign
/// followed by digits only, and where the number is zero or above
/// `MAX_KEY_LENGTH`.
pub fn parse_key_length(text: &str) -> (result: Result<usize, EncryptionError>)
    ensures
        result == parse_key_length_spec(text@),
{
    let count = text.unicode_len();
    let mut index: usize = 0;
    if count > 0 && text.get_char(0) == '+' {
        index = 1;
    }
    let first = index;
    let ghost digits = digits_of(text@);
    if index == count {
        return Err(EncryptionError::InvalidKeyLength);
    }
    let mut value: usize = 0;
    while index < count
        invariant
            first <= index <= count,
            count == text@.len(),
            digits == digits_of(text@),
            digits == text@.subrange(first as int, count as int),
            forall|i: int| 0 <= i < index - first ==> is_digit(#[trigger] digits[i]),
            value == decimal_value(digits.subrange(0, index - first)),
            value <= MAX_KEY_LENGTH,
        decreases count - index,
    {
        let c = text.get_char(index);
        if c < '0' || c > '9' {
            assert(!is_digit(digits[index - first]));
            return Err(EncryptionError::InvalidKeyLength);
        }
        let digit = (c as u32 - '0' as u32) as usize;
        let next = value * 10 + digit;
        proof {
            let longer = digits.subrange(0, index - first + 1);
            assert(longer.drop_last() =~= digits.subrange(0, index - first));
            assert(longer.last() == digits[index - first]);
            assert(next == decimal_value(longer));
        }
        if next > MAX_KEY_LENGTH {
            proof {
                if forall|i: int| 0 <= i < digits.len() ==> is_digit(#[trigger] digits[i]) {
                    lemma_decimal_value_grows(digits, index - first + 1);
                }
            }
            return Err(EncryptionError::InvalidKeyLength);
        }
        value = next;
        index += 1;
    }
    assert(digits.subrange(0, index - first) =~= digits);
    if value == 0 {
        Err(EncryptionError::InvalidKeyLength)
    } else {
        Ok(value)
    }
}

/// The key length that a configuration asks for: the default where it names
/// none, else what its text denotes.
pub open spec fn configured_key_length(configured: Option<Seq<char>>) -> Result<usize, EncryptionError> {
    match configured {
        None => Ok(DEFAULT_KEY_LENGTH),
        Some(text) => parse_key_length_spec(text),
    }
}

/// A fresh random key of the length that the configuration asks for, or of
/// `DEFAULT_KEY_LENGTH` bytes where it names none.
///
/// Fails with `InvalidKeyLength` exactly when a length is configured and its
/// text is not a valid key length; the random source is then not touched.
/// Otherwise the only failure is `EntropySourceError`.
pub fn generate_encryption_key(configured_length: Option<&str>) -> (result: Result<Vec<u8>, EncryptionError>)
    ensures
        match configured_key_length(
            match configured_length {
                Some(text) => Some(text@),
                None => None,
            },
        ) {
            Err(kind) => result == Err::<Vec<u8>, EncryptionError>(kind),
            Ok(length) => match result {
                Ok(key) => key@.len() == length,
                Err(kind) => kind == EncryptionError::EntropySourceError,
            },
        },
{
    let length = match configured_length {
        None => DEFAULT_KEY_LENGTH,
        Some(text) => match parse_key_length(text) {
            Ok(length) => length,
            Err(kind) => {
                return Err(kind);
            },
        },
    };
    generate_key(length)
}

} // verus!
