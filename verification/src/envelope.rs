//! The envelope: the byte layout that carries a ciphertext together with the
//! initialization vector (and, in the self-contained form, the key) that
//! decryption needs.

use vstd::prelude::*;
use vstd::slice::slice_subrange;
use crate::key_manager::generate_iv;
use crate::cipher::{
    aes256_cbc_pkcs7_encrypt, cbc_decrypt, decrypt_vec, encrypt_vec, padded_len, IV_LENGTH,
    KEY_LENGTH,
};
use crate::error::EncryptionError;

verus! {

/// Which header an envelope has in front of its ciphertext.
#[derive(Clone, Copy, Debug, PartialEq, Eq, Structural)]
pub enum EnvelopeForm {
    /// `IV || ciphertext`: the key travels separately.
    Minimal,
    /// `IV || key || ciphertext`: whoever reads the envelope can decrypt it.
    SelfContained,
}

impl EnvelopeForm {
    /// Number of bytes in front of the ciphertext.
    pub open spec fn spec_header_len(self) -> nat {
        match self {
            EnvelopeForm::Minimal => 16,
            EnvelopeForm::SelfContained => 48,
        }
    }

    /// Number of bytes in front of the ciphertext.
    pub fn header_len(self) -> (n: usize)
        ensures
            n == self.spec_header_len(),
    {
        match self {
            EnvelopeForm::Minimal => IV_LENGTH,
            EnvelopeForm::SelfContained => IV_LENGTH + KEY_LENGTH,
        }
    }
}

/// Whether a plaintext of `n` bytes is small enough for its envelope to be
/// held in memory on this machine.
pub open spec fn plaintext_fits(n: nat) -> bool {
    n + 64 <= isize::MAX
}

/// Whether a plaintext of `length` bytes is small enough for `seal` and the
/// `encode` functions.
pub fn fits_in_envelope(length: usize) -> (fits: bool)
    ensures
        fits == plaintext_fits(length as nat),
{
    length <= isize::MAX as usize - 64
}

/// The bytes of an envelope with the given parts.
pub open spec fn layout(form: EnvelopeForm, iv: Seq<u8>, key: Seq<u8>, ciphertext: Seq<u8>) -> Seq<u8> {
    match form {
        EnvelopeForm::Minimal => iv + ciphertext,
        EnvelopeForm::SelfContained => iv + key + ciphertext,
    }
}

/// The envelope of `plaintext` under `key` and `iv`.
pub open spec fn sealed(form: EnvelopeForm, plaintext: Seq<u8>, key: Seq<u8>, iv: Seq<u8>) -> Seq<u8> {
    layout(form, iv, key, aes256_cbc_pkcs7_encrypt(key, iv, plaintext))
}

/// What decryption of a ciphertext amounts to for the caller: the plaintext,
/// or a padding error.
pub open spec fn plaintext_or_padding_error(decrypted: Option<Seq<u8>>) -> Result<Seq<u8>, EncryptionError> {
    match decrypted {
        Some(plaintext) => Ok(plaintext),
        None => Err(EncryptionError::PaddingError),
    }
}

/// The result of decoding a minimal envelope with `key`.
pub open spec fn decode_spec(envelope: Seq<u8>, key: Seq<u8>) -> Result<Seq<u8>, EncryptionError> {
    if envelope.len() < 16 {
        Err(EncryptionError::TruncatedEnvelope)
    } else if key.len() != 32 {
        Err(EncryptionError::CipherInitError)
    } else {
        plaintext_or_padding_error(
            cbc_decrypt(key, envelope.subrange(0, 16), envelope.subrange(16, envelope.len() as int)),
        )
    }
}

/// The result of decoding a self-contained envelope, with the key it carries.
pub open spec fn decode_self_contained_spec(envelope: Seq<u8>) -> Result<Seq<u8>, EncryptionError> {
    if envelope.len() < 48 {
        Err(EncryptionError::TruncatedEnvelope)
    } else {
        plaintext_or_padding_error(
            cbc_decrypt(
                envelope.subrange(16, 48),
                envelope.subrange(0, 16),
                envelope.subrange(48, envelope.len() as int),
            ),
        )
    }
}

/// The result of decoding an envelope of the given form. A self-contained
/// envelope is decrypted with the key it carries, whatever `key` is.
pub open spec fn opened(form: EnvelopeForm, envelope: Seq<u8>, key: Seq<u8>) -> Result<Seq<u8>, EncryptionError> {
    match form {
        EnvelopeForm::Minimal => decode_spec(envelope, key),
        EnvelopeForm::SelfContained => decode_self_contained_spec(envelope),
    }
}

/// The view of a result that holds bytes.
pub open spec fn result_view(result: Result<Vec<u8>, EncryptionError>) -> Result<Seq<u8>, EncryptionError> {
    match result {
        Ok(bytes) => Ok(bytes@),
        Err(kind) => Err(kind),
    }
}

/// Decoding reads the header back: an envelope laid out from a 16-byte IV,
/// a 32-byte key and any ciphertext decodes to whatever that ciphertext
/// decrypts to under that key and IV.
pub proof fn lemma_opened_layout(form: EnvelopeForm, iv: Seq<u8>, key: Seq<u8>, ciphertext: Seq<u8>)
    requires
        iv.len() == 16,
        key.len() == 32,
    ensures
        opened(form, layout(form, iv, key, ciphertext), key) == plaintext_or_padding_error(
            cbc_decrypt(key, iv, ciphertext),
        ),
        layout(form, iv, key, ciphertext).len() == form.spec_header_len() + ciphertext.len(),
{
    let envelope = layout(form, iv, key, ciphertext);
    match form {
        EnvelopeForm::Minimal => {
            assert(envelope.subrange(0, 16) =~= iv);
            assert(envelope.subrange(16, envelope.len() as int) =~= ciphertext);
        },
        EnvelopeForm::SelfContained => {
            assert(envelope.subrange(0, 16) =~= iv);
            assert(envelope.subrange(16, 48) =~= key);
            assert(envelope.subrange(48, envelope.len() as int) =~= ciphertext);
        },
    }
}

/// Encrypts `plaintext` under `key` with the given initialization vector and
/// lays the envelope out in the given form.
///
/// Fails with `CipherInitError`, and only so, unless the key has 32 bytes and
/// the IV 16. The envelope that comes out decodes to the plaintext again.
pub fn seal(form: EnvelopeForm, plaintext: &[u8], key: &[u8], iv: &[u8]) -> (result: Result<Vec<u8>, EncryptionError>)
    requires
        plaintext_fits(plaintext@.len()),
    ensures
        result_view(result) == if key@.len() == 32 && iv@.len() == 16 {
            Ok::<Seq<u8>, EncryptionError>(sealed(form, plaintext@, key@, iv@))
        } else {
            Err::<Seq<u8>, EncryptionError>(EncryptionError::CipherInitError)
        },
        result matches Ok(envelope) ==> {
            &&& envelope@.len() == form.spec_header_len() + padded_len(plaintext@.len())
            &&& opened(form, envelope@, key@) == Ok::<Seq<u8>, EncryptionError>(plaintext@)
        },
{
    match encrypt_vec(key, iv, plaintext) {
        Err(_) => Err(EncryptionError::CipherInitError),
        Ok(ciphertext) => {
            let mut envelope: Vec<u8> = Vec::new();
            envelope.extend_from_slice(iv);
            match form {
                EnvelopeForm::Minimal => {},
                EnvelopeForm::SelfContained => {
                    envelope.extend_from_slice(key);
                },
            }
            envelope.extend_from_slice(ciphertext.as_slice());
            proof {
                assert(envelope@ =~= layout(form, iv@, key@, ciphertext@));
                lemma_opened_layout(form, iv@, key@, ciphertext@);
            }
            Ok(envelope)
        },
    }
}

/// Two envelopes made with different initialization vectors differ, whatever
/// the plaintexts and keys are: a fresh IV makes a fresh envelope.
pub proof fn lemma_distinct_ivs_distinct_envelopes(
    form: EnvelopeForm,
    plaintext_a: Seq<u8>,
    key_a: Seq<u8>,
    iv_a: Seq<u8>,
    plaintext_b: Seq<u8>,
    key_b: Seq<u8>,
    iv_b: Seq<u8>,
)
    requires
        iv_a.len() == 16,
        iv_b.len() == 16,
        iv_a != iv_b,
    ensures
        sealed(form, plaintext_a, key_a, iv_a) != sealed(form, plaintext_b, key_b, iv_b),
{
    let envelope_a = sealed(form, plaintext_a, key_a, iv_a);
    let envelope_b = sealed(form, plaintext_b, key_b, iv_b);
    assert(envelope_a.subrange(0, 16) =~= iv_a);
    assert(envelope_b.subrange(0, 16) =~= iv_b);
}

/// An envelope that decodes has a ciphertext behind its header: at least one
/// block, and whole blocks only. So a header alone never decodes.
pub proof fn lemma_opened_needs_whole_blocks(form: EnvelopeForm, envelope: Seq<u8>, key: Seq<u8>)
    requires
        opened(form, envelope, key) is Ok,
    ensures
        envelope.len() >= form.spec_header_len() + 16,
        (envelope.len() - form.spec_header_len()) % 16 == 0,
{
}

/// A minimal envelope that is shorter than an initialization vector is
/// rejected as truncated, and one that is exactly an initialization vector
/// fails too: with `CipherInitError` where the key has the wrong size, with
/// `PaddingError` otherwise.
pub proof fn lemma_decode_short_envelope(envelope: Seq<u8>, key: Seq<u8>)
    requires
        envelope.len() <= 16,
    ensures
        envelope.len() < 16 ==> decode_spec(envelope, key) == Err::<Seq<u8>, EncryptionError>(
            EncryptionError::TruncatedEnvelope,
        ),
        envelope.len() == 16 && key.len() != 32 ==> decode_spec(envelope, key) == Err::<
            Seq<u8>,
            EncryptionError,
        >(EncryptionError::CipherInitError),
        envelope.len() == 16 && key.len() == 32 ==> decode_spec(envelope, key) == Err::<
            Seq<u8>,
            EncryptionError,
        >(EncryptionError::PaddingError),
{
}

/// Decrypts `ciphertext` and names the failure in this library's terms.
fn decrypt_with(key: &[u8], iv: &[u8], ciphertext: &[u8]) -> (result: Result<Vec<u8>, EncryptionError>)
    ensures
        result_view(result) == if key@.len() == 32 && iv@.len() == 16 {
            plaintext_or_padding_error(cbc_decrypt(key@, iv@, ciphertext@))
        } else {
            Err::<Seq<u8>, EncryptionError>(EncryptionError::CipherInitError)
        },
        result matches Ok(plaintext) ==> plaintext@.len() < ciphertext@.len() <= plaintext@.len()
            + 255,
{
    match decrypt_vec(key, iv, ciphertext) {
        Err(_) => Err(EncryptionError::CipherInitError),
        Ok(Err(_)) => Err(EncryptionError::PaddingError),
        Ok(Ok(plaintext)) => Ok(plaintext),
    }
}

/// Draws a fresh initialization vector and seals `plaintext` with it.
fn encode_as(form: EnvelopeForm, plaintext: &[u8], key: &[u8]) -> (result: Result<Vec<u8>, EncryptionError>)
    requires
        plaintext_fits(plaintext@.len()),
    ensures
        key@.len() != 32 ==> result == Err::<Vec<u8>, EncryptionError>(
            EncryptionError::CipherInitError,
        ),
        key@.len() == 32 ==> match result {
            Ok(envelope) => {
                &&& envelope@.len() == form.spec_header_len() + padded_len(plaintext@.len())
                &&& envelope@ == sealed(form, plaintext@, key@, envelope@.subrange(0, 16))
                &&& opened(form, envelope@, key@) == Ok::<Seq<u8>, EncryptionError>(plaintext@)
            },
            Err(kind) => kind == EncryptionError::EntropySourceError,
        },
{
    if key.len() != KEY_LENGTH {
        return Err(EncryptionError::CipherInitError);
    }
    match generate_iv() {
        Err(kind) => Err(kind),
        Ok(iv) => {
            let result = seal(form, plaintext, key, iv.as_slice());
            proof {
                assert(sealed(form, plaintext@, key@, iv@).subrange(0, 16) =~= iv@);
            }
            result
        },
    }
}

/// Encrypts `plaintext` under `key` into a minimal envelope, `IV || ciphertext`,
/// with an initialization vector drawn for this call.
///
/// A key that has not 32 bytes is rejected with `CipherInitError` before the
/// random source is touched. With a 32-byte key the only failure is
/// `EntropySourceError`, and the envelope that comes out is the ciphertext
/// under the IV it starts with, and decodes to the plaintext again.
pub fn encode(plaintext: &[u8], key: &[u8]) -> (result: Result<Vec<u8>, EncryptionError>)
    requires
        plaintext_fits(plaintext@.len()),
    ensures
        key@.len() != 32 ==> result == Err::<Vec<u8>, EncryptionError>(
            EncryptionError::CipherInitError,
        ),
        key@.len() == 32 ==> match result {
            Ok(envelope) => {
                &&& envelope@.len() == 16 + padded_len(plaintext@.len())
                &&& envelope@ == sealed(
                    EnvelopeForm::Minimal,
                    plaintext@,
                    key@,
                    envelope@.subrange(0, 16),
                )
                &&& decode_spec(envelope@, key@) == Ok::<Seq<u8>, EncryptionError>(plaintext@)
            },
            Err(kind) => kind == EncryptionError::EntropySourceError,
        },
{
    encode_as(EnvelopeForm::Minimal, plaintext, key)
}

/// Encrypts `plaintext` under `key` into a self-contained envelope,
/// `IV || key || ciphertext`, with an initialization vector drawn for this
/// call. Whoever holds such an envelope holds the key.
///
/// Fails as `encode` does.
pub fn encode_self_contained(plaintext: &[u8], key: &[u8]) -> (result: Result<Vec<u8>, EncryptionError>)
    requires
        plaintext_fits(plaintext@.len()),
    ensures
        key@.len() != 32 ==> result == Err::<Vec<u8>, EncryptionError>(
            EncryptionError::CipherInitError,
        ),
        key@.len() == 32 ==> match result {
            Ok(envelope) => {
                &&& envelope@.len() == 48 + padded_len(plaintext@.len())
                &&& envelope@ == sealed(
                    EnvelopeForm::SelfContained,
                    plaintext@,
                    key@,
                    envelope@.subrange(0, 16),
                )
                &&& decode_self_contained_spec(envelope@) == Ok::<Seq<u8>, EncryptionError>(
                    plaintext@,
                )
            },
            Err(kind) => kind == EncryptionError::EntropySourceError,
        },
{
    encode_as(EnvelopeForm::SelfContained, plaintext, key)
}

/// Decrypts a minimal envelope with `key`.
///
/// Fails with `TruncatedEnvelope` where the envelope has fewer than 16 bytes;
/// else with `CipherInitError` where the key has not 32 bytes; else with
/// `PaddingError` where the ciphertext is empty, is not a whole number of
/// blocks, or does not decrypt to validly padded data.
pub fn decode(envelope: &[u8], key: &[u8]) -> (result: Result<Vec<u8>, EncryptionError>)
    ensures
        result_view(result) == decode_spec(envelope@, key@),
        result matches Ok(plaintext) ==> plaintext@.len() + 16 < envelope@.len()
            <= plaintext@.len() + 16 + 255,
{
    if envelope.len() < IV_LENGTH {
        return Err(EncryptionError::TruncatedEnvelope);
    }
    let iv = slice_subrange(envelope, 0, IV_LENGTH);
    let ciphertext = slice_subrange(envelope, IV_LENGTH, envelope.len());
    decrypt_with(key, iv, ciphertext)
}

/// Decrypts a self-contained envelope with the key that it carries.
///
/// Fails with `TruncatedEnvelope` where the envelope has fewer than 48 bytes;
/// else with `PaddingError` where the ciphertext is empty, is not a whole
/// number of blocks, or does not decrypt to validly padded data.
pub fn decode_self_contained(envelope: &[u8]) -> (result: Result<Vec<u8>, EncryptionError>)
    ensures
        result_view(result) == decode_self_contained_spec(envelope@),
        result matches Ok(plaintext) ==> plaintext@.len() + 48 < envelope@.len()
            <= plaintext@.len() + 48 + 255,
{
    if envelope.len() < IV_LENGTH + KEY_LENGTH {
        return Err(EncryptionError::TruncatedEnvelope);
    }
    let iv = slice_subrange(envelope, 0, IV_LENGTH);
    let key = slice_subrange(envelope, IV_LENGTH, IV_LENGTH + KEY_LENGTH);
    let ciphertext = slice_subrange(envelope, IV_LENGTH + KEY_LENGTH, envelope.len());
    decrypt_with(key, iv, ciphertext)
}

} // verus!
