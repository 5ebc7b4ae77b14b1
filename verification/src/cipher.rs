//! AES-256 in CBC mode with PKCS#7 padding, as the `block-modes` and `aes`
//! crates compute it.
//!
//! The two transforms are not modelled byte by byte: what they return is given
//! a name, and the contracts of this module state the few facts about those
//! names that the rest of the library relies on.

use vstd::prelude::*;
use aes::Aes256;
use block_modes::block_padding::Pkcs7;
use block_modes::BlockMode;
use block_modes::Cbc;

verus! {

/// Size in bytes of an AES-256 key.
pub const KEY_LENGTH: usize = 32;

/// Size in bytes of the initialization vector: one AES block.
pub const IV_LENGTH: usize = 16;

/// The error of `block_modes` for a key or IV of the wrong size.
#[verifier::external_type_specification]
#[verifier::external_body]
pub struct ExInvalidKeyIvLength(block_modes::InvalidKeyIvLength);

/// The error of `block_modes` for a ciphertext that cannot be decrypted.
#[verifier::external_type_specification]
#[verifier::external_body]
pub struct ExBlockModeError(block_modes::BlockModeError);

/// The ciphertext that `encrypt_vec` of `Cbc<Aes256, Pkcs7>` returns for a
/// 32-byte key, a 16-byte IV and a plaintext.
pub uninterp spec fn aes256_cbc_pkcs7_encrypt(key: Seq<u8>, iv: Seq<u8>, plaintext: Seq<u8>) -> Seq<u8>;

/// What `decrypt_vec` of `Cbc<Aes256, Pkcs7>` returns for a 32-byte key, a
/// 16-byte IV and a ciphertext: the plaintext, or `None` where it fails.
pub uninterp spec fn aes256_cbc_pkcs7_decrypt(key: Seq<u8>, iv: Seq<u8>, ciphertext: Seq<u8>) -> Option<Seq<u8>>;

/// Length of the ciphertext of a plaintext of `n` bytes: the plaintext is
/// padded up to the next multiple of the block size, by a whole block where it
/// already is a multiple.
pub open spec fn padded_len(n: nat) -> nat {
    (n / 16 + 1) * 16
}

/// The outcome of decrypting `ciphertext`. A ciphertext that is empty or not
/// a whole number of blocks is never decrypted.
pub open spec fn cbc_decrypt(key: Seq<u8>, iv: Seq<u8>, ciphertext: Seq<u8>) -> Option<Seq<u8>> {
    if ciphertext.len() == 0 || ciphertext.len() % 16 != 0 {
        None
    } else {
        aes256_cbc_pkcs7_decrypt(key, iv, ciphertext)
    }
}

/// Calls `Cbc::<Aes256, Pkcs7>::new_from_slices` and then `encrypt_vec`.
///
/// Trusted, not proved:
/// - the cipher is built exactly when the key has 32 bytes and the IV 16;
/// - the ciphertext is the named result, and its length is the plaintext's
///   length rounded up to the next multiple of 16 (a full block more where it
///   already is one);
/// - `decrypt_vec` under the same key and IV gives back the plaintext.
#[verifier::external_body]
pub(crate) fn encrypt_vec(key: &[u8], iv: &[u8], plaintext: &[u8]) -> (outcome: Result<Vec<u8>, block_modes::InvalidKeyIvLength>)
    requires
        plaintext@.len() + 16 <= isize::MAX,
    ensures
        outcome is Ok <==> (key@.len() == 32 && iv@.len() == 16),
        outcome is Ok ==> outcome->Ok_0@ == aes256_cbc_pkcs7_encrypt(key@, iv@, plaintext@),
        outcome is Ok ==> outcome->Ok_0@.len() == padded_len(plaintext@.len()),
        outcome is Ok ==> aes256_cbc_pkcs7_decrypt(key@, iv@, outcome->Ok_0@) == Some(plaintext@),
{
    let cipher = Cbc::<Aes256, Pkcs7>::new_from_slices(key, iv)?;
    Ok(cipher.encrypt_vec(plaintext))
}

/// Calls `Cbc::<Aes256, Pkcs7>::new_from_slices` and then `decrypt_vec`.
///
/// Trusted, not proved:
/// - the cipher is built exactly when the key has 32 bytes and the IV 16;
/// - decryption fails on a ciphertext that is empty or not a whole number of
///   blocks, and otherwise returns the named result;
/// - a plaintext that comes out is shorter than the ciphertext, by at most 255
///   bytes (the padding that was cut off).
#[verifier::external_body]
pub(crate) fn decrypt_vec(key: &[u8], iv: &[u8], ciphertext: &[u8]) -> (outcome: Result<Result<Vec<u8>, block_modes::BlockModeError>, block_modes::InvalidKeyIvLength>)
    ensures
        outcome is Ok <==> (key@.len() == 32 && iv@.len() == 16),
        outcome matches Ok(Ok(plaintext)) ==> cbc_decrypt(key@, iv@, ciphertext@) == Some(plaintext@),
        outcome matches Ok(Ok(plaintext)) ==> plaintext@.len() < ciphertext@.len() <= plaintext@.len() + 255,
        outcome matches Ok(Err(_)) ==> cbc_decrypt(key@, iv@, ciphertext@) is None,
{
    let cipher = Cbc::<Aes256, Pkcs7>::new_from_slices(key, iv)?;
    Ok(cipher.decrypt_vec(ciphertext))
}

} // verus!
