//! The two operations that a caller can ask for by name, and what follows
//! from the choice.

use vstd::prelude::*;
use vstd::string::StrSliceExecFns;
use crate::envelope::{decode, decode_spec, encode, plaintext_fits, result_view, sealed, EnvelopeForm};
use crate::cipher::padded_len;
use crate::error::EncryptionError;

verus! {

/// What to do with a file's content.
#[derive(Clone, Copy, Debug, PartialEq, Eq, Structural)]
pub enum Operation {
    /// Turn plaintext into an envelope.
    Encrypt,
    /// Turn an envelope back into plaintext.
    Decrypt,
}

/// The operation that `name` stands for: `encrypt` or `decrypt`, spelled
/// exactly so; any other name stands for none.
pub open spec fn operation_named(name: Seq<char>) -> Option<Operation> {
    if name == "encrypt"@ {
        Some(Operation::Encrypt)
    } else if name == "decrypt"@ {
        Some(Operation::Decrypt)
    } else {
        None
    }
}

/// The extension that the output file of an operation gets.
pub open spec fn extension_of(operation: Operation) -> &'static str {
    match operation {
        Operation::Encrypt => "encrypted",
        Operation::Decrypt => "decrypted",
    }
}

/// Whether two texts hold the same characters.
fn same_text(left: &str, right: &str) -> (same: bool)
    ensures
        same == (left@ == right@),
{
    let count = left.unicode_len();
    if count != right.unicode_len() {
        return false;
    }
    let mut index: usize = 0;
    while index < count
        invariant
            index <= count,
            count == left@.len(),
            count == right@.len(),
            forall|i: int| 0 <= i < index ==> left@[i] == right@[i],
        decreases count - index,
    {
        if left.get_char(index) != right.get_char(index) {
            return false;
        }
        index += 1;
    }
    assert(left@ =~= right@);
    true
}

impl Operation {
    /// Reads an operation from its name.
    pub fn parse(name: &str) -> (operation: Option<Operation>)
        ensures
            operation == operation_named(name@),
    {
        if same_text(name, "encrypt") {
            Some(Operation::Encrypt)
        } else if same_text(name, "decrypt") {
            Some(Operation::Decrypt)
        } else {
            None
        }
    }

    /// The extension that the output file of this operation gets.
    pub fn extension(self) -> (text: &'static str)
        ensures
            text@ == extension_of(self)@,
    {
        match self {
            Operation::Encrypt => "encrypted",
            Operation::Decrypt => "decrypted",
        }
    }
}

/// Calls `PathBuf::set_extension` of std on `file_path` and gives the path
/// back as text.
///
/// Trusted, not proved: nothing. How a path splits into its parts depends on
/// the platform, so no claim is made of the text that comes out.
#[verifier::external_body]
fn with_extension(file_path: &str, extension: &str) -> (renamed: String)
    requires
        forall|i: int| 0 <= i < extension@.len() ==> extension@[i] != '/' && extension@[i] != '\\',
{
    let mut path = std::path::PathBuf::from(file_path);
    path.set_extension(extension);
    path.to_str().unwrap_or(file_path).to_string()
}

/// The path of the output file for an operation given by name: `file_path`
/// with its extension replaced by that of the operation. A name that stands
/// for no operation leaves the path as it is.
pub fn change_file_extension_based_on_operation(operation: &str, file_path: &str) -> (renamed: String)
    ensures
        operation_named(operation@) is None ==> renamed@ == file_path@,
{
    match Operation::parse(operation) {
        None => file_path.to_owned(),
        Some(Operation::Encrypt) => {
            proof {
                reveal_strlit("encrypted");
            }
            with_extension(file_path, "encrypted")
        },
        Some(Operation::Decrypt) => {
            proof {
                reveal_strlit("decrypted");
            }
            with_extension(file_path, "decrypted")
        },
    }
}

/// Carries out `operation` on `content` with `key`: encryption into a
/// minimal envelope, or decryption of one.
pub fn process_content(operation: Operation, content: &[u8], key: &[u8]) -> (result: Result<Vec<u8>, EncryptionError>)
    requires
        operation == Operation::Encrypt ==> plaintext_fits(content@.len()),
    ensures
        operation == Operation::Decrypt ==> result_view(result) == decode_spec(content@, key@),
        operation == Operation::Encrypt && key@.len() != 32 ==> result == Err::<
            Vec<u8>,
            EncryptionError,
        >(EncryptionError::CipherInitError),
        operation == Operation::Encrypt && key@.len() == 32 ==> match result {
            Ok(envelope) => {
                &&& envelope@.len() == 16 + padded_len(content@.len())
                &&& envelope@ == sealed(
                    EnvelopeForm::Minimal,
                    content@,
                    key@,
                    envelope@.subrange(0, 16),
                )
                &&& decode_spec(envelope@, key@) == Ok::<Seq<u8>, EncryptionError>(content@)
            },
            Err(kind) => kind == EncryptionError::EntropySourceError,
        },
{
    match operation {
        Operation::Encrypt => encode(content, key),
        Operation::Decrypt => decode(content, key),
    }
}

} // verus!
