//! File-level symmetric encryption: key material, the envelope layout, and the
//! AES-256-CBC transform between plaintext and envelope.

pub mod cipher;
pub mod config;
pub mod envelope;
pub mod error;
pub mod key_manager;
pub mod operation;
pub mod xor;

pub use config::Settings;
pub use envelope::{decode, decode_self_contained, encode, encode_self_contained, seal, EnvelopeForm};
pub use error::EncryptionError;
pub use key_manager::{generate_encryption_key, generate_iv, generate_key, generate_key_and_iv};
pub use xor::xor_operation;
