use filecrypt::config::Settings;
use filecrypt::envelope::decode;
use filecrypt::error::EncryptionError;
use filecrypt::operation::{change_file_extension_based_on_operation, process_content, Operation};

#[test]
fn parse_knows_the_two_operations() {
    assert_eq!(Operation::parse("encrypt"), Some(Operation::Encrypt));
    assert_eq!(Operation::parse("decrypt"), Some(Operation::Decrypt));
}

#[test]
fn parse_rejects_other_names() {
    for name in ["", "Encrypt", "encrypt ", "encrypted", "decrypts", "encrypd", "xor", "décrypt"] {
        assert_eq!(Operation::parse(name), None);
    }
}

#[test]
fn extensions() {
    assert_eq!(Operation::Encrypt.extension(), "encrypted");
    assert_eq!(Operation::Decrypt.extension(), "decrypted");
}

#[test]
fn change_extension_for_encrypt() {
    assert_eq!(change_file_extension_based_on_operation("encrypt", "notes.txt"), "notes.encrypted");
    assert_eq!(change_file_extension_based_on_operation("encrypt", "notes"), "notes.encrypted");
}

#[test]
fn change_extension_for_decrypt() {
    assert_eq!(
        change_file_extension_based_on_operation("decrypt", "notes.encrypted"),
        "notes.decrypted"
    );
    assert_eq!(
        change_file_extension_based_on_operation("decrypt", "dir/archive.tar.gz"),
        "dir/archive.tar.decrypted"
    );
}

#[test]
fn change_extension_leaves_the_path_for_an_unknown_operation() {
    assert_eq!(change_file_extension_based_on_operation("shred", "notes.txt"), "notes.txt");
    assert_eq!(change_file_extension_based_on_operation("", ""), "");
}

#[test]
fn process_content_encrypts_and_decrypts() {
    let key = [9u8; 32];
    let envelope = process_content(Operation::Encrypt, b"hello world", &key).unwrap();
    assert_eq!(envelope.len(), 32);
    assert_eq!(decode(&envelope, &key), Ok(b"hello world".to_vec()));
    assert_eq!(process_content(Operation::Decrypt, &envelope, &key), Ok(b"hello world".to_vec()));
}

#[test]
fn process_content_reports_failures() {
    assert_eq!(
        process_content(Operation::Encrypt, b"hello world", &[9u8; 31]),
        Err(EncryptionError::CipherInitError)
    );
    assert_eq!(
        process_content(Operation::Decrypt, &[0u8; 10], &[9u8; 32]),
        Err(EncryptionError::TruncatedEnvelope)
    );
}

#[test]
fn default_settings() {
    let settings = Settings::default();
    assert_eq!(settings.key_path, ".");
    assert_eq!(settings.config_path, "config/default");
    assert_eq!(settings.encryption_standard, "AES-256-CBC");
}
