use filecrypt::xor::xor_operation;

#[test]
fn xor_with_a_repeating_key() {
    let output = xor_operation(&[0x00, 0xff, 0x0f, 0xf0, 0xaa], &[0x0f, 0xf0]);
    assert_eq!(output, vec![0x0f, 0x0f, 0x00, 0x00, 0xa5]);
}

#[test]
fn xor_with_a_single_byte_key() {
    assert_eq!(xor_operation(b"abc", &[0x20]), b"ABC".to_vec());
}

#[test]
fn xor_with_a_key_longer_than_the_data() {
    assert_eq!(xor_operation(&[1, 2], &[1, 2, 3, 4]), vec![0, 0]);
}

#[test]
fn xor_of_nothing_is_nothing() {
    assert_eq!(xor_operation(&[], &[1, 2, 3]), Vec::<u8>::new());
    assert_eq!(xor_operation(&[], &[]), Vec::<u8>::new());
}

#[test]
fn xor_twice_restores_the_data() {
    let data: Vec<u8> = (0..=255u8).collect();
    let key = b"secret";
    let once = xor_operation(&data, key);
    assert_ne!(once, data);
    assert_eq!(xor_operation(&once, key), data);
}
