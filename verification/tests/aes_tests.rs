//! Tests of the block cipher against its published vectors.

use beacon_core::aes::{decrypt, encrypt, Block, Key};

#[test]
fn key_schedule_test() {
    let key = Key::new(&[
        0x2b, 0x7e, 0x15, 0x16, 0x28, 0xae, 0xd2, 0xa6, 0xab, 0xf7, 0x15, 0x88, 0x09, 0xcf, 0x4f,
        0x3c,
    ]);
    let expected = [
        0xa0, 0xfa, 0xfe, 0x17, 0x88, 0x54, 0x2c, 0xb1, 0x23, 0xa3, 0x39, 0x39, 0x2a, 0x6c, 0x76,
        0x05,
    ];

    let expanded = &key.expand()[1];

    assert_eq!(expected.to_vec(), expanded.data);
}

#[test]
fn encryption_test() {
    let key = Key::new(&[0, 1, 2, 3, 4, 5, 6, 7, 8, 9, 10, 11, 12, 13, 14, 15]);
    let message = Block::new(&[0, 1, 2, 3, 4, 5, 6, 7, 8, 9, 10, 11, 12, 13, 14, 15]);
    let expected = Block::new(&[
        0x0a, 0x94, 0x0b, 0xb5, 0x41, 0x6e, 0xf0, 0x45, 0xf1, 0xc3, 0x94, 0x58, 0xc6, 0x53, 0xea,
        0x5a,
    ]);

    let encrypted = encrypt(&key, &message);

    assert_eq!(expected, encrypted);
}

#[test]
fn encryption_decryption_test() {
    let key = Key::new(&[0, 1, 2, 3, 4, 5, 6, 7, 8, 9, 10, 11, 12, 13, 14, 15]);
    let message = Block::new(&[0, 1, 2, 3, 4, 5, 6, 7, 8, 9, 10, 11, 12, 13, 14, 15]);

    let result = decrypt(&key, &encrypt(&key, &message));

    assert_eq!(message, result);
}

#[test]
fn mix_columns_test() {
    let mut block = Block::new(&[
        219, 19, 83, 69, 1, 1, 1, 1, 198, 198, 198, 198, 45, 38, 49, 76,
    ]);
    let expected = [
        142, 77, 161, 188, 1, 1, 1, 1, 198, 198, 198, 198, 77, 126, 189, 248,
    ];
    block.mix_columns();
    assert_eq!(expected.to_vec(), block.data);
}

#[test]
fn inverse_mix_columns_test() {
    let mut block = Block::new(&[
        219, 19, 83, 69, 1, 1, 1, 1, 198, 198, 198, 198, 45, 38, 49, 76,
    ]);
    let expected = block.clone();

    block.mix_columns();
    block.inv_mix_columns();

    assert_eq!(expected, block);
}

#[test]
fn shift_rows_test() {
    let mut block = Block::new(&[1, 5, 9, 13, 2, 6, 10, 14, 3, 7, 11, 15, 4, 8, 12, 16]);
    let expected = [1, 6, 11, 16, 2, 7, 12, 13, 3, 8, 9, 14, 4, 5, 10, 15];
    block.shift_rows();
    assert_eq!(expected.to_vec(), block.data);
}

#[test]
fn inverse_shift_rows_test() {
    let mut block = Block::new(&[1, 6, 11, 16, 2, 7, 12, 13, 3, 8, 9, 14, 4, 5, 10, 15]);
    let expected = [1, 5, 9, 13, 2, 6, 10, 14, 3, 7, 11, 15, 4, 8, 12, 16];
    block.inv_shift_rows();
    assert_eq!(expected.to_vec(), block.data);
}
