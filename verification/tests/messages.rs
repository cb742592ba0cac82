use aesteve::error::AESErrorKind;
use aesteve::{AESError, AESteve};

const KEY: [u8; 16] = [
    0x00, 0x01, 0x02, 0x03, 0x04, 0x05, 0x06, 0x07, 0x08, 0x09, 0x0a, 0x0b, 0x0c, 0x0d, 0x0e, 0x0f,
];

fn cipher() -> AESteve {
    AESteve::new(&KEY).unwrap()
}

#[test]
fn pad_appends_marker_and_zeros() {
    let padded = AESteve::pad(vec![1, 2, 3]);
    assert_eq!(padded, vec![1, 2, 3, 0x80, 0, 0, 0, 0, 0, 0, 0, 0, 0, 0, 0, 0]);
}

#[test]
fn pad_of_an_empty_message() {
    let padded = AESteve::pad(Vec::new());
    assert_eq!(padded, vec![0x80, 0, 0, 0, 0, 0, 0, 0, 0, 0, 0, 0, 0, 0, 0, 0]);
}

#[test]
fn pad_of_fifteen_bytes_adds_the_marker_only() {
    let padded = AESteve::pad(vec![7; 15]);
    assert_eq!(padded.len(), 16);
    assert_eq!(padded[15], 0x80);
}

#[test]
fn pad_of_a_full_block_adds_a_block() {
    let padded = AESteve::pad(vec![7; 16]);
    assert_eq!(padded.len(), 32);
    assert_eq!(padded[16], 0x80);
    assert!(padded[17..].iter().all(|byte| *byte == 0));
}

#[test]
fn depad_cuts_at_the_first_marker() {
    assert_eq!(AESteve::depad(vec![1, 2, 0x80, 3, 0x80, 0]), vec![1, 2]);
}

#[test]
fn depad_without_marker_returns_everything() {
    assert_eq!(AESteve::depad(vec![1, 2, 3]), vec![1, 2, 3]);
}

#[test]
fn depad_of_a_leading_marker_is_empty() {
    assert_eq!(AESteve::depad(vec![0x80, 1, 2]), Vec::<u8>::new());
}

#[test]
fn depad_inverts_pad() {
    for len in 0..40u8 {
        let message: Vec<u8> = (0..len).collect();
        assert_eq!(AESteve::depad(AESteve::pad(message.clone())), message);
    }
}

#[test]
fn make_blocks_is_column_major() {
    let bytes: Vec<u8> = (0..32).collect();
    let blocks = AESteve::make_blocks(bytes);
    assert_eq!(blocks.len(), 2);
    assert_eq!(blocks[0], [[0, 1, 2, 3], [4, 5, 6, 7], [8, 9, 10, 11], [12, 13, 14, 15]]);
    assert_eq!(blocks[1][0], [16, 17, 18, 19]);
    assert_eq!(blocks[1][3], [28, 29, 30, 31]);
}

#[test]
fn make_blocks_fills_a_short_last_block_with_zeros() {
    let blocks = AESteve::make_blocks(vec![1, 2, 3, 4, 5]);
    assert_eq!(blocks, vec![[[1, 2, 3, 4], [5, 0, 0, 0], [0, 0, 0, 0], [0, 0, 0, 0]]]);
}

#[test]
fn make_blocks_of_nothing_is_empty() {
    assert!(AESteve::make_blocks(Vec::new()).is_empty());
}

#[test]
fn join_blocks_inverts_make_blocks() {
    let bytes: Vec<u8> = (0..48).collect();
    assert_eq!(AESteve::join_blocks(AESteve::make_blocks(bytes.clone())), bytes);
}

#[test]
fn encrypt_blocks_keeps_the_order() {
    let cipher = cipher();
    let blocks: Vec<[[u8; 4]; 4]> = (0..37u8).map(|n| [[n; 4]; 4]).collect();
    let encrypted = cipher.encrypt_blocks(blocks.clone());
    assert_eq!(encrypted.len(), blocks.len());
    for (plain, secret) in blocks.iter().zip(encrypted.iter()) {
        assert_ne!(plain, secret);
        assert_eq!(*secret, cipher.encrypt_block(*plain));
    }
}

#[test]
fn decrypt_blocks_keeps_the_order() {
    let cipher = cipher();
    let blocks: Vec<[[u8; 4]; 4]> = (0..37u8).map(|n| [[n; 4]; 4]).collect();
    let decrypted = cipher.decrypt_blocks(blocks.clone());
    assert_eq!(decrypted.len(), blocks.len());
    for (secret, plain) in blocks.iter().zip(decrypted.iter()) {
        assert_eq!(*plain, cipher.decrypt_block(*secret));
    }
    assert_eq!(cipher.decrypt_blocks(cipher.encrypt_blocks(blocks.clone())), blocks);
}

#[test]
fn encrypt_bytes_of_an_empty_plaintext() {
    let ciphertext = cipher().encrypt_bytes(Vec::new());
    assert_eq!(
        ciphertext,
        vec![
            0x43, 0x99, 0x57, 0x2c, 0xd6, 0xea, 0x53, 0x41, 0xb8, 0xd3, 0x58, 0x76, 0xa7, 0x09,
            0x8a, 0xf7
        ]
    );
}

#[test]
fn encrypt_bytes_of_a_full_block() {
    let ciphertext = cipher().encrypt_bytes(b"0123456789abcdef".to_vec());
    assert_eq!(
        ciphertext,
        vec![
            0x28, 0x15, 0x67, 0xab, 0x2f, 0x4c, 0xf0, 0xd7, 0x3d, 0x31, 0x98, 0x22, 0x5b, 0x8b,
            0x83, 0x93, 0x43, 0x99, 0x57, 0x2c, 0xd6, 0xea, 0x53, 0x41, 0xb8, 0xd3, 0x58, 0x76,
            0xa7, 0x09, 0x8a, 0xf7
        ]
    );
}

#[test]
fn decrypt_bytes_inverts_encrypt_bytes() {
    let cipher = cipher();
    for len in 0..50u8 {
        let plaintext: Vec<u8> = (0..len).map(|n| n.wrapping_mul(3)).collect();
        let ciphertext = cipher.encrypt_bytes(plaintext.clone());
        assert_eq!(ciphertext.len(), (plaintext.len() / 16 + 1) * 16);
        assert_eq!(cipher.decrypt_bytes(ciphertext), plaintext);
    }
}

#[test]
fn decrypt_bytes_fills_a_short_ciphertext_with_zeros() {
    let plaintext = cipher().decrypt_bytes(vec![1, 2, 3, 4, 5]);
    assert_eq!(
        plaintext,
        vec![
            0xff, 0xd3, 0xc7, 0xba, 0x45, 0x02, 0x88, 0x79, 0x7b, 0xe9, 0xd8, 0xe9, 0xfa, 0x57,
            0x1e, 0x2c
        ]
    );
}

#[test]
fn decrypt_bytes_of_nothing_is_nothing() {
    assert_eq!(cipher().decrypt_bytes(Vec::new()), Vec::<u8>::new());
}

#[test]
fn a_marker_byte_in_the_plaintext_cuts_it_short() {
    let cipher = cipher();
    let plaintext = vec![b'a', b'b', 0x80, b'c', b'd'];
    let ciphertext = cipher.encrypt_bytes(plaintext);
    assert_eq!(cipher.decrypt_bytes(ciphertext), vec![b'a', b'b']);
}

#[test]
fn a_marker_byte_in_the_text_does_not_round_trip() {
    let cipher = cipher();
    let message = String::from("a\u{80}b");
    let encrypted = cipher.encrypt(message.clone()).unwrap();
    let decrypted = cipher.decrypt(encrypted);
    assert!(matches!(decrypted, Err(AESError::InvalidUTF8(_))));
}

#[test]
fn equal_plaintext_blocks_give_equal_ciphertext_blocks() {
    let mut plaintext = Vec::new();
    plaintext.extend_from_slice(b"sixteen byte blk");
    plaintext.extend_from_slice(b"another block!!!");
    plaintext.extend_from_slice(b"sixteen byte blk");
    let ciphertext = cipher().encrypt_bytes(plaintext);
    assert_eq!(ciphertext.len(), 64);
    assert_eq!(ciphertext[0..16], ciphertext[32..48]);
    assert_ne!(ciphertext[0..16], ciphertext[16..32]);
}

#[test]
fn encryption_is_deterministic() {
    let cipher = cipher();
    let message = String::from("the same message, twice");
    let first = cipher.encrypt(message.clone()).unwrap();
    let second = cipher.encrypt(message).unwrap();
    assert_eq!(first, second);
    let other = AESteve::new(&KEY).unwrap();
    assert_eq!(other.encrypt(String::from("the same message, twice")).unwrap(), first);
}

#[test]
fn encrypt_gives_base64_of_the_ciphertext() {
    let cipher = AESteve::new(&[0u8; 16]).unwrap();
    let encrypted = cipher.encrypt(String::from("This is a test!")).unwrap();
    assert_eq!(encrypted, "XYQR5XYO1jQsAByz0OGwLA==");
}

#[test]
fn encrypt_of_the_empty_message() {
    let encrypted = cipher().encrypt(String::new()).unwrap();
    assert_eq!(encrypted, "Q5lXLNbqU0G401h2pwmK9w==");
}

#[test]
fn encrypt_of_more_than_two_blocks() {
    let encrypted = cipher().encrypt(String::from("hello world, this is two blocks!!")).unwrap();
    assert_eq!(encrypted, "wjL/Kz3hIz3tyPrOFmXixDo825WGQ/xF6ERl9NawlmYv4TxtO0vJtbOxBGrIVrPe");
}

#[test]
fn decrypt_of_known_text() {
    let cipher = AESteve::new(&[0u8; 16]).unwrap();
    let decrypted = cipher.decrypt(String::from("XYQR5XYO1jQsAByz0OGwLA==")).unwrap();
    assert_eq!(decrypted, "This is a test!");
}

#[test]
fn decrypt_inverts_encrypt() {
    let cipher = cipher();
    for message in ["", "a", "fifteen bytes!!", "sixteen bytes!!!", "na\u{ef}ve caf\u{e9} \u{2713}", "a much longer message that needs several blocks to hold"] {
        let encrypted = cipher.encrypt(String::from(message)).unwrap();
        assert_ne!(encrypted, message);
        assert_eq!(cipher.decrypt(encrypted).unwrap(), message);
    }
}

#[test]
fn decrypt_rejects_text_that_is_not_base64() {
    let decrypted = cipher().decrypt(String::from("this is not base64!"));
    assert!(matches!(decrypted, Err(AESError::InvalidBase64(_))));
}

#[test]
fn decrypt_rejects_base64_without_padding() {
    let decrypted = cipher().decrypt(String::from("Q5lXLNbqU0G401h2pwmK9w"));
    assert!(matches!(decrypted, Err(AESError::InvalidBase64(_))));
}

#[test]
fn decrypt_rejects_bytes_that_are_not_text() {
    let decrypted = cipher().decrypt(String::from("U9Jx2gY9moyIy+vSp+/1UA=="));
    assert!(matches!(decrypted, Err(AESError::InvalidUTF8(_))));
}

#[test]
fn decrypt_under_another_key_does_not_give_the_message() {
    let encrypted = cipher().encrypt(String::from("for one key only")).unwrap();
    let other = AESteve::new(&[0u8; 16]).unwrap();
    match other.decrypt(encrypted) {
        Ok(message) => assert_ne!(message, "for one key only"),
        Err(error) => assert_eq!(error.kind(), AESErrorKind::InvalidUTF8),
    }
}

#[test]
fn error_kinds_are_distinct() {
    let cipher = cipher();
    let bad_text = cipher.decrypt(String::from("%%%%")).unwrap_err();
    let bad_bytes = cipher.decrypt(String::from("U9Jx2gY9moyIy+vSp+/1UA==")).unwrap_err();
    let bad_key = AESteve::new(&[1, 2, 3]).unwrap_err();
    assert_eq!(bad_text.kind(), AESErrorKind::InvalidBase64);
    assert_eq!(bad_bytes.kind(), AESErrorKind::InvalidUTF8);
    assert_eq!(bad_key.kind(), AESErrorKind::InvalidKeyLength);
}

#[test]
fn errors_convert_from_the_decoders_errors() {
    let utf8_error = String::from_utf8(vec![0xff]).unwrap_err();
    assert!(matches!(AESError::from(utf8_error), AESError::InvalidUTF8(_)));
    let base64_error = base64::DecodeError::InvalidPadding;
    assert!(matches!(AESError::from(base64_error), AESError::InvalidBase64(_)));
}

#[test]
fn message_of_a_wrong_key_length() {
    let error = AESteve::new(&[0u8; 15]).unwrap_err();
    assert_eq!(error.message(), "Invalid key length");
}

#[test]
fn message_of_invalid_base64() {
    let error = cipher().decrypt(String::from("%%%%")).unwrap_err();
    let detail = match &error {
        AESError::InvalidBase64(inner) => inner.to_string(),
        _ => panic!("expected an InvalidBase64 error"),
    };
    assert!(!detail.is_empty());
    assert_eq!(error.message(), format!("Base64 decoding error: {}", detail));
}

#[test]
fn message_of_invalid_utf8() {
    let error = cipher().decrypt(String::from("U9Jx2gY9moyIy+vSp+/1UA==")).unwrap_err();
    let detail = match &error {
        AESError::InvalidUTF8(inner) => inner.to_string(),
        _ => panic!("expected an InvalidUTF8 error"),
    };
    assert!(!detail.is_empty());
    assert_eq!(error.message(), format!("UTF-8 decoding error: {}", detail));
}
