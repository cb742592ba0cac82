use aesteve::block::Block;
use aesteve::{AESError, AESteve};

fn block_of(bytes: [u8; 16]) -> Block {
    let mut block = [[0u8; 4]; 4];
    for (i, byte) in bytes.iter().enumerate() {
        block[i / 4][i % 4] = *byte;
    }
    block
}

fn bytes_of(block: Block) -> [u8; 16] {
    let mut bytes = [0u8; 16];
    for i in 0..16 {
        bytes[i] = block[i / 4][i % 4];
    }
    bytes
}

const FIPS_KEY: [u8; 16] = [
    0x00, 0x01, 0x02, 0x03, 0x04, 0x05, 0x06, 0x07, 0x08, 0x09, 0x0a, 0x0b, 0x0c, 0x0d, 0x0e, 0x0f,
];

const FIPS_PLAIN: [u8; 16] = [
    0x00, 0x11, 0x22, 0x33, 0x44, 0x55, 0x66, 0x77, 0x88, 0x99, 0xaa, 0xbb, 0xcc, 0xdd, 0xee, 0xff,
];

const FIPS_CIPHER: [u8; 16] = [
    0x69, 0xc4, 0xe0, 0xd8, 0x6a, 0x7b, 0x04, 0x30, 0xd8, 0xcd, 0xb7, 0x80, 0x70, 0xb4, 0xc5, 0x5a,
];

#[test]
fn test_expand_key() {
    let key = [0u8; 16];
    let aesteve = AESteve::new(&key).unwrap();
    assert_eq!(aesteve.round_keys()[0][0], [0, 0, 0, 0]);
}

#[test]
fn test_encrypt_decrypt() {
    let key = [0u8; 16];
    let aesteve = AESteve::new(&key).unwrap();
    let message = String::from("This is a test!");

    let encrypted_message = aesteve.encrypt(message.clone()).unwrap();
    let decrypted_message = aesteve.decrypt(encrypted_message).unwrap();

    assert_eq!(decrypted_message, message);
}

#[test]
fn test_invalid_key_length() {
    let key = [0u8; 15];
    let result = AESteve::new(&key);
    assert!(result.is_err());
    assert!(matches!(result.unwrap_err(), AESError::InvalidKeyLength));
}

#[test]
fn key_of_length_zero_is_rejected() {
    let result = AESteve::new(&[]);
    assert!(matches!(result, Err(AESError::InvalidKeyLength)));
}

#[test]
fn key_of_length_seventeen_is_rejected() {
    let result = AESteve::new(&[7u8; 17]);
    assert!(matches!(result, Err(AESError::InvalidKeyLength)));
}

#[test]
fn key_of_length_thirty_two_is_rejected() {
    let result = AESteve::new(&[7u8; 32]);
    assert!(matches!(result, Err(AESError::InvalidKeyLength)));
}

#[test]
fn key_of_length_sixteen_is_accepted() {
    assert!(AESteve::new(&FIPS_KEY).is_ok());
}

#[test]
fn round_key_zero_is_the_key() {
    let cipher = AESteve::new(&FIPS_KEY).unwrap();
    assert_eq!(bytes_of(cipher.round_keys()[0]), FIPS_KEY);
}

#[test]
fn expand_key_matches_the_standard_schedule() {
    let keys = AESteve::expand_key(&FIPS_KEY);
    assert_eq!(
        bytes_of(keys[1]),
        [
            0xd6, 0xaa, 0x74, 0xfd, 0xd2, 0xaf, 0x72, 0xfa, 0xda, 0xa6, 0x78, 0xf1, 0xd6, 0xab,
            0x76, 0xfe
        ]
    );
    assert_eq!(
        bytes_of(keys[10]),
        [
            0x13, 0x11, 0x1d, 0x7f, 0xe3, 0x94, 0x4a, 0x17, 0xf3, 0x07, 0xa7, 0x8b, 0x4d, 0x2b,
            0x30, 0xc5
        ]
    );
}

#[test]
fn expand_key_of_the_zero_key() {
    let keys = AESteve::expand_key(&[0u8; 16]);
    assert_eq!(
        bytes_of(keys[1]),
        [
            0x62, 0x63, 0x63, 0x63, 0x62, 0x63, 0x63, 0x63, 0x62, 0x63, 0x63, 0x63, 0x62, 0x63,
            0x63, 0x63
        ]
    );
    assert_eq!(
        bytes_of(keys[10]),
        [
            0xb4, 0xef, 0x5b, 0xcb, 0x3e, 0x92, 0xe2, 0x11, 0x23, 0xe9, 0x51, 0xcf, 0x6f, 0x8f,
            0x18, 0x8e
        ]
    );
}

#[test]
fn round_keys_are_the_expansion_of_the_key() {
    let cipher = AESteve::new(&FIPS_KEY).unwrap();
    assert_eq!(cipher.round_keys(), AESteve::expand_key(&FIPS_KEY));
}

#[test]
fn known_answer_of_the_standard() {
    let cipher = AESteve::new(&FIPS_KEY).unwrap();
    let encrypted = cipher.encrypt_block(block_of(FIPS_PLAIN));
    assert_eq!(bytes_of(encrypted), FIPS_CIPHER);
}

#[test]
fn known_answer_decrypts() {
    let cipher = AESteve::new(&FIPS_KEY).unwrap();
    let decrypted = cipher.decrypt_block(block_of(FIPS_CIPHER));
    assert_eq!(bytes_of(decrypted), FIPS_PLAIN);
}

#[test]
fn zero_block_under_the_zero_key() {
    let cipher = AESteve::new(&[0u8; 16]).unwrap();
    let encrypted = cipher.encrypt_block([[0u8; 4]; 4]);
    assert_eq!(
        bytes_of(encrypted),
        [
            0x66, 0xe9, 0x4b, 0xd4, 0xef, 0x8a, 0x2c, 0x3b, 0x88, 0x4c, 0xfa, 0x59, 0xca, 0x34,
            0x2b, 0x2e
        ]
    );
}

#[test]
fn decrypt_block_inverts_encrypt_block_on_samples() {
    let mut seed: u32 = 0x1234_5678;
    let mut next = move || {
        seed = seed.wrapping_mul(1_664_525).wrapping_add(1_013_904_223);
        (seed >> 24) as u8
    };
    for _ in 0..64 {
        let mut key = [0u8; 16];
        let mut plain = [0u8; 16];
        for i in 0..16 {
            key[i] = next();
            plain[i] = next();
        }
        let cipher = AESteve::new(&key).unwrap();
        let block = block_of(plain);
        let encrypted = cipher.encrypt_block(block);
        assert_ne!(encrypted, block);
        assert_eq!(cipher.decrypt_block(encrypted), block);
    }
}

#[test]
fn encrypt_block_depends_on_the_key() {
    let first = AESteve::new(&FIPS_KEY).unwrap();
    let second = AESteve::new(&[0u8; 16]).unwrap();
    let block = block_of(FIPS_PLAIN);
    assert_ne!(first.encrypt_block(block), second.encrypt_block(block));
}

#[test]
fn encrypt_block_inverts_decrypt_block_on_samples() {
    let cipher = AESteve::new(&FIPS_KEY).unwrap();
    for n in 0..=255u8 {
        let mut block = [[n; 4]; 4];
        block[1][2] = n.wrapping_mul(7);
        block[3][0] = n.wrapping_add(91);
        assert_eq!(cipher.encrypt_block(cipher.decrypt_block(block)), block);
    }
}
