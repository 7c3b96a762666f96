use aes_bench::bench::{BenchConfig, ConfigError, DEFAULT_BUFFER_SIZE};
use aes_bench::cipher::{encrypt_in_place, load_block, store_block, BlockCipher};

fn hex(bytes: &[u8]) -> String {
    bytes.iter().map(|b| format!("{:02x}", b)).collect()
}

fn encrypt_one(key: [u8; 16], block: [u8; 16]) -> [u8; 16] {
    let cipher = BlockCipher::new(key);
    let mut b = block;
    cipher.encrypt_block(&mut b);
    b
}

#[test]
fn zero_key_zero_block_known_answer() {
    let out = encrypt_one([0u8; 16], [0u8; 16]);
    assert_eq!(hex(&out), "66e94bd4ef8a2c3b884cfa59ca342b2e");
}

#[test]
fn standard_vector_known_answer() {
    let mut key = [0u8; 16];
    for (i, k) in key.iter_mut().enumerate() {
        *k = i as u8;
    }
    let mut block = [0u8; 16];
    for (i, b) in block.iter_mut().enumerate() {
        *b = (i as u8) * 0x11;
    }
    let out = encrypt_one(key, block);
    assert_eq!(hex(&out), "69c4e0d86a7b0430d8cdb78070b4c55a");
}

#[test]
fn buffer_blocks_are_encrypted_independently() {
    let key = [7u8; 16];
    let cipher = BlockCipher::new(key);
    let mut data: Vec<u8> = (0..48u32).map(|i| (i * 3) as u8).collect();
    let original = data.clone();
    encrypt_in_place(&cipher, &mut data);
    for b in 0..3 {
        let mut block = [0u8; 16];
        block.copy_from_slice(&original[16 * b..16 * b + 16]);
        assert_eq!(&data[16 * b..16 * b + 16], &encrypt_one(key, block)[..]);
    }
}

#[test]
fn single_pass_changes_every_block_and_second_pass_changes_again() {
    let cipher = BlockCipher::new([0u8; 16]);
    let zero = vec![0u8; 64];
    let mut once = zero.clone();
    encrypt_in_place(&cipher, &mut once);
    for b in 0..4 {
        assert_ne!(&once[16 * b..16 * b + 16], &zero[16 * b..16 * b + 16]);
    }
    let mut twice = once.clone();
    encrypt_in_place(&cipher, &mut twice);
    assert_ne!(twice, once);
    let inner = encrypt_one([0u8; 16], [0u8; 16]);
    let outer = encrypt_one([0u8; 16], inner);
    for b in 0..4 {
        assert_eq!(&twice[16 * b..16 * b + 16], &outer[..]);
    }
}

#[test]
fn length_is_preserved() {
    let cipher = BlockCipher::new([1u8; 16]);
    for len in [0usize, 16, 32, 160, 4096] {
        let mut data = vec![0xabu8; len];
        encrypt_in_place(&cipher, &mut data);
        assert_eq!(data.len(), len);
    }
}

#[test]
fn same_input_same_key_gives_same_output() {
    let key = [0x5au8; 16];
    let input: Vec<u8> = (0..80u32).map(|i| (i * 7 + 1) as u8).collect();
    let mut first = input.clone();
    encrypt_in_place(&BlockCipher::new(key), &mut first);
    let mut second = input.clone();
    encrypt_in_place(&BlockCipher::new(key), &mut second);
    assert_eq!(first, second);
    assert_ne!(first, input);
}

#[test]
fn trailing_partial_block_is_left_untouched() {
    let cipher = BlockCipher::new([0u8; 16]);
    let mut data = vec![0u8; 17];
    data[16] = 0x42;
    encrypt_in_place(&cipher, &mut data);
    assert_eq!(data.len(), 17);
    assert_eq!(hex(&data[..16]), "66e94bd4ef8a2c3b884cfa59ca342b2e");
    assert_eq!(data[16], 0x42);
}

#[test]
fn buffer_shorter_than_a_block_is_unchanged() {
    let cipher = BlockCipher::new([3u8; 16]);
    let mut data = vec![9u8; 15];
    encrypt_in_place(&cipher, &mut data);
    assert_eq!(data, vec![9u8; 15]);
}

#[test]
fn default_config_is_64_mib_and_zero_key() {
    let cfg = BenchConfig::default_config();
    assert_eq!(cfg.size_bytes, 67108864);
    assert_eq!(DEFAULT_BUFFER_SIZE, 64 * 1024 * 1024);
    assert_eq!(cfg.key, [0u8; 16]);
}

#[test]
fn unaligned_size_is_refused() {
    assert_eq!(BenchConfig::new(17, [0u8; 16]).unwrap_err(), ConfigError::UnalignedSize);
    let cfg = BenchConfig::new(32, [9u8; 16]).unwrap();
    assert_eq!(cfg.size_bytes, 32);
    assert_eq!(cfg.key, [9u8; 16]);
}

#[test]
fn allocated_buffer_is_zeroed() {
    let cfg = BenchConfig::new(1024, [0u8; 16]).unwrap();
    let buf = cfg.allocate();
    assert_eq!(buf.len(), 1024);
    assert!(buf.iter().all(|b| *b == 0));
}

#[test]
fn config_cipher_uses_config_key() {
    let cfg = BenchConfig::new(16, [0u8; 16]).unwrap();
    let mut buf = cfg.allocate();
    encrypt_in_place(&cfg.cipher(), &mut buf);
    assert_eq!(hex(&buf), "66e94bd4ef8a2c3b884cfa59ca342b2e");
}

#[test]
fn load_and_store_address_the_right_window() {
    let mut data: Vec<u8> = (0..48u32).map(|i| i as u8).collect();
    let block = load_block(&data, 1);
    let expected: Vec<u8> = (16..32u32).map(|i| i as u8).collect();
    assert_eq!(&block[..], &expected[..]);
    store_block(&mut data, 2, &[0xffu8; 16]);
    assert_eq!(&data[32..48], &[0xffu8; 16][..]);
    assert_eq!(&data[..32], &(0..32u32).map(|i| i as u8).collect::<Vec<u8>>()[..]);
}
