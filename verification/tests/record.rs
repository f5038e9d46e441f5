use losetup_rs::info::{bytes_eq, name_field, LoopInfo64, LOOP_INFO64_SIZE};

fn zero_record() -> LoopInfo64 {
    LoopInfo64::default()
}

#[test]
fn default_record_is_zero_filled() {
    let info = zero_record();
    assert_eq!(info.lo_device, 0);
    assert_eq!(info.lo_inode, 0);
    assert_eq!(info.lo_rdevice, 0);
    assert_eq!(info.lo_offset, 0);
    assert_eq!(info.lo_sizelimit, 0);
    assert_eq!(info.lo_number, 0);
    assert_eq!(info.lo_encrypt_type, 0);
    assert_eq!(info.lo_encrypt_key_size, 0);
    assert_eq!(info.lo_flags, 0);
    assert_eq!(info.lo_file_name, vec![0u8; 64]);
    assert_eq!(info.lo_crypt_name, vec![0u8; 64]);
    assert_eq!(info.lo_encrypt_key, vec![0u8; 32]);
    assert_eq!(info.lo_init, vec![0u64, 0u64]);
}

#[test]
fn encoded_record_has_the_documented_size() {
    let info = zero_record();
    let bytes = info.encode();
    assert_eq!(bytes.len(), LOOP_INFO64_SIZE);
    assert!(bytes.iter().all(|b| *b == 0));
}

fn sample_record() -> LoopInfo64 {
    let mut file_name = vec![0u8; 64];
    file_name[..9].copy_from_slice(b"/tmp/disk");
    let mut crypt_name = vec![0u8; 64];
    crypt_name[..4].copy_from_slice(b"none");
    let mut key = vec![0u8; 32];
    key[0] = 0xAA;
    key[31] = 0x55;
    LoopInfo64 {
        lo_device: 0x0102030405060708,
        lo_inode: 42,
        lo_rdevice: 7,
        lo_offset: 0,
        lo_sizelimit: 10 * 1024 * 1024,
        lo_number: 3,
        lo_encrypt_type: 0,
        lo_encrypt_key_size: 0,
        lo_flags: 0x0400,
        lo_file_name: file_name,
        lo_crypt_name: crypt_name,
        lo_encrypt_key: key,
        lo_init: vec![1, 2],
    }
}

#[test]
fn words_are_encoded_little_endian_at_fixed_offsets() {
    let info = sample_record();
    let bytes = info.encode();
    // lo_device at offset 0, least significant byte first.
    assert_eq!(&bytes[0..8], &[0x08, 0x07, 0x06, 0x05, 0x04, 0x03, 0x02, 0x01]);
    // lo_inode at offset 8.
    assert_eq!(&bytes[8..16], &[42, 0, 0, 0, 0, 0, 0, 0]);
    // lo_sizelimit at offset 32: 10 MiB = 0xA0_0000.
    assert_eq!(&bytes[32..40], &[0x00, 0x00, 0xA0, 0x00, 0x00, 0x00, 0x00, 0x00]);
    // lo_number at offset 40, 32 bits wide.
    assert_eq!(&bytes[40..44], &[3, 0, 0, 0]);
    // lo_flags at offset 52.
    assert_eq!(&bytes[52..56], &[0x00, 0x04, 0, 0]);
    // The name field occupies bytes 56..120.
    assert_eq!(&bytes[56..65], b"/tmp/disk");
    assert!(bytes[65..120].iter().all(|b| *b == 0));
    // The crypt name occupies bytes 120..184.
    assert_eq!(&bytes[120..124], b"none");
    // The key occupies bytes 184..216.
    assert_eq!(bytes[184], 0xAA);
    assert_eq!(bytes[215], 0x55);
    // The reserved words occupy bytes 216..232.
    assert_eq!(&bytes[216..224], &[1, 0, 0, 0, 0, 0, 0, 0]);
    assert_eq!(&bytes[224..232], &[2, 0, 0, 0, 0, 0, 0, 0]);
}

#[test]
fn decode_recovers_an_encoded_record() {
    let info = sample_record();
    let bytes = info.encode();
    let back = LoopInfo64::decode(&bytes);
    assert_eq!(back.lo_device, info.lo_device);
    assert_eq!(back.lo_inode, info.lo_inode);
    assert_eq!(back.lo_rdevice, info.lo_rdevice);
    assert_eq!(back.lo_offset, info.lo_offset);
    assert_eq!(back.lo_sizelimit, info.lo_sizelimit);
    assert_eq!(back.lo_number, info.lo_number);
    assert_eq!(back.lo_encrypt_type, info.lo_encrypt_type);
    assert_eq!(back.lo_encrypt_key_size, info.lo_encrypt_key_size);
    assert_eq!(back.lo_flags, info.lo_flags);
    assert_eq!(back.lo_file_name, info.lo_file_name);
    assert_eq!(back.lo_crypt_name, info.lo_crypt_name);
    assert_eq!(back.lo_encrypt_key, info.lo_encrypt_key);
    assert_eq!(back.lo_init, info.lo_init);
}

#[test]
fn encode_recovers_a_decoded_image() {
    let mut image = vec![0u8; 232];
    for (i, b) in image.iter_mut().enumerate() {
        *b = (i % 251) as u8;
    }
    let info = LoopInfo64::decode(&image);
    let back = info.encode();
    assert_eq!(back, image);
}

#[test]
fn name_field_pads_short_paths_with_nulls() {
    let field = name_field("/tmp/disk.img");
    assert_eq!(field.len(), 64);
    assert_eq!(&field[..13], b"/tmp/disk.img");
    assert!(field[13..].iter().all(|b| *b == 0));
}

#[test]
fn name_field_truncates_to_sixty_three_bytes() {
    let long = "/very/long/path/".repeat(8);
    assert!(long.len() > 64);
    let field = name_field(&long);
    assert_eq!(field.len(), 64);
    assert_eq!(&field[..63], &long.as_bytes()[..63]);
    assert_eq!(field[63], 0);
}

#[test]
fn file_name_matches_compares_against_the_padded_field() {
    let mut info = LoopInfo64::default();
    info.lo_file_name = name_field("/tmp/disk.img");
    assert!(info.file_name_matches("/tmp/disk.img"));
    assert!(!info.file_name_matches("/tmp/other.img"));
    // A record fresh from `default` names no file.
    let blank = LoopInfo64::default();
    assert!(!blank.file_name_matches("/tmp/disk.img"));
}

#[test]
fn bytes_eq_compares_contents() {
    assert!(bytes_eq(&vec![1, 2, 3], &vec![1, 2, 3]));
    assert!(!bytes_eq(&vec![1, 2, 3], &vec![1, 2, 4]));
    assert!(!bytes_eq(&vec![1, 2], &vec![1, 2, 3]));
    assert!(bytes_eq(&vec![], &vec![]));
}
