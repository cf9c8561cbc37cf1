use timelapse::fingerprint::{fingerprint_hex, fingerprint_matches_sentinel, is_placeholder};

#[test]
fn fingerprint_of_empty_input() {
    let frame: Vec<u8> = vec![];
    assert_eq!(fingerprint_hex(&frame).as_str(), "d41d8cd98f00b204e9800998ecf8427e");
}

#[test]
fn fingerprint_of_known_bytes() {
    let frame: Vec<u8> = b"hello".to_vec();
    assert_eq!(fingerprint_hex(&frame).as_str(), "5d41402abc4b2a76b9719d911017c592");
}

#[test]
fn fingerprint_is_32_lowercase_hex_chars() {
    let frame: Vec<u8> = vec![0x00, 0xff, 0x10];
    let hex = fingerprint_hex(&frame);
    assert_eq!(hex.len(), 32);
    assert!(hex.chars().all(|c| c.is_ascii_hexdigit() && !c.is_ascii_uppercase()));
}

#[test]
fn sentinel_fingerprint_matches() {
    assert!(fingerprint_matches_sentinel("64a9507f752d598345378763b25bdcaf"));
}

#[test]
fn other_fingerprints_do_not_match() {
    assert!(!fingerprint_matches_sentinel("d41d8cd98f00b204e9800998ecf8427e"));
    assert!(!fingerprint_matches_sentinel(""));
    assert!(!fingerprint_matches_sentinel("64a9507f752d598345378763b25bdca"));
    assert!(!fingerprint_matches_sentinel("64a9507f752d598345378763b25bdcaF"));
}

#[test]
fn empty_frame_is_not_placeholder() {
    let frame: Vec<u8> = vec![];
    assert!(!is_placeholder(&frame));
}

#[test]
fn single_byte_frame_is_not_placeholder() {
    let frame: Vec<u8> = vec![0x42];
    assert!(!is_placeholder(&frame));
}

#[test]
fn ordinary_frame_is_not_placeholder() {
    let frame: Vec<u8> = b"\xff\xd8\xff\xe0 not the sentinel image".to_vec();
    assert!(!is_placeholder(&frame));
}
