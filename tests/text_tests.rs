use adeploy::digest::{archive_hash, digest_matches, hex_of, verify_archive_hash};
use adeploy::error::AdeployError;
use adeploy::text::{
    base_name_of, decimal_text, join_path, padded_decimal_text, signed_decimal_text, split_lines,
    trim_text,
};

#[test]
fn decimal_numbers() {
    assert_eq!(decimal_text(0), "0");
    assert_eq!(decimal_text(104857600), "104857600");
    assert_eq!(decimal_text(u64::MAX), "18446744073709551615");
    assert_eq!(signed_decimal_text(-1), "-1");
    assert_eq!(signed_decimal_text(i64::MIN), "-9223372036854775808");
    assert_eq!(padded_decimal_text(7, 2), "07");
    assert_eq!(padded_decimal_text(2024, 4), "2024");
    assert_eq!(padded_decimal_text(12345, 4), "12345");
}

#[test]
fn trimming_removes_unicode_whitespace() {
    assert_eq!(trim_text(" \t key \r\n"), "key");
    assert_eq!(trim_text("\u{3000}a b\u{A0}"), "a b");
    assert_eq!(trim_text(""), "");
    assert_eq!(trim_text("   "), "");
}

#[test]
fn lines_follow_line_feeds() {
    assert_eq!(split_lines("a\nb\r\n\nc"), vec!["a", "b", "", "c"]);
    assert_eq!(split_lines("one\n"), vec!["one"]);
    assert_eq!(split_lines(""), Vec::<String>::new());
    assert_eq!(split_lines("\n"), vec![""]);
}

#[test]
fn paths_join_and_split() {
    assert_eq!(join_path("/srv", "app"), "/srv/app");
    assert_eq!(join_path("/srv/", "app"), "/srv/app");
    assert_eq!(join_path("", "app"), "app");
    assert_eq!(join_path("/srv", "/abs"), "/abs");
    assert_eq!(base_name_of("dir/sub/test1.txt"), "test1.txt");
    assert_eq!(base_name_of("test2.txt"), "test2.txt");
    assert_eq!(base_name_of("dir/"), "");
}

#[test]
fn hex_is_lower_case_two_digits_per_byte() {
    assert_eq!(hex_of(&[0x00, 0x0f, 0xa0, 0xff]), "000fa0ff");
    assert_eq!(hex_of(&[]), "");
}

#[test]
fn archive_hash_is_hex_sha256() {
    assert_eq!(
        archive_hash(b""),
        "e3b0c44298fc1c149afbf4c8996fb92427ae41e4649b934ca495991b7852b855"
    );
    assert_eq!(
        archive_hash(b"abc"),
        "ba7816bf8f01cfea414140de5dae2223b00361a396177a9cb410ff61f20015ad"
    );
}

#[test]
fn matching_hash_hands_back_the_bytes() {
    let data = b"abc".to_vec();
    let hash = archive_hash(&data);
    assert_eq!(verify_archive_hash(data.clone(), &hash).unwrap(), data);
}

#[test]
fn single_bit_flip_fails_hash_check() {
    let data = b"archive".to_vec();
    let hash = archive_hash(&data);
    let mut flipped = data.clone();
    flipped[0] ^= 1;
    let err = verify_archive_hash(flipped, &hash).unwrap_err();
    match err {
        AdeployError::Deploy(m) => {
            assert!(m.starts_with("Hash verification failed. Expected: "));
            assert!(m.contains(&hash));
        }
        _ => panic!("expected a deploy error"),
    }
}

#[test]
fn digest_comparison_is_on_lower_hex() {
    assert!(digest_matches(&[0xab, 0x01], "ab01"));
    assert!(!digest_matches(&[0xab, 0x01], "AB01"));
    assert!(!digest_matches(&[0xab, 0x01], "ab0"));
}
