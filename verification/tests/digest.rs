use deviceservice::adrasset::asset_resource_name;
use deviceservice::digest::{
    generate_digest, generate_digest_of_width, hex_lower, DIGEST_WIDTH, MAX_DIGEST_WIDTH,
};

#[test]
fn digest_of_known_identifiers() {
    assert_eq!(generate_digest("cam-01"), "3346e149");
    assert_eq!(generate_digest("abc"), "63906248");
    assert_eq!(generate_digest(""), "1271cf25");
    assert_eq!(generate_digest("hello world"), "279e2877");
}

#[test]
fn digest_hashes_the_utf8_bytes() {
    assert_eq!(generate_digest("caf\u{e9}"), "2d03c5d6");
}

#[test]
fn digest_is_stable_across_calls() {
    let first = generate_digest("device-1");
    let second = generate_digest("device-1");
    let third = generate_digest(&String::from("device-1"));
    assert_eq!(first, second);
    assert_eq!(first, third);
    assert_eq!(first, "f0126cdb");
}

#[test]
fn digest_tells_sample_identifiers_apart() {
    assert_ne!(generate_digest("device-1"), generate_digest("device-2"));
    assert_ne!(generate_digest("cam-01"), generate_digest("Cam-01"));
    assert_eq!(generate_digest("device-2"), "8d4987ce");
    assert_eq!(generate_digest("Cam-01"), "a522c696");
}

#[test]
fn digest_is_not_the_identifier() {
    assert_ne!(generate_digest("3346e149"), "3346e149");
    assert_ne!(generate_digest("abc"), "abc");
}

#[test]
fn digest_is_eight_lower_case_hex_digits() {
    for id in ["", "a", "Cam-01", "newcr-with-instance-1", "a much longer identifier than most"] {
        let digest = generate_digest(id);
        assert_eq!(digest.len(), 2 * DIGEST_WIDTH);
        assert!(digest.chars().all(|c| c.is_ascii_digit() || ('a'..='f').contains(&c)));
    }
}

#[test]
fn digest_width_can_be_chosen() {
    assert_eq!(generate_digest_of_width("abc", 1), Some(String::from("6b")));
    assert_eq!(generate_digest_of_width("abc", DIGEST_WIDTH), Some(generate_digest("abc")));
    assert_eq!(
        generate_digest_of_width("abc", MAX_DIGEST_WIDTH),
        Some(String::from(
            "ba80a53f981c4d0d6a2797b69f12f6e94c212f14685ac4b74b12bb6fdbffa2d1\
             7d87c5392aab792dc252d5de4533cc9518d38aa8dbf1925ab92386edd4009923"
        ))
    );
}

#[test]
fn digest_width_out_of_range_gives_none() {
    assert_eq!(generate_digest_of_width("abc", 0), None);
    assert_eq!(generate_digest_of_width("abc", MAX_DIGEST_WIDTH + 1), None);
    assert_eq!(generate_digest_of_width("abc", usize::MAX), None);
}

#[test]
fn hex_lower_writes_two_digits_per_byte() {
    assert_eq!(hex_lower(&[]), "");
    assert_eq!(hex_lower(&[0x00]), "00");
    assert_eq!(hex_lower(&[0x0a]), "0a");
    assert_eq!(hex_lower(&[0xa0]), "a0");
    assert_eq!(hex_lower(&[0x00, 0xff, 0x1a, 0x9c]), "00ff1a9c");
    assert_eq!(hex_lower(&[0x01, 0x23, 0x45, 0x67, 0x89, 0xab, 0xcd, 0xef]), "0123456789abcdef");
}

#[test]
fn asset_name_is_prefix_and_digest() {
    assert_eq!(asset_resource_name("cam-01"), "onvif-asset-3346e149");
    assert_eq!(asset_resource_name(""), "onvif-asset-1271cf25");
    assert_eq!(asset_resource_name("cam-01"), format!("onvif-asset-{}", generate_digest("cam-01")));
}
