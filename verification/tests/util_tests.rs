use hid_rs::util::{
    address_bytes_to_string, bytes_to_str, long_address_to_string, str_contains, str_to_os_str,
    try_bytes_to_str,
};

#[test]
fn bytes_to_str_truncates_at_first_nul() {
    assert_eq!(bytes_to_str(&[72, 73, 0, 255, 0]), "HI");
}

#[test]
fn bytes_to_str_without_nul_takes_everything() {
    assert_eq!(bytes_to_str(b"abc"), "abc");
}

#[test]
fn bytes_to_str_empty() {
    assert_eq!(bytes_to_str(&[]), "");
}

#[test]
fn bytes_to_str_leading_nul() {
    assert_eq!(bytes_to_str(&[0, 65, 66]), "");
}

#[test]
fn try_bytes_to_str_rejects_invalid_utf8_before_nul() {
    assert!(try_bytes_to_str(&[0xff, 0]).is_none());
}

#[test]
fn try_bytes_to_str_ignores_garbage_after_nul() {
    assert_eq!(try_bytes_to_str(&[65, 0, 0xff]).unwrap(), "A");
}

#[test]
fn address_bytes_render_as_hex_pairs() {
    assert_eq!(
        address_bytes_to_string(&[0xaa, 0xbb, 0xcc, 0xdd, 0xee, 0xff]),
        "aa:bb:cc:dd:ee:ff"
    );
}

#[test]
fn address_bytes_empty_renders_empty() {
    assert_eq!(address_bytes_to_string(&[]), "");
}

#[test]
fn address_bytes_single_byte() {
    assert_eq!(address_bytes_to_string(&[0x0a]), "0a");
}

#[test]
fn long_address_renders_like_its_bytes() {
    assert_eq!(long_address_to_string(0xaabbccddeeff), "aa:bb:cc:dd:ee:ff");
}

#[test]
fn long_address_keeps_leading_zeros() {
    assert_eq!(long_address_to_string(0x1), "00:00:00:00:00:01");
}

#[test]
fn os_str_is_nul_terminated() {
    assert_eq!(str_to_os_str("AB"), vec![65i8, 66, 0]);
}

#[test]
fn os_str_wraps_high_bytes() {
    // "é" encodes as the bytes 0xc3 0xa9.
    assert_eq!(str_to_os_str("\u{e9}"), vec![-61i8, -87, 0]);
}

#[test]
fn str_contains_finds_inner_fragment() {
    assert!(str_contains("\\\\?\\hid#vid_054c&col02#8&2de", "&col02#"));
}

#[test]
fn str_contains_rejects_absent_fragment() {
    assert!(!str_contains("\\\\?\\hid#vid_054c&col01#8&2de", "&col02#"));
}

#[test]
fn str_contains_empty_needle_always_matches() {
    assert!(str_contains("anything", ""));
    assert!(str_contains("", ""));
}

#[test]
fn str_contains_needle_longer_than_hay() {
    assert!(!str_contains("ab", "abc"));
}
