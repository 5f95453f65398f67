use scoreboard::auth::{gen_random_string, url_safe_repeated};

#[test]
fn url_safe_of_zero_bytes() {
    assert_eq!(url_safe_repeated(0, 3), "AAAA");
    assert_eq!(url_safe_repeated(7, 0), "");
}

#[test]
fn url_safe_uses_dash_and_underscore() {
    assert_eq!(url_safe_repeated(0xff, 3), "____");
    assert_eq!(url_safe_repeated(0xfb, 1), "-w==");
}

#[test]
fn url_safe_pads_to_groups_of_four() {
    assert_eq!(url_safe_repeated(0x61, 2), "YWE=");
    assert_eq!(url_safe_repeated(0x61, 4).len(), 8);
}

#[test]
fn random_string_length_follows_padding() {
    assert_eq!(gen_random_string(4).len(), 8);
    assert_eq!(gen_random_string(3).len(), 4);
    assert_eq!(gen_random_string(0).len(), 0);
}

#[test]
fn random_string_repeats_one_byte() {
    let s = gen_random_string(6);
    assert_eq!(s.len(), 8);
    assert_eq!(&s[0..4], &s[4..8]);
}
