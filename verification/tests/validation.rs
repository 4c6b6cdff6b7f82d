use rurl_shortener::validation::{is_valid_short_link, is_valid_url};

#[test]
fn test_url_validation() {
    assert!(is_valid_url("https://google.com"));
    assert!(is_valid_url("http://docs.google.com"));
    assert!(is_valid_url("https://github.com/login"));
    assert!(is_valid_url("https://www.youtube.com/watch?v=dQw4w9WgXcQ"));
    assert!(is_valid_url("https://example.com/#section1"));
    assert!(is_valid_url("http://a.io"));
    assert!(is_valid_url("http://127.0.0.1"));

    assert!(!is_valid_url("google.com"));
    assert!(!is_valid_url("127.0.0.1/index.html"));
    assert!(!is_valid_url("http://"));
    assert!(!is_valid_url("https://examp le.com/#section1"));
}

#[test]
fn test_short_link_validation() {
    assert!(is_valid_short_link("abcdefg"));
    assert!(is_valid_short_link("1231321"));
    assert!(is_valid_short_link("yandex_disk"));
    assert!(is_valid_short_link("youtube_video"));

    assert!(!is_valid_short_link("111"));
    assert!(!is_valid_short_link("have some spaces"));
    assert!(!is_valid_short_link("exam/ple"));
    assert!(!is_valid_short_link("very_very_very_very_long_link"));
}

#[test]
fn test_short_link_length_bounds() {
    assert!(is_valid_short_link("abcd"));
    assert!(is_valid_short_link("abcdefgh_1234567"));

    assert!(!is_valid_short_link("abc"));
    assert!(!is_valid_short_link("abcdefgh_12345678"));
}

#[test]
fn test_empty_inputs_rejected() {
    assert!(!is_valid_url(""));
    assert!(!is_valid_short_link(""));
}
