use reverse_image_search::utils::{
    base64_to_bytes, bytes_to_base64, extract_numbers, html_unescape, normalize_url, url_encode,
};
use reverse_image_search::error::ErrorKind;

#[test]
fn test_url_encode() {
    assert_eq!(url_encode("hello world"), "hello%20world");
    assert_eq!(url_encode("你好"), "%E4%BD%A0%E5%A5%BD");
}

#[test]
fn test_html_unescape() {
    assert_eq!(html_unescape("&lt;div&gt;"), "<div>");
    assert_eq!(html_unescape("&quot;hello&quot;"), "\"hello\"");
}

#[test]
fn test_extract_numbers() {
    assert_eq!(extract_numbers("abc123def456"), vec![123, 456]);
    assert_eq!(extract_numbers("no numbers"), Vec::<i64>::new());
}

#[test]
fn test_normalize_url() {
    assert_eq!(
        normalize_url("//example.com").unwrap(),
        "https://example.com"
    );
    assert_eq!(
        normalize_url("http://example.com").unwrap(),
        "http://example.com"
    );
}

#[test]
fn normalize_url_is_idempotent_on_samples() {
    for x in ["//a.com/b", "http://a.com", "https://a.com", "", "ftp://x", "a.com"] {
        let once = normalize_url(x).unwrap();
        let twice = normalize_url(&once).unwrap();
        assert_eq!(once, twice);
    }
    assert_eq!(normalize_url("//a.com/b").unwrap(), "https://a.com/b");
    assert_eq!(normalize_url("http://a.com").unwrap(), "http://a.com");
}

#[test]
fn base64_round_trip() {
    let samples: Vec<Vec<u8>> = vec![vec![], vec![0], vec![1, 2], vec![255, 254, 253], (0..=255).collect()];
    for bytes in samples {
        let text = bytes_to_base64(&bytes);
        assert_eq!(base64_to_bytes(&text).unwrap(), bytes);
    }
}

#[test]
fn base64_known_values() {
    assert_eq!(bytes_to_base64(b"hello"), "aGVsbG8=");
    assert_eq!(bytes_to_base64(b""), "");
    assert_eq!(base64_to_bytes("aGVsbG8=").unwrap(), b"hello".to_vec());
}

#[test]
fn base64_rejects_malformed_text() {
    let e = base64_to_bytes("not base64!").unwrap_err();
    assert_eq!(e.kind(), ErrorKind::Decode);
    assert_eq!(base64_to_bytes("aGVsbG8").unwrap_err().kind(), ErrorKind::Decode);
}

#[test]
fn url_encode_keeps_unreserved_and_encodes_the_rest() {
    assert_eq!(url_encode("a-b_c.d*e"), "a-b_c.d*e");
    assert_eq!(url_encode("a+b"), "a%2Bb");
    assert_eq!(url_encode("a&b=c/d?e"), "a%26b%3Dc%2Fd%3Fe");
    assert_eq!(url_encode(""), "");
}

#[test]
fn extract_numbers_drops_runs_that_do_not_fit() {
    assert_eq!(extract_numbers("9223372036854775807"), vec![i64::MAX]);
    assert_eq!(extract_numbers("9223372036854775808 7"), vec![7]);
    assert_eq!(extract_numbers("007 and 10"), vec![7, 10]);
}
