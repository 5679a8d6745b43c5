use guardian::headers::{is_header_value_text, set_headers};

#[test]
fn header_set_carries_the_credential_and_the_fixed_headers() {
    let headers = set_headers("Bearer ptla_secret".to_string()).unwrap();
    assert_eq!(headers.len(), 4);
    assert_eq!(headers.keys_len(), 4);
    assert_eq!(headers.get("authorization").unwrap().as_bytes(), b"Bearer ptla_secret");
    assert_eq!(headers.get("content-type").unwrap().as_bytes(), b"application/json");
    assert_eq!(headers.get("accept").unwrap().as_bytes(), b"application/json");
    assert_eq!(headers.get("user-agent").unwrap().as_bytes(), b"guardian/0.1.0");
}

#[test]
fn header_set_is_found_under_the_standard_names() {
    let headers = set_headers("Bearer k".to_string()).unwrap();
    assert_eq!(headers.get(reqwest::header::AUTHORIZATION).unwrap(), "Bearer k");
    assert_eq!(headers.get(reqwest::header::CONTENT_TYPE).unwrap(), "application/json");
    assert_eq!(headers.get(reqwest::header::ACCEPT).unwrap(), "application/json");
    assert_eq!(headers.get(reqwest::header::USER_AGENT).unwrap(), "guardian/0.1.0");
    assert_eq!(headers.get_all(reqwest::header::AUTHORIZATION).iter().count(), 1);
    assert_eq!(headers.get_all(reqwest::header::ACCEPT).iter().count(), 1);
}

#[test]
fn credential_with_a_line_break_is_refused() {
    assert!(set_headers("Bearer abc\ndef".to_string()).is_none());
    assert!(set_headers("Bearer abc\r".to_string()).is_none());
    assert!(set_headers("\u{0}".to_string()).is_none());
    assert!(set_headers("Bearer \u{7f}".to_string()).is_none());
}

#[test]
fn credential_with_a_tab_or_beyond_ascii_is_sent_as_its_bytes() {
    let headers = set_headers("Bearer a\tb".to_string()).unwrap();
    assert_eq!(headers.get("authorization").unwrap().as_bytes(), b"Bearer a\tb");
    let headers = set_headers("Bearer clé".to_string()).unwrap();
    assert_eq!(headers.get("authorization").unwrap().as_bytes(), "Bearer clé".as_bytes());
}

#[test]
fn empty_credential_is_sent_empty() {
    let headers = set_headers(String::new()).unwrap();
    assert_eq!(headers.get("authorization").unwrap().as_bytes(), b"");
    assert_eq!(headers.len(), 4);
}

#[test]
fn header_value_check_agrees_with_the_http_library() {
    let samples = [
        "", " ", "Bearer abc", "a\tb", "a\nb", "a\rb", "\u{1f}", "\u{7f}", "~", "é", "日本語", "a\u{0}b", "\u{80}",
    ];
    for sample in samples {
        let parsed = reqwest::header::HeaderValue::from_str(sample);
        assert_eq!(is_header_value_text(sample), parsed.is_ok());
    }
}
