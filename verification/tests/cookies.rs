use ia_get_core::client::client_settings;
use ia_get_core::cookies::{cookie_header, extract_cookie_header};
use reqwest::header::{HeaderMap, HeaderValue, COOKIE, SET_COOKIE};

#[test]
fn extract_cookie_header_joins_multiple_cookies() {
    let mut headers = HeaderMap::new();
    headers.append(
        SET_COOKIE,
        HeaderValue::from_static("logged-in-user=user123; Path=/; Secure"),
    );
    headers.append(
        SET_COOKIE,
        HeaderValue::from_static("logged-in-sig=sig456; Path=/; Secure"),
    );

    let cookie_header = extract_cookie_header(&headers);
    assert_eq!(
        cookie_header,
        Some("logged-in-user=user123; logged-in-sig=sig456".to_string())
    );
}

fn values(texts: &[&[u8]]) -> Vec<Vec<u8>> {
    texts.iter().map(|text| text.to_vec()).collect()
}

#[test]
fn reply_without_cookies_gives_no_header() {
    let mut headers = HeaderMap::new();
    assert_eq!(extract_cookie_header(&headers), None);
    headers.append(COOKIE, HeaderValue::from_static("a=b"));
    assert_eq!(extract_cookie_header(&headers), None);
    headers.append(SET_COOKIE, HeaderValue::from_static(" ; Path=/"));
    assert_eq!(extract_cookie_header(&headers), None);
}

#[test]
fn values_that_are_not_text_are_passed_over() {
    let mut headers = HeaderMap::new();
    headers.append(SET_COOKIE, HeaderValue::from_static("a=1"));
    headers.append(SET_COOKIE, HeaderValue::from_bytes(b"b=\xff").unwrap());
    headers.append(SET_COOKIE, HeaderValue::from_static("\tc = 3 ;HttpOnly"));
    assert_eq!(extract_cookie_header(&headers), Some("a=1; c = 3".to_string()));
}

#[test]
fn cookie_pairs_keep_their_order() {
    assert_eq!(
        cookie_header(&values(&[b"b=2;x", b"a=1", b"", b";", b"b=3"])),
        Some("b=2; a=1; b=3".to_string())
    );
    assert_eq!(cookie_header(&values(&[])), None);
    assert_eq!(cookie_header(&values(&[b"a\n=1", b"b\x7f"])), None);
}

#[test]
fn cookie_header_can_always_be_sent() {
    let header = cookie_header(&values(&[b"a=\t~!", b"b\xc3\xa9=1", b"c=\"2\"; x"])).unwrap();
    assert_eq!(header, "a=\t~!; c=\"2\"");
    assert_eq!(
        client_settings(Some(&header)).unwrap().cookie,
        Some(header.into_bytes())
    );
}
