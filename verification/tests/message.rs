use axum::http::{HeaderMap, HeaderName, HeaderValue};
use waf_gate::message::{
    map_http_version, read_request_value, read_response_value, HttpVersion, RequestHead,
    RequestValue, ResponseHead,
};

#[test]
fn versions_have_the_numbers_of_the_engine() {
    assert_eq!(map_http_version(HttpVersion::Http09), "0.9");
    assert_eq!(map_http_version(HttpVersion::Http10), "1.0");
    assert_eq!(map_http_version(HttpVersion::Http11), "1.1");
    assert_eq!(map_http_version(HttpVersion::Http2), "2.0");
    assert_eq!(map_http_version(HttpVersion::Http3), "3.0");
}

#[test]
fn request_values_that_are_text() {
    for text in ["", "plain", "tab\there", "gr\u{fc}n", "~ !\"#"] {
        match read_request_value(text.as_bytes()) {
            RequestValue::Text(read) => assert_eq!(read, text),
            other => panic!("{:?} for {:?}", other, text),
        }
    }
}

#[test]
fn request_values_with_control_characters_are_malformed() {
    let samples: [&[u8]; 5] = [b"\0", b"a\nb", b"a\r", b"\x1f", b"a\x7fb"];
    for bytes in samples {
        assert!(matches!(
            read_request_value(bytes),
            RequestValue::Malformed
        ));
    }
}

#[test]
fn request_values_that_are_no_text_are_malformed() {
    let samples: [&[u8]; 3] = [b"\xff", b"a\xc3", b"\x80abc"];
    for bytes in samples {
        assert!(matches!(
            read_request_value(bytes),
            RequestValue::Malformed
        ));
    }
}

#[test]
fn response_values_are_visible_ascii() {
    assert_eq!(read_response_value(b""), Some(String::new()));
    assert_eq!(
        read_response_value(b"text/plain;\tq=1 ~"),
        Some("text/plain;\tq=1 ~".to_owned())
    );
    assert_eq!(read_response_value("gr\u{fc}n".as_bytes()), None);
    assert_eq!(read_response_value(b"a\x7f"), None);
    assert_eq!(read_response_value(b"a\nb"), None);
}

#[test]
fn request_head_holds_every_field() {
    let mut map = HeaderMap::new();
    map.append(
        HeaderName::from_bytes(b"X-First").unwrap(),
        HeaderValue::from_static("one"),
    );
    map.append("accept", HeaderValue::from_static("a"));
    map.append("Accept", HeaderValue::from_bytes(b"\xff").unwrap());
    let head = RequestHead::read(
        HttpVersion::Http11,
        "/path?q".to_owned(),
        "POST".to_owned(),
        &map,
    );
    assert_eq!(head.version, HttpVersion::Http11);
    assert_eq!(head.uri, "/path?q");
    assert_eq!(head.method, "POST");
    let fields: Vec<(&str, &[u8])> = head
        .headers
        .iter()
        .map(|h| (h.name.as_str(), h.value.as_slice()))
        .collect();
    assert_eq!(
        fields,
        vec![
            ("x-first", b"one".as_slice()),
            ("accept", b"a".as_slice()),
            ("accept", b"\xff".as_slice()),
        ]
    );
}

#[test]
fn response_head_knows_whether_it_is_typed() {
    let mut map = HeaderMap::new();
    map.insert("x-content-type", HeaderValue::from_static("text/html"));
    let bare = ResponseHead::read(HttpVersion::Http2, 204, &map);
    assert!(!bare.typed);
    assert_eq!(bare.status, 204);
    assert_eq!(bare.version, HttpVersion::Http2);
    assert_eq!(bare.headers.len(), 1);

    map.insert("CONTENT-TYPE", HeaderValue::from_static("text/html"));
    let typed = ResponseHead::read(HttpVersion::Http2, 200, &map);
    assert!(typed.typed);
    assert_eq!(typed.headers.len(), 2);
    assert_eq!(typed.headers[1].name, "content-type");
    assert_eq!(typed.headers[1].value, b"text/html".to_vec());

    assert!(!ResponseHead::read(HttpVersion::Http2, 200, &HeaderMap::new()).typed);
}
