//! The parts of an HTTP message head that the inspection reads.

use vstd::prelude::*;

verus! {

/// `http::HeaderMap`, carried through without looking inside.
#[verifier::external_type_specification]
#[verifier::external_body]
#[verifier::reject_recursive_types(T)]
pub struct ExHeaderMap<T>(axum::http::HeaderMap<T>);

/// `http::HeaderValue`, the value type of a header map.
#[verifier::external_type_specification]
#[verifier::external_body]
pub struct ExHeaderValue(axum::http::HeaderValue);

/// The fields of a header map in the order in which the map is walked: the name, which
/// the map keeps in lower case, and the bytes of the value. A name with several values is
/// there once for each of them.
pub uninterp spec fn header_fields(headers: axum::http::HeaderMap<axum::http::HeaderValue>) -> Seq<
    (Seq<char>, Seq<u8>),
>;

/// The protocol versions that a message can carry.
#[derive(Clone, Copy, Debug, PartialEq, Eq, Structural)]
pub enum HttpVersion {
    Http09,
    Http10,
    Http11,
    Http2,
    Http3,
}

/// The number by which the engine knows a protocol version.
pub open spec fn version_text(version: HttpVersion) -> Seq<char> {
    match version {
        HttpVersion::Http09 => "0.9"@,
        HttpVersion::Http10 => "1.0"@,
        HttpVersion::Http11 => "1.1"@,
        HttpVersion::Http2 => "2.0"@,
        HttpVersion::Http3 => "3.0"@,
    }
}

/// Names a protocol version the way the engine expects it.
pub fn map_http_version(version: HttpVersion) -> (text: &'static str)
    ensures
        text@ == version_text(version),
{
    match version {
        HttpVersion::Http09 => "0.9",
        HttpVersion::Http10 => "1.0",
        HttpVersion::Http11 => "1.1",
        HttpVersion::Http2 => "2.0",
        HttpVersion::Http3 => "3.0",
    }
}

/// One header field. Its view is the pair of the name and the bytes of the value.
#[derive(Debug)]
pub struct Header {
    pub name: String,
    pub value: Vec<u8>,
}

impl View for Header {
    type V = (Seq<char>, Seq<u8>);

    open spec fn view(&self) -> (Seq<char>, Seq<u8>) {
        (self.name@, self.value@)
    }
}

/// The views of a list of header fields.
pub open spec fn fields_view(headers: Seq<Header>) -> Seq<(Seq<char>, Seq<u8>)> {
    headers.map_values(|h: Header| h@)
}

/// Walks an `http::HeaderMap` with `HeaderMap::iter` and copies out every field, the name
/// through `HeaderName::as_str` and the value through `HeaderValue::as_bytes`. Trusted: the
/// copies are the fields of the map, in the order of the walk.
#[verifier::external_body]
fn copy_fields(headers: &axum::http::HeaderMap<axum::http::HeaderValue>) -> (fields: Vec<Header>)
    ensures
        fields_view(fields@) == header_fields(*headers),
{
    headers
        .iter()
        .map(|(name, value)| Header {
            name: name.as_str().to_owned(),
            value: value.as_bytes().to_vec(),
        })
        .collect()
}

/// The lower-case form of an ASCII letter; any other character stands for itself.
pub open spec fn lower(c: char) -> char {
    if 'A' <= c && c <= 'Z' {
        ((c as u32) + 32) as char
    } else {
        c
    }
}

/// Whether a text is a field name of moderate length made of letters, digits and hyphens.
pub open spec fn plain_field_name(name: Seq<char>) -> bool {
    &&& 1 <= name.len() <= 64
    &&& forall|i: int|
        0 <= i < name.len() ==> {
            ||| 'a' <= #[trigger] name[i] && name[i] <= 'z'
            ||| 'A' <= name[i] && name[i] <= 'Z'
            ||| '0' <= name[i] && name[i] <= '9'
            ||| name[i] == '-'
        }
}

/// Whether one of the fields carries the given name, in lower case.
pub open spec fn has_field(fields: Seq<(Seq<char>, Seq<u8>)>, name: Seq<char>) -> bool {
    exists|i: int|
        0 <= i < fields.len() && (#[trigger] fields[i]).0 == name.map_values(|c: char| lower(c))
}

/// Asks `HeaderMap::contains_key`. Trusted: the map finds a name exactly when one of its
/// fields carries that name, whatever the case in which it is asked for.
#[verifier::external_body]
fn contains_key(headers: &axum::http::HeaderMap<axum::http::HeaderValue>, name: &str) -> (found:
    bool)
    requires
        plain_field_name(name@),
    ensures
        found == has_field(header_fields(*headers), name@),
{
    headers.contains_key(name)
}

/// The bytes that a header value may hold: a tab, and everything from the space on but DEL.
pub open spec fn acceptable_value(bytes: Seq<u8>) -> bool {
    forall|i: int|
        0 <= i < bytes.len() ==> (#[trigger] bytes[i]) == 9 || (bytes[i] >= 32 && bytes[i] != 127)
}

/// Asks `HeaderValue::from_bytes` whether it takes the bytes. Trusted: it refuses them
/// exactly when one of them is a control character other than the tab.
#[verifier::external_body]
fn is_acceptable_value(bytes: &[u8]) -> (accepted: bool)
    ensures
        accepted == acceptable_value(bytes@),
{
    axum::http::HeaderValue::from_bytes(bytes).is_ok()
}

/// The bytes that count as visible in a header value: a tab and printable ASCII.
pub open spec fn visible_value(bytes: Seq<u8>) -> bool {
    forall|i: int|
        0 <= i < bytes.len() ==> (#[trigger] bytes[i]) == 9 || 32 <= bytes[i] < 127
}

/// Bytes of ASCII read as text.
pub open spec fn ascii_text(bytes: Seq<u8>) -> Seq<char> {
    bytes.map_values(|b: u8| b as char)
}

/// Makes an `http::HeaderValue` of the bytes and reads it with `HeaderValue::to_str`.
/// Trusted: there is a text exactly when every byte is visible, and it is the bytes read as
/// ASCII.
#[verifier::external_body]
fn visible_text(bytes: &[u8]) -> (text: Option<String>)
    ensures
        text is Some <==> visible_value(bytes@),
        text matches Some(t) ==> t@ == ascii_text(bytes@),
{
    let value = axum::http::HeaderValue::from_bytes(bytes).ok()?;
    value.to_str().ok().map(|t| t.to_owned())
}

/// Reads bytes with `std::str::from_utf8`. Trusted: there is a text exactly when the bytes
/// are UTF-8, and it is what they encode.
#[verifier::external_body]
fn utf8_text(bytes: &[u8]) -> (text: Option<String>)
    ensures
        text is Some <==> vstd::utf8::valid_utf8(bytes@),
        text matches Some(t) ==> t@ == vstd::utf8::decode_utf8(bytes@),
{
    std::str::from_utf8(bytes).ok().map(|t| t.to_owned())
}

/// Asks `StatusCode::from_u16`. Trusted: the codes from 100 to 999 are taken as they are,
/// and no others.
#[verifier::external_body]
pub(crate) fn status_code(code: u16) -> (status: Option<u16>)
    ensures
        status == (if 100 <= code <= 999 {
            Some(code)
        } else {
            None
        }),
{
    axum::http::StatusCode::from_u16(code).ok().map(|s| s.as_u16())
}

/// What becomes of a request header value.
#[derive(Debug)]
pub enum RequestValue {
    /// The engine is given this text.
    Text(String),
    /// No header value may hold these bytes, or they are no text; the request is malformed.
    Malformed,
}

/// The view of a [`RequestValue`].
pub enum RequestValueView {
    Text(Seq<char>),
    Malformed,
}

impl View for RequestValue {
    type V = RequestValueView;

    open spec fn view(&self) -> RequestValueView {
        match self {
            RequestValue::Text(t) => RequestValueView::Text(t@),
            RequestValue::Malformed => RequestValueView::Malformed,
        }
    }
}

/// What becomes of a request header value with the given bytes: they are well-formed where a
/// header value may hold them and they are UTF-8.
pub open spec fn request_value(bytes: Seq<u8>) -> RequestValueView {
    if !acceptable_value(bytes) || !vstd::utf8::valid_utf8(bytes) {
        RequestValueView::Malformed
    } else {
        RequestValueView::Text(vstd::utf8::decode_utf8(bytes))
    }
}

/// Reads a request header value.
pub fn read_request_value(bytes: &[u8]) -> (value: RequestValue)
    ensures
        value@ == request_value(bytes@),
{
    if !is_acceptable_value(bytes) {
        return RequestValue::Malformed;
    }
    match utf8_text(bytes) {
        Some(text) => RequestValue::Text(text),
        None => RequestValue::Malformed,
    }
}

/// The text of a response header value with the given bytes, if it has one.
pub open spec fn response_value(bytes: Seq<u8>) -> Option<Seq<char>> {
    if visible_value(bytes) {
        Some(ascii_text(bytes))
    } else {
        None
    }
}

/// Reads a response header value. There is none where a byte is not visible ASCII.
pub fn read_response_value(bytes: &[u8]) -> (value: Option<String>)
    ensures
        text_view(value) == response_value(bytes@),
{
    visible_text(bytes)
}

/// The view of a text that may be missing.
pub open spec fn text_view(text: Option<String>) -> Option<Seq<char>> {
    match text {
        Some(t) => Some(t@),
        None => None,
    }
}

/// The head of a request as the inspection sees it.
#[derive(Debug)]
pub struct RequestHead {
    pub version: HttpVersion,
    pub uri: String,
    pub method: String,
    pub headers: Vec<Header>,
}

/// The view of a [`RequestHead`].
pub struct RequestHeadView {
    pub version: HttpVersion,
    pub uri: Seq<char>,
    pub method: Seq<char>,
    pub headers: Seq<(Seq<char>, Seq<u8>)>,
}

impl View for RequestHead {
    type V = RequestHeadView;

    open spec fn view(&self) -> RequestHeadView {
        RequestHeadView {
            version: self.version,
            uri: self.uri@,
            method: self.method@,
            headers: fields_view(self.headers@),
        }
    }
}

impl RequestHead {
    /// Takes the head of a request apart.
    pub fn read(
        version: HttpVersion,
        uri: String,
        method: String,
        headers: &axum::http::HeaderMap<axum::http::HeaderValue>,
    ) -> (head: RequestHead)
        ensures
            head@ == (RequestHeadView {
                version,
                uri: uri@,
                method: method@,
                headers: header_fields(*headers),
            }),
    {
        RequestHead { version, uri, method, headers: copy_fields(headers) }
    }
}

/// The head of a response as the inspection sees it.
#[derive(Debug)]
pub struct ResponseHead {
    pub version: HttpVersion,
    pub status: u16,
    pub headers: Vec<Header>,
    /// Whether the response names the type of its content.
    pub typed: bool,
}

/// The view of a [`ResponseHead`].
pub struct ResponseHeadView {
    pub version: HttpVersion,
    pub status: u16,
    pub headers: Seq<(Seq<char>, Seq<u8>)>,
    pub typed: bool,
}

impl ResponseHeadView {
    /// Whether the mark of a typed response agrees with the header fields.
    pub open spec fn consistent(self) -> bool {
        self.typed == has_field(self.headers, "Content-Type"@)
    }
}

impl View for ResponseHead {
    type V = ResponseHeadView;

    open spec fn view(&self) -> ResponseHeadView {
        ResponseHeadView {
            version: self.version,
            status: self.status,
            headers: fields_view(self.headers@),
            typed: self.typed,
        }
    }
}

impl ResponseHead {
    /// Takes the head of a response apart.
    pub fn read(
        version: HttpVersion,
        status: u16,
        headers: &axum::http::HeaderMap<axum::http::HeaderValue>,
    ) -> (head: ResponseHead)
        ensures
            head@.version == version,
            head@.status == status,
            head@.headers == header_fields(*headers),
            head@.consistent(),
            head@.typed <==> exists|i: int|
                0 <= i < header_fields(*headers).len() && (#[trigger] header_fields(*headers)[i]).0
                    == "content-type"@,
    {
        proof {
            reveal_strlit("Content-Type");
            law_content_type_is_found_in_lower_case(header_fields(*headers));
        }
        let typed = contains_key(headers, "Content-Type");
        ResponseHead { version, status, headers: copy_fields(headers), typed }
    }
}

/// Each protocol version has its own number, and the numbers are those of the protocol.
pub proof fn law_versions_are_told_by_number(version: HttpVersion)
    ensures
        version_text(version) == "0.9"@ <==> version is Http09,
        version_text(version) == "1.0"@ <==> version is Http10,
        version_text(version) == "1.1"@ <==> version is Http11,
        version_text(version) == "2.0"@ <==> version is Http2,
        version_text(version) == "3.0"@ <==> version is Http3,
{
    reveal_strlit("0.9");
    reveal_strlit("1.0");
    reveal_strlit("1.1");
    reveal_strlit("2.0");
    reveal_strlit("3.0");
    let texts = seq!["0.9"@, "1.0"@, "1.1"@, "2.0"@, "3.0"@];
    assert(texts[0][0] == '0');
    assert(texts[1][2] == '0' && texts[1][0] == '1');
    assert(texts[2][2] == '1' && texts[2][0] == '1');
    assert(texts[3][0] == '2');
    assert(texts[4][0] == '3');
}

/// A request header value is read as the text that its bytes encode, whatever its length, where
/// they are UTF-8 and each of them is a tab or no control character; any other is malformed.
pub proof fn law_request_values_are_texts(bytes: Seq<u8>)
    ensures
        match request_value(bytes) {
            RequestValueView::Text(text) => {
                &&& text == vstd::utf8::decode_utf8(bytes)
                &&& vstd::utf8::valid_utf8(bytes)
                &&& forall|k: int|
                    0 <= k < bytes.len() ==> (#[trigger] bytes[k]) == 9 || (bytes[k] >= 32
                        && bytes[k] != 127)
            },
            RequestValueView::Malformed => {
                ||| !vstd::utf8::valid_utf8(bytes)
                ||| exists|k: int|
                    0 <= k < bytes.len() && ((#[trigger] bytes[k]) == 127 || (bytes[k] < 32
                        && bytes[k] != 9))
            },
        },
{
}

/// A response header value is read, whatever its length, where each of its bytes is a tab or
/// printable ASCII, and then character for byte; any other has no text.
pub proof fn law_response_values_are_ascii(bytes: Seq<u8>)
    ensures
        match response_value(bytes) {
            Some(text) => {
                &&& text.len() == bytes.len()
                &&& forall|k: int|
                    0 <= k < bytes.len() ==> {
                        &&& (#[trigger] bytes[k]) == 9 || 32 <= bytes[k] <= 126
                        &&& text[k] as int == bytes[k]
                    }
            },
            None => exists|k: int|
                0 <= k < bytes.len() && ((#[trigger] bytes[k]) > 126 || (bytes[k] < 32 && bytes[k]
                    != 9)),
        },
{
}

/// The content type of a response is found under its lower-case name.
pub proof fn law_content_type_is_found_in_lower_case(fields: Seq<(Seq<char>, Seq<u8>)>)
    ensures
        has_field(fields, "Content-Type"@) <==> exists|i: int|
            0 <= i < fields.len() && (#[trigger] fields[i]).0 == "content-type"@,
{
    reveal_strlit("Content-Type");
    reveal_strlit("content-type");
    assert("Content-Type"@.map_values(|c: char| lower(c)) =~= "content-type"@);
}

/// Whether a text is a name with every capital letter replaced by the small one.
pub open spec fn small_spelling(text: Seq<char>, name: Seq<char>) -> bool {
    &&& text.len() == name.len()
    &&& forall|k: int|
        0 <= k < name.len() ==> if 'A' <= #[trigger] name[k] && name[k] <= 'Z' {
            text[k] as int == name[k] as int + 32
        } else {
            text[k] == name[k]
        }
}

/// A field is found under a name exactly when one of the fields has the small spelling of it.
pub proof fn law_fields_are_found_whatever_the_case(
    fields: Seq<(Seq<char>, Seq<u8>)>,
    name: Seq<char>,
)
    ensures
        has_field(fields, name) <==> exists|i: int|
            0 <= i < fields.len() && small_spelling((#[trigger] fields[i]).0, name),
{
    let small = name.map_values(|c: char| lower(c));
    assert forall|text: Seq<char>| #[trigger] small_spelling(text, name) implies text == small by {
        assert forall|k: int| 0 <= k < name.len() implies text[k] == small[k] by {
            let wanted = name[k];
        }
        assert(text =~= small);
    }
    assert(small_spelling(small, name));
}

/// The view of a request header value that was read tells whether it is malformed and shows the
/// text of one that is not, and the view of a text that may be missing shows it where it is
/// there.
pub proof fn law_values_are_seen_whole(value: RequestValue, text: Option<String>)
    ensures
        value is Malformed <==> value@ is Malformed,
        value matches RequestValue::Text(t) ==> value@ == RequestValueView::Text(t@),
        text is None <==> text_view(text) is None,
        text matches Some(t) ==> text_view(text) == Some(t@),
{
}

/// The view of a request head shows each part of it: the version, the URI, the method, and every
/// header with its name and its bytes, in order.
pub proof fn law_request_head_is_seen_whole(head: RequestHead)
    ensures
        head@.version == head.version,
        head@.uri == head.uri@,
        head@.method == head.method@,
        head@.headers.len() == head.headers@.len(),
        forall|i: int|
            0 <= i < head.headers@.len() ==> (#[trigger] head@.headers[i]) == (
                head.headers@[i].name@,
                head.headers@[i].value@,
            ),
{
}

/// The view of a response head shows each part of it: the version, the status, every header with
/// its name and its bytes, in order, and whether it names the type of its content.
pub proof fn law_response_head_is_seen_whole(head: ResponseHead)
    ensures
        head@.version == head.version,
        head@.status == head.status,
        head@.typed == head.typed,
        head@.headers.len() == head.headers@.len(),
        forall|i: int|
            0 <= i < head.headers@.len() ==> (#[trigger] head@.headers[i]) == (
                head.headers@[i].name@,
                head.headers@[i].value@,
            ),
{
}

} // verus!
