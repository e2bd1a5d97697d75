//! The heads of HTTP messages: what they hold, and the builders and accessors
//! of the `http` crate that make and read them.

use vstd::prelude::*;
use vstd::seq_lib::seq_to_set_is_finite;
use vstd::utf8::encode_utf8;

verus! {

#[verifier::external_type_specification]
#[verifier::external_body]
#[verifier::reject_recursive_types(T)]
pub struct ExRequest<T>(http::Request<T>);

#[verifier::external_type_specification]
#[verifier::external_body]
pub struct ExRequestBuilder(http::request::Builder);

#[verifier::external_type_specification]
#[verifier::external_body]
#[verifier::reject_recursive_types(T)]
pub struct ExResponse<T>(http::Response<T>);

#[verifier::external_type_specification]
#[verifier::external_body]
pub struct ExResponseBuilder(http::response::Builder);

#[verifier::external_type_specification]
#[verifier::external_body]
pub struct ExHttpError(http::Error);

#[verifier::external_type_specification]
#[verifier::external_body]
pub struct ExInvalidUri(http::uri::InvalidUri);

/// The protocol version that a message head carries.
#[derive(Debug, Clone, Copy, PartialEq, Eq, Structural)]
pub enum MessageVersion {
    Http11,
    Http3,
}

/// The components of a request's URI, each absent where the URI has none.
pub struct UriView {
    pub scheme: Option<Seq<char>>,
    pub authority: Option<Seq<char>>,
    pub path_and_query: Option<Seq<char>>,
}

/// What a request says apart from its body. The fields stand in the order in
/// which they are read out.
pub struct RequestHead {
    pub method: Seq<char>,
    pub protocol: Option<Seq<char>>,
    pub uri: UriView,
    pub version: MessageVersion,
    pub fields: Seq<(Seq<u8>, Seq<u8>)>,
}

/// What a response says apart from its body.
pub struct ResponseHead {
    pub status: u16,
    pub version: MessageVersion,
    pub fields: Seq<(Seq<u8>, Seq<u8>)>,
}

/// A request's parts as plain values.
#[derive(Debug)]
pub struct RequestParts {
    pub method: String,
    pub protocol: Option<String>,
    pub scheme: Option<String>,
    pub authority: Option<String>,
    pub path_and_query: Option<String>,
    pub fields: Vec<Header>,
}

/// One header field of a message.
#[derive(Debug)]
pub struct Header {
    pub name: Vec<u8>,
    pub value: Vec<u8>,
}

impl View for Header {
    type V = (Seq<u8>, Seq<u8>);

    open spec fn view(&self) -> (Seq<u8>, Seq<u8>) {
        (self.name@, self.value@)
    }
}

/// The name and value of each header in a list.
pub open spec fn header_views(headers: Seq<Header>) -> Seq<(Seq<u8>, Seq<u8>)> {
    headers.map_values(|header: Header| header@)
}

/// The text of an optional string.
pub open spec fn text_view(text: Option<String>) -> Option<Seq<char>> {
    match text {
        Some(text) => Some(text@),
        None => None,
    }
}

impl RequestParts {
    /// The URI's components.
    pub open spec fn uri(&self) -> UriView {
        UriView {
            scheme: text_view(self.scheme),
            authority: text_view(self.authority),
            path_and_query: text_view(self.path_and_query),
        }
    }

    /// Whether these are the parts that `head` holds.
    pub open spec fn matches_head(&self, head: RequestHead) -> bool {
        &&& self.method@ == head.method
        &&& text_view(self.protocol) == head.protocol
        &&& self.uri() == head.uri
        &&& header_views(self.fields@) == head.fields
    }
}

/// Whether `b` may stand in a header name.
pub open spec fn is_token_byte(b: u8) -> bool {
    ||| 0x30 <= b <= 0x39
    ||| 0x41 <= b <= 0x5a
    ||| 0x61 <= b <= 0x7a
    ||| b == 0x21 || b == 0x23 || b == 0x24 || b == 0x25 || b == 0x26 || b == 0x27
    ||| b == 0x2a || b == 0x2b || b == 0x2d || b == 0x2e
    ||| b == 0x5e || b == 0x5f || b == 0x60 || b == 0x7c || b == 0x7e
}

/// Whether `name` is a header name: a token of at most 65535 bytes.
pub open spec fn is_field_name(name: Seq<u8>) -> bool {
    &&& 1 <= name.len() <= 65535
    &&& forall|i: int| 0 <= i < name.len() ==> is_token_byte(#[trigger] name[i])
}

/// Whether `b` may stand in a header value: anything but a control byte, and
/// the tab.
pub open spec fn is_value_byte(b: u8) -> bool {
    (b >= 32 && b != 127) || b == 9
}

/// Whether `value` is a header value.
pub open spec fn is_field_value(value: Seq<u8>) -> bool {
    forall|i: int| 0 <= i < value.len() ==> is_value_byte(#[trigger] value[i])
}

pub open spec fn lower_byte(b: u8) -> u8 {
    if 0x41 <= b <= 0x5a {
        (b + 32) as u8
    } else {
        b
    }
}

/// A header name in lower case, as messages hold it.
pub open spec fn lower_name(name: Seq<u8>) -> Seq<u8> {
    name.map_values(|b: u8| lower_byte(b))
}

/// The last position at which `fields` holds `name`, or -1.
pub open spec fn last_named(fields: Seq<(Seq<u8>, Seq<u8>)>, name: Seq<u8>) -> int
    decreases fields.len(),
{
    if fields.len() == 0 {
        -1
    } else if fields.last().0 == name {
        fields.len() - 1
    } else {
        last_named(fields.drop_last(), name)
    }
}

/// `fields` with one more: behind the last one of the same name, or at the end
/// where the name is new.
pub open spec fn append_field(
    fields: Seq<(Seq<u8>, Seq<u8>)>,
    name: Seq<u8>,
    value: Seq<u8>,
) -> Seq<(Seq<u8>, Seq<u8>)> {
    let last = last_named(fields, name);
    if last < 0 {
        fields.push((name, value))
    } else {
        fields.insert(last + 1, (name, value))
    }
}

/// A name that `fields` does not hold is appended at the end.
pub(crate) proof fn append_new_name(
    fields: Seq<(Seq<u8>, Seq<u8>)>,
    name: Seq<u8>,
    value: Seq<u8>,
)
    requires
        forall|i: int| 0 <= i < fields.len() ==> (#[trigger] fields[i]).0 != name,
    ensures
        last_named(fields, name) < 0,
        append_field(fields, name, value) == fields.push((name, value)),
    decreases fields.len(),
{
    if fields.len() > 0 {
        append_new_name(fields.drop_last(), name, value);
    }
}

/// The names that `fields` holds, each once however many values it has.
pub open spec fn names(fields: Seq<(Seq<u8>, Seq<u8>)>) -> Set<Seq<u8>> {
    fields.map_values(|field: (Seq<u8>, Seq<u8>)| field.0).to_set()
}

/// There are no more names than fields.
pub(crate) proof fn names_are_no_more(fields: Seq<(Seq<u8>, Seq<u8>)>)
    ensures
        names(fields).finite(),
        names(fields).len() <= fields.len(),
{
    let all = fields.map_values(|field: (Seq<u8>, Seq<u8>)| field.0);
    seq_to_set_is_finite(all);
    all.lemma_cardinality_of_set();
}

/// A head that holds this many names takes one more field. A larger one may
/// refuse it: the `http` crate's header map has at most 32768 index slots, and
/// asks for more of them once they are three quarters full, or a fifth full where
/// the hashes of names collide, which depends on the machine.
pub const ROOMY: usize = 6553;

/// A head that holds this many names takes no more fields: three quarters of the
/// header map's index slots are then full.
pub const FULL: usize = 24576;

/// Whether `c` stands for itself in a host name.
pub open spec fn is_host_char(c: char) -> bool {
    ||| 'a' <= c <= 'z'
    ||| 'A' <= c <= 'Z'
    ||| '0' <= c <= '9'
    ||| c == '-' || c == '.' || c == '_' || c == '~'
}

/// Whether all of `text` stands for itself in a host name.
pub open spec fn is_host_text(text: Seq<char>) -> bool {
    forall|i: int| 0 <= i < text.len() ==> is_host_char(#[trigger] text[i])
}

/// Whether `c` may stand in an IPv6 address.
pub open spec fn is_ipv6_char(c: char) -> bool {
    ||| 'a' <= c <= 'f'
    ||| '0' <= c <= '9'
    ||| c == ':' || c == '.'
}

/// How many colons `text` holds.
pub open spec fn colons(text: Seq<char>) -> nat
    decreases text.len(),
{
    if text.len() == 0 {
        0
    } else {
        colons(text.drop_last()) + if text.last() == ':' {
            1nat
        } else {
            0nat
        }
    }
}

/// Whether `text` can be an IPv6 address.
pub open spec fn is_ipv6_text(text: Seq<char>) -> bool {
    &&& text.len() <= 39
    &&& colons(text) <= 7
    &&& forall|i: int| 0 <= i < text.len() ==> is_ipv6_char(#[trigger] text[i])
}

/// Whether `text` is a host and a port: host characters around a colon, or an
/// IPv6 address in brackets before it.
pub open spec fn is_authority(text: Seq<char>) -> bool {
    &&& 2 <= text.len() <= 65534
    &&& exists|host: Seq<char>, port: Seq<char>| #[trigger] is_authority_of(text, host, port)
}

pub open spec fn is_authority_of(text: Seq<char>, host: Seq<char>, port: Seq<char>) -> bool {
    &&& is_host_text(port)
    &&& ({
        ||| text == host + seq![':'] + port && is_host_text(host)
        ||| text == seq!['['] + host + seq![']'] + seq![':'] + port && is_ipv6_text(host)
    })
}

/// The URI of a target in authority form.
pub open spec fn authority_form(target: Seq<char>) -> UriView {
    UriView { scheme: None, authority: Some(target), path_and_query: None }
}

/// The components that `http::Uri` finds in `text`, or `None` where it refuses
/// the text.
pub uninterp spec fn parsed_uri(text: Seq<char>) -> Option<UriView>;

/// What an `http::request::Builder` holds, or `None` once it has met an error.
pub uninterp spec fn request_draft(builder: http::request::Builder) -> Option<RequestHead>;

/// What an `http::Request` holds.
pub uninterp spec fn request_head(request: http::Request<()>) -> RequestHead;

/// What an `http::response::Builder` holds, or `None` once it has met an error.
pub uninterp spec fn response_draft(builder: http::response::Builder) -> Option<ResponseHead>;

/// What an `http::Response` holds.
pub uninterp spec fn response_head(response: http::Response<()>) -> ResponseHead;

/// The head of a CONNECT request before any field is added.
pub open spec fn bare_connect(uri: UriView) -> RequestHead {
    RequestHead {
        method: "CONNECT"@,
        protocol: None,
        uri,
        version: MessageVersion::Http11,
        fields: Seq::empty(),
    }
}

/// `http::Uri::from_str`: the scheme, the authority and the path of a URI, or an
/// error where the text is none.
#[verifier::external_body]
pub(crate) fn parse_uri(text: &str) -> (uri: Result<
    (Option<String>, Option<String>, Option<String>),
    http::uri::InvalidUri,
>)
    ensures
        parsed_uri(text@) == match uri {
            Ok((scheme, authority, path_and_query)) => Some(
                UriView {
                    scheme: text_view(scheme),
                    authority: text_view(authority),
                    path_and_query: text_view(path_and_query),
                },
            ),
            Err(_) => None,
        },
{
    let uri: http::Uri = text.parse()?;
    Ok((
        uri.scheme_str().map(|s| s.to_string()),
        uri.authority().map(|a| a.as_str().to_string()),
        uri.path_and_query().map(|p| p.as_str().to_string()),
    ))
}

/// `http::Request::connect`: a builder for a CONNECT request to `target`, which
/// holds an error where the target is no URI. A host and a port are in
/// authority form: they become the authority as they stand, with no scheme and
/// no path.
#[verifier::external_body]
pub(crate) fn request_connect(target: &str) -> (builder: http::request::Builder)
    ensures
        request_draft(builder) == match parsed_uri(target@) {
            Some(uri) => Some(bare_connect(uri)),
            None => None,
        },
        is_authority(target@) ==> request_draft(builder) == Some(
            bare_connect(authority_form(target@)),
        ),
{
    http::Request::connect(target)
}

/// `http::request::Builder::version`: sets the version, and changes nothing
/// else.
#[verifier::external_body]
pub(crate) fn request_version(
    builder: http::request::Builder,
    version: MessageVersion,
) -> (next: http::request::Builder)
    ensures
        request_draft(next) == match request_draft(builder) {
            Some(head) => Some(RequestHead { version, ..head }),
            None => None,
        },
{
    builder.version(match version {
        MessageVersion::Http11 => http::Version::HTTP_11,
        MessageVersion::Http3 => http::Version::HTTP_3,
    })
}

/// `http::request::Builder::header`: appends a field, its name in lower case.
/// A name or value that is none puts an error in the builder, and so may a head
/// that already holds more than `ROOMY` names; one that holds `FULL` of them does.
#[verifier::external_body]
pub(crate) fn request_header(
    builder: http::request::Builder,
    name: &str,
    value: &str,
) -> (next: http::request::Builder)
    ensures
        request_draft(next) matches Some(after) ==> {
            &&& request_draft(builder) matches Some(before)
            &&& names(before.fields).len() < FULL
            &&& is_field_name(encode_utf8(name@))
            &&& is_field_value(encode_utf8(value@))
            &&& after == RequestHead {
                fields: append_field(
                    before.fields,
                    lower_name(encode_utf8(name@)),
                    encode_utf8(value@),
                ),
                ..before
            }
        },
        request_draft(builder) matches Some(before) && is_field_name(encode_utf8(name@))
            && is_field_value(encode_utf8(value@)) && names(before.fields).len() <= ROOMY
            ==> request_draft(next) is Some,
{
    builder.header(name, value)
}

/// `http::request::Builder::body`: the finished request, or the error that the
/// builder holds.
#[verifier::external_body]
pub(crate) fn request_body(
    builder: http::request::Builder,
) -> (request: Result<http::Request<()>, http::Error>)
    ensures
        request is Ok <==> request_draft(builder) is Some,
        request matches Ok(request) ==> Some(request_head(request)) == request_draft(builder),
{
    builder.body(())
}

/// `http::Method::as_str` of the request's method.
#[verifier::external_body]
pub(crate) fn request_method(request: &http::Request<()>) -> (method: String)
    ensures
        method@ == request_head(*request).method,
{
    request.method().as_str().to_string()
}

/// The `h2::ext::Protocol` that the request's extensions hold, by
/// `http::Extensions::get`.
#[verifier::external_body]
pub(crate) fn request_protocol(request: &http::Request<()>) -> (protocol: Option<String>)
    ensures
        text_view(protocol) == request_head(*request).protocol,
{
    request.extensions().get::<::h2::ext::Protocol>().map(|p| p.as_str().to_string())
}

/// `http::Uri::scheme_str` of the request's URI.
#[verifier::external_body]
pub(crate) fn request_scheme(request: &http::Request<()>) -> (scheme: Option<String>)
    ensures
        text_view(scheme) == request_head(*request).uri.scheme,
{
    request.uri().scheme_str().map(|s| s.to_string())
}

/// `http::Uri::authority` of the request's URI.
#[verifier::external_body]
pub(crate) fn request_authority(request: &http::Request<()>) -> (authority: Option<String>)
    ensures
        text_view(authority) == request_head(*request).uri.authority,
{
    request.uri().authority().map(|a| a.as_str().to_string())
}

/// `http::Uri::path_and_query` of the request's URI.
#[verifier::external_body]
pub(crate) fn request_path_and_query(request: &http::Request<()>) -> (path: Option<String>)
    ensures
        text_view(path) == request_head(*request).uri.path_and_query,
{
    request.uri().path_and_query().map(|p| p.as_str().to_string())
}

/// `http::HeaderMap::iter` over the request's fields.
#[verifier::external_body]
pub(crate) fn request_fields(request: &http::Request<()>) -> (fields: Vec<Header>)
    ensures
        header_views(fields@) == request_head(*request).fields,
{
    request.headers().iter().map(
        |(name, value)| Header {
            name: name.as_str().as_bytes().to_vec(),
            value: value.as_bytes().to_vec(),
        },
    ).collect()
}

/// `http::response::Builder::new`: an empty head with status 200.
#[verifier::external_body]
pub(crate) fn response_new() -> (builder: http::response::Builder)
    ensures
        response_draft(builder) == Some(
            ResponseHead { status: 200, version: MessageVersion::Http11, fields: Seq::empty() },
        ),
{
    http::response::Builder::new()
}

/// Whether `text` is a status code: three digits, the first of them not zero.
pub open spec fn is_status(text: Seq<u8>) -> bool {
    &&& text.len() == 3
    &&& 0x31 <= text[0] <= 0x39
    &&& 0x30 <= text[1] <= 0x39
    &&& 0x30 <= text[2] <= 0x39
}

/// The number that a status code's three digits write.
pub open spec fn status_number(text: Seq<u8>) -> u16 {
    ((text[0] - 0x30) * 100 + (text[1] - 0x30) * 10 + (text[2] - 0x30)) as u16
}

/// `http::response::Builder::status`: sets the status that the bytes write. What
/// is no status code puts an error in the builder.
#[verifier::external_body]
pub(crate) fn response_status(
    builder: http::response::Builder,
    status: &[u8],
) -> (next: http::response::Builder)
    ensures
        response_draft(next) == match response_draft(builder) {
            Some(head) if is_status(status@) => Some(
                ResponseHead { status: status_number(status@), ..head },
            ),
            _ => None,
        },
{
    builder.status(status)
}

/// `http::response::Builder::header`: appends a field, its name in lower case.
/// A name or value that is none puts an error in the builder, and so may a head
/// that already holds more than `ROOMY` names; one that holds `FULL` of them does.
#[verifier::external_body]
pub(crate) fn response_header(
    builder: http::response::Builder,
    name: &[u8],
    value: &[u8],
) -> (next: http::response::Builder)
    ensures
        response_draft(next) matches Some(after) ==> {
            &&& response_draft(builder) matches Some(before)
            &&& names(before.fields).len() < FULL
            &&& is_field_name(name@)
            &&& is_field_value(value@)
            &&& after == ResponseHead {
                fields: append_field(before.fields, lower_name(name@), value@),
                ..before
            }
        },
        response_draft(builder) matches Some(before) && is_field_name(name@) && is_field_value(
            value@,
        ) && names(before.fields).len() <= ROOMY ==> response_draft(next) is Some,
{
    builder.header(name, value)
}

/// `http::response::Builder::version`: sets the version, and changes nothing
/// else.
#[verifier::external_body]
pub(crate) fn response_version(
    builder: http::response::Builder,
    version: MessageVersion,
) -> (next: http::response::Builder)
    ensures
        response_draft(next) == match response_draft(builder) {
            Some(head) => Some(ResponseHead { version, ..head }),
            None => None,
        },
{
    builder.version(match version {
        MessageVersion::Http11 => http::Version::HTTP_11,
        MessageVersion::Http3 => http::Version::HTTP_3,
    })
}

/// `http::response::Builder::body`: the finished response, or the error that the
/// builder holds.
#[verifier::external_body]
pub(crate) fn response_body(
    builder: http::response::Builder,
) -> (response: Result<http::Response<()>, http::Error>)
    ensures
        response is Ok <==> response_draft(builder) is Some,
        response matches Ok(response) ==> Some(response_head(response)) == response_draft(builder),
{
    builder.body(())
}

/// The parts of a request as plain values.
pub fn request_parts(request: &http::Request<()>) -> (parts: RequestParts)
    ensures
        parts.matches_head(request_head(*request)),
        parts.method@ == request_head(*request).method,
        text_view(parts.protocol) == request_head(*request).protocol,
        text_view(parts.scheme) == request_head(*request).uri.scheme,
        text_view(parts.authority) == request_head(*request).uri.authority,
        text_view(parts.path_and_query) == request_head(*request).uri.path_and_query,
        header_views(parts.fields@) == request_head(*request).fields,
{
    RequestParts {
        method: request_method(request),
        protocol: request_protocol(request),
        scheme: request_scheme(request),
        authority: request_authority(request),
        path_and_query: request_path_and_query(request),
        fields: request_fields(request),
    }
}

/// Whether two byte strings are equal.
pub fn bytes_equal(a: &[u8], b: &[u8]) -> (equal: bool)
    ensures
        equal == (a@ == b@),
{
    if a.len() != b.len() {
        return false;
    }
    let mut i: usize = 0;
    while i < a.len()
        invariant
            a@.len() == b@.len(),
            0 <= i <= a@.len(),
            forall|j: int| 0 <= j < i ==> a@[j] == b@[j],
        decreases a@.len() - i,
    {
        if a[i] != b[i] {
            return false;
        }
        i += 1;
    }
    assert(a@ =~= b@);
    true
}

/// A header's view is its name and its value, and a list keeps their order.
pub proof fn header_views_are_faithful(headers: Seq<Header>, i: int)
    requires
        0 <= i < headers.len(),
    ensures
        header_views(headers).len() == headers.len(),
        header_views(headers)[i].0 == headers[i].name@,
        header_views(headers)[i].1 == headers[i].value@,
{
}

} // verus!
