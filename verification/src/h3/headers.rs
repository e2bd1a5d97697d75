//! Message heads as HTTP/3 header lists.

use vstd::prelude::*;
use vstd::utf8::encode_utf8;

use crate::config::Config;
use crate::message::{
    append_field, authority_form, bytes_equal, header_views, is_field_name, is_field_value, is_status, last_named,
    lower_name, names, names_are_no_more, response_body, response_draft, response_head, response_header, response_new,
    response_status, response_version, status_number, text_view, Header, MessageVersion,
    RequestParts, ResponseHead, UriView, FULL, ROOMY,
};
use crate::request::{connect_fields, connect_head};

verus! {

/// The pseudo-header field `name` with the text as its value, where there is
/// one.
pub open spec fn pseudo_field(name: Seq<char>, text: Option<Seq<char>>) -> Seq<
    (Seq<u8>, Seq<u8>),
> {
    match text {
        Some(text) => seq![(encode_utf8(name), encode_utf8(text))],
        None => Seq::empty(),
    }
}

/// A request as a header list: the method, the protocol of an extended CONNECT,
/// the URI's components, and the fields in their order.
pub open spec fn h3_headers(
    method: Seq<char>,
    protocol: Option<Seq<char>>,
    uri: UriView,
    fields: Seq<(Seq<u8>, Seq<u8>)>,
) -> Seq<(Seq<u8>, Seq<u8>)> {
    pseudo_field(":method"@, Some(method)) + pseudo_field(":protocol"@, protocol) + pseudo_field(
        ":scheme"@,
        uri.scheme,
    ) + pseudo_field(":authority"@, uri.authority) + pseudo_field(":path"@, uri.path_and_query)
        + fields
}

/// Appends a pseudo-header field, where there is a value for it.
fn push_pseudo_field(headers: &mut Vec<Header>, name: &str, text: &Option<String>)
    ensures
        header_views(final(headers)@) == header_views(old(headers)@) + pseudo_field(
            name@,
            text_view(*text),
        ),
{
    match text {
        Some(text) => {
            headers.push(
                Header {
                    name: vstd::slice::slice_to_vec(name.as_bytes()),
                    value: vstd::slice::slice_to_vec(text.as_str().as_bytes()),
                },
            );
        },
        None => {},
    }
    assert(header_views(headers@) =~= header_views(old(headers)@) + pseudo_field(
        name@,
        text_view(*text),
    ));
}

/// A request as a header list.
pub fn hyper_request_parts_to_h3_headers(parts: RequestParts) -> (headers: Vec<Header>)
    ensures
        header_views(headers@) == h3_headers(
            parts.method@,
            text_view(parts.protocol),
            parts.uri(),
            header_views(parts.fields@),
        ),
{
    let mut headers: Vec<Header> = Vec::new();
    let method = Some(parts.method);
    assert(header_views(headers@) =~= Seq::empty());
    push_pseudo_field(&mut headers, ":method", &method);
    push_pseudo_field(&mut headers, ":protocol", &parts.protocol);
    push_pseudo_field(&mut headers, ":scheme", &parts.scheme);
    push_pseudo_field(&mut headers, ":authority", &parts.authority);
    push_pseudo_field(&mut headers, ":path", &parts.path_and_query);
    let ghost pseudo = headers@;
    let mut fields = parts.fields;
    headers.append(&mut fields);
    assert(header_views(headers@) =~= header_views(pseudo) + header_views(parts.fields@));
    assert(header_views(headers@) =~= h3_headers(
        parts.method@,
        text_view(parts.protocol),
        parts.uri(),
        header_views(parts.fields@),
    ));
    headers
}

/// A CONNECT request to a target in authority form goes out as its method, the
/// target as its authority, and the fields that the configuration gives it; it
/// has no scheme and no path.
pub proof fn connect_is_authority_form(config: Config, target: Seq<char>, parts: RequestParts)
    requires
        parts.matches_head(connect_head(config, target, authority_form(target))),
    ensures
        h3_headers(
            parts.method@,
            text_view(parts.protocol),
            parts.uri(),
            header_views(parts.fields@),
        ) == seq![
            (encode_utf8(":method"@), encode_utf8("CONNECT"@)),
            (encode_utf8(":authority"@), encode_utf8(target)),
        ] + connect_fields(config, target),
{
    assert(h3_headers(
        parts.method@,
        text_view(parts.protocol),
        parts.uri(),
        header_views(parts.fields@),
    ) =~= seq![
        (encode_utf8(":method"@), encode_utf8("CONNECT"@)),
        (encode_utf8(":authority"@), encode_utf8(target)),
    ] + connect_fields(config, target));
}

/// The name of the header that carries a response's status.
pub open spec fn status_name() -> Seq<u8> {
    encode_utf8(":status"@)
}

/// Whether a response may hold this header: a status code under `:status`, and
/// a field under any other name.
pub open spec fn is_response_header(header: (Seq<u8>, Seq<u8>)) -> bool {
    if header.0 == status_name() {
        is_status(header.1)
    } else {
        is_field_name(header.0) && is_field_value(header.1)
    }
}

/// Whether a response may hold all these headers.
pub open spec fn are_response_headers(headers: Seq<(Seq<u8>, Seq<u8>)>) -> bool {
    forall|i: int| 0 <= i < headers.len() ==> is_response_header(#[trigger] headers[i])
}

/// The status that a response's headers give: the last one, or 200 where there
/// is none.
pub open spec fn status_of(headers: Seq<(Seq<u8>, Seq<u8>)>) -> u16
    decreases headers.len(),
{
    if headers.len() == 0 {
        200
    } else if headers.last().0 == status_name() {
        status_number(headers.last().1)
    } else {
        status_of(headers.drop_last())
    }
}

/// The fields that a response's headers give, their names in lower case and
/// those of one name together.
pub open spec fn fields_of(headers: Seq<(Seq<u8>, Seq<u8>)>) -> Seq<(Seq<u8>, Seq<u8>)>
    decreases headers.len(),
{
    if headers.len() == 0 {
        Seq::empty()
    } else if headers.last().0 == status_name() {
        fields_of(headers.drop_last())
    } else {
        append_field(
            fields_of(headers.drop_last()),
            lower_name(headers.last().0),
            headers.last().1,
        )
    }
}

/// The response that a header list gives.
pub open spec fn h3_response(headers: Seq<(Seq<u8>, Seq<u8>)>) -> ResponseHead {
    ResponseHead {
        status: status_of(headers),
        version: MessageVersion::Http3,
        fields: fields_of(headers),
    }
}

/// There are no more fields than headers.
proof fn fields_are_no_more(headers: Seq<(Seq<u8>, Seq<u8>)>)
    ensures
        fields_of(headers).len() <= headers.len(),
    decreases headers.len(),
{
    if headers.len() > 0 {
        fields_are_no_more(headers.drop_last());
        last_named_is_within(
            fields_of(headers.drop_last()),
            lower_name(headers.last().0),
        );
    }
}

/// An appended field adds its name, and nothing else, to the names.
proof fn append_adds_its_name(fields: Seq<(Seq<u8>, Seq<u8>)>, name: Seq<u8>, value: Seq<u8>)
    ensures
        names(append_field(fields, name, value)) == names(fields).insert(name),
{
    let first = |field: (Seq<u8>, Seq<u8>)| field.0;
    let after = append_field(fields, name, value);
    let last = last_named(fields, name);
    let at = if last < 0 {
        fields.len() as int
    } else {
        last + 1
    };
    last_named_is_within(fields, name);
    assert(after =~= fields.insert(at, (name, value)));
    assert forall|other: Seq<u8>| names(fields).insert(name).contains(other) implies names(
        after,
    ).contains(other) by {
        if other == name {
            assert(after.map_values(first)[at] == name);
        } else {
            let i = choose|i: int| 0 <= i < fields.len() && fields.map_values(first)[i] == other;
            let j = if i < at {
                i
            } else {
                i + 1
            };
            assert(after.map_values(first)[j] == other);
        }
    }
    assert forall|other: Seq<u8>| names(after).contains(other) implies names(fields).insert(
        name,
    ).contains(other) by {
        let j = choose|j: int| 0 <= j < after.len() && after.map_values(first)[j] == other;
        if j < at {
            assert(fields.map_values(first)[j] == other);
        } else if j > at {
            assert(fields.map_values(first)[j - 1] == other);
        }
    }
    assert(names(after) =~= names(fields).insert(name));
}

/// The front of a list has no more names than all of it.
proof fn front_has_no_more_names(headers: Seq<(Seq<u8>, Seq<u8>)>, len: int)
    requires
        0 <= len <= headers.len(),
    ensures
        names(fields_of(headers.take(len))).len() <= names(fields_of(headers)).len(),
    decreases headers.len() - len,
{
    if len == headers.len() {
        assert(headers.take(len) =~= headers);
    } else {
        front_has_no_more_names(headers, len + 1);
        let longer = headers.take(len + 1);
        let fields = fields_of(headers.take(len));
        assert(longer.drop_last() =~= headers.take(len));
        names_are_no_more(fields);
        if longer.last().0 != status_name() {
            append_adds_its_name(fields, lower_name(longer.last().0), longer.last().1);
        }
    }
}

/// A list of at most `ROOMY` headers has at most as many names, whatever it
/// holds.
pub proof fn short_lists_have_few_names(headers: Seq<(Seq<u8>, Seq<u8>)>)
    requires
        headers.len() <= ROOMY,
    ensures
        names(h3_response(headers).fields).len() <= ROOMY,
{
    fields_are_no_more(headers);
    names_are_no_more(fields_of(headers));
}

proof fn last_named_is_within(fields: Seq<(Seq<u8>, Seq<u8>)>, name: Seq<u8>)
    ensures
        -1 <= last_named(fields, name) < fields.len(),
    decreases fields.len(),
{
    if fields.len() > 0 {
        last_named_is_within(fields.drop_last(), name);
    }
}

/// The response that a header list gives, or an error where a header is none
/// that a response may hold. A list with more than `ROOMY` different names may be
/// refused all the same, and one with more than `FULL` of them is.
pub fn h3_response_to_hyper_response(headers: Vec<Header>) -> (response: Result<
    http::Response<()>,
    http::Error,
>)
    ensures
        response matches Ok(response) ==> are_response_headers(header_views(headers@))
            && response_head(response) == h3_response(header_views(headers@)),
        response is Ok ==> names(h3_response(header_views(headers@)).fields).len() <= FULL,
        names(h3_response(header_views(headers@)).fields).len() <= ROOMY && are_response_headers(
            header_views(headers@),
        ) ==> response is Ok,
{
    let mut builder = response_new();
    let mut i: usize = 0;
    let ghost views = header_views(headers@);
    assert(views.take(0) =~= Seq::empty());
    proof {
        names_are_no_more(Seq::empty());
    }
    while i < headers.len()
        invariant
            i <= headers@.len(),
            views == header_views(headers@),
            response_draft(builder) matches Some(head) ==> {
                &&& are_response_headers(views.take(i as int))
                &&& names(fields_of(views.take(i as int))).len() <= FULL
                &&& head == ResponseHead {
                    version: MessageVersion::Http11,
                    ..h3_response(views.take(i as int))
                }
            },
            names(fields_of(views)).len() <= ROOMY && are_response_headers(views.take(i as int))
                ==> response_draft(builder) is Some,
        decreases headers@.len() - i,
    {
        let header = &headers[i];
        proof {
            let before = views.take(i as int);
            let after = views.take(i + 1);
            assert(after.drop_last() =~= before);
            assert(after.last() == header@);
            front_has_no_more_names(views, i as int);
            names_are_no_more(fields_of(before));
            append_adds_its_name(fields_of(before), lower_name(header@.0), header@.1);
            assert(are_response_headers(after) <==> are_response_headers(before)
                && is_response_header(header@)) by {
                assert(forall|j: int| 0 <= j < i ==> after[j] == before[j]);
                if are_response_headers(after) {
                    assert(is_response_header(after[i as int]));
                }
            }
        }
        builder = if bytes_equal(header.name.as_slice(), ":status".as_bytes()) {
            response_status(builder, header.value.as_slice())
        } else {
            response_header(builder, header.name.as_slice(), header.value.as_slice())
        };
        i += 1;
    }
    assert(views.take(i as int) =~= views);
    let builder = response_version(builder, MessageVersion::Http3);
    response_body(builder)
}

/// The values of a name, in their order.
pub open spec fn values_named(fields: Seq<(Seq<u8>, Seq<u8>)>, name: Seq<u8>) -> Seq<Seq<u8>>
    decreases fields.len(),
{
    if fields.len() == 0 {
        Seq::empty()
    } else if fields.last().0 == name {
        values_named(fields.drop_last(), name).push(fields.last().1)
    } else {
        values_named(fields.drop_last(), name)
    }
}

/// The values that a header list gives a name in lower case, in their order.
pub open spec fn values_received(headers: Seq<(Seq<u8>, Seq<u8>)>, name: Seq<u8>) -> Seq<Seq<u8>>
    decreases headers.len(),
{
    if headers.len() == 0 {
        Seq::empty()
    } else if headers.last().0 != status_name() && lower_name(headers.last().0) == name {
        values_received(headers.drop_last(), name).push(headers.last().1)
    } else {
        values_received(headers.drop_last(), name)
    }
}

/// An appended field becomes the last value of its name.
proof fn appended_value_is_last(
    fields: Seq<(Seq<u8>, Seq<u8>)>,
    name: Seq<u8>,
    value: Seq<u8>,
    other: Seq<u8>,
)
    ensures
        values_named(append_field(fields, name, value), other) == if name == other {
            values_named(fields, other).push(value)
        } else {
            values_named(fields, other)
        },
    decreases fields.len(),
{
    let after = append_field(fields, name, value);
    let last = last_named(fields, name);
    last_named_is_within(fields, name);
    if last < 0 || last == fields.len() - 1 {
        assert(after =~= fields.push((name, value)));
        assert(after.drop_last() =~= fields);
    } else {
        let before = fields.drop_last();
        appended_value_is_last(before, name, value, other);
        assert(after.drop_last() =~= append_field(before, name, value));
        assert(after.last() == fields.last());
    }
}

/// A response holds exactly the header fields that came in: each name has the
/// values that it was given, in the order in which they came.
pub proof fn responses_keep_their_fields(headers: Seq<(Seq<u8>, Seq<u8>)>, name: Seq<u8>)
    ensures
        values_named(h3_response(headers).fields, name) == values_received(headers, name),
    decreases headers.len(),
{
    if headers.len() > 0 {
        responses_keep_their_fields(headers.drop_last(), name);
        if headers.last().0 != status_name() {
            appended_value_is_last(
                fields_of(headers.drop_last()),
                lower_name(headers.last().0),
                headers.last().1,
                name,
            );
        }
    }
}

/// No field of a response is a pseudo-header field: a name that starts with a
/// colon is none that a response may hold, but for the status.
pub proof fn pseudo_headers_are_refused(headers: Seq<(Seq<u8>, Seq<u8>)>, k: int)
    requires
        0 <= k < headers.len(),
        headers[k].0.len() > 0,
        headers[k].0[0] == 0x3a,
        headers[k].0 != status_name(),
    ensures
        !are_response_headers(headers),
{
    if are_response_headers(headers) {
        assert(is_response_header(headers[k]));
    }
}

/// A response has the status that came in: the number that its three digits
/// write, whatever they are and wherever the header stands. Where there are
/// several, the last one counts.
pub proof fn responses_keep_their_status(headers: Seq<(Seq<u8>, Seq<u8>)>, k: int)
    requires
        0 <= k < headers.len(),
        headers[k].0 == encode_utf8(":status"@),
        headers[k].1.len() == 3,
        0x31 <= headers[k].1[0] <= 0x39,
        0x30 <= headers[k].1[1] <= 0x39,
        0x30 <= headers[k].1[2] <= 0x39,
        forall|i: int|
            k < i < headers.len() ==> (#[trigger] headers[i]).0 != encode_utf8(":status"@),
    ensures
        h3_response(headers).status == 100 * (headers[k].1[0] - 0x30) + 10 * (headers[k].1[1] - 0x30)
            + (headers[k].1[2] - 0x30),
    decreases headers.len(),
{
    if k < headers.len() - 1 {
        let before = headers.drop_last();
        assert(headers[headers.len() - 1].0 != encode_utf8(":status"@));
        assert(forall|i: int| 0 <= i < before.len() ==> before[i] == headers[i]);
        responses_keep_their_status(before, k);
    }
}

/// A response without a status header has status 200.
pub proof fn responses_without_status_are_ok(headers: Seq<(Seq<u8>, Seq<u8>)>)
    requires
        forall|i: int|
            0 <= i < headers.len() ==> (#[trigger] headers[i]).0 != encode_utf8(":status"@),
    ensures
        h3_response(headers).status == 200,
    decreases headers.len(),
{
    if headers.len() > 0 {
        let before = headers.drop_last();
        assert(headers[headers.len() - 1].0 != encode_utf8(":status"@));
        assert(forall|i: int| 0 <= i < before.len() ==> before[i] == headers[i]);
        responses_without_status_are_ok(before);
    }
}

/// Every field that came in is in the response: under its name, in lower case,
/// stands its value.
pub proof fn fields_that_came_in_are_held(headers: Seq<(Seq<u8>, Seq<u8>)>, k: int)
    requires
        0 <= k < headers.len(),
        headers[k].0 != encode_utf8(":status"@),
    ensures
        h3_response(headers).fields.contains((lower_name(headers[k].0), headers[k].1)),
        h3_response(headers).version == MessageVersion::Http3,
    decreases headers.len(),
{
    let before = headers.drop_last();
    let fields = fields_of(before);
    let wanted = (lower_name(headers[k].0), headers[k].1);
    if k == headers.len() - 1 {
        last_named_is_within(fields, wanted.0);
        let last = last_named(fields, wanted.0);
        let at = if last < 0 {
            fields.len() as int
        } else {
            last + 1
        };
        assert(fields_of(headers)[at] == wanted);
    } else {
        fields_that_came_in_are_held(before, k);
        let i = choose|i: int| 0 <= i < fields.len() && fields[i] == wanted;
        if headers.last().0 != status_name() {
            let name = lower_name(headers.last().0);
            last_named_is_within(fields, name);
            let last = last_named(fields, name);
            let at = if last < 0 {
                fields.len() as int
            } else {
                last + 1
            };
            let j = if i < at {
                i
            } else {
                i + 1
            };
            assert(fields_of(headers)[j] == wanted);
        }
    }
}

/// A response holds one field for each header that is not a status: none is made
/// up and none is merged.
pub proof fn fields_are_counted(headers: Seq<(Seq<u8>, Seq<u8>)>)
    ensures
        h3_response(headers).fields.len() == headers.filter(
            |header: (Seq<u8>, Seq<u8>)| header.0 != encode_utf8(":status"@),
        ).len(),
    decreases headers.len(),
{
    reveal(Seq::filter);
    if headers.len() > 0 {
        fields_are_counted(headers.drop_last());
        last_named_is_within(
            fields_of(headers.drop_last()),
            lower_name(headers.last().0),
        );
    }
}

/// A name in lower case has the same length, its capital letters are small, and
/// all else stays.
pub proof fn lower_names_differ_in_capitals_only(name: Seq<u8>, i: int)
    requires
        0 <= i < name.len(),
    ensures
        lower_name(name).len() == name.len(),
        0x41 <= name[i] <= 0x5a ==> lower_name(name)[i] == name[i] + 0x20,
        !(0x41 <= name[i] <= 0x5a) ==> lower_name(name)[i] == name[i],
{
}

/// What a response may hold: under `:status` three digits, the first of them not
/// zero, and anywhere else a header name and a header value.
pub proof fn responses_hold_statuses_and_fields(headers: Seq<(Seq<u8>, Seq<u8>)>)
    ensures
        are_response_headers(headers) <==> forall|i: int|
            0 <= i < headers.len() ==> if (#[trigger] headers[i]).0 == encode_utf8(":status"@) {
                &&& headers[i].1.len() == 3
                &&& 0x31 <= headers[i].1[0] <= 0x39
                &&& 0x30 <= headers[i].1[1] <= 0x39
                &&& 0x30 <= headers[i].1[2] <= 0x39
            } else {
                is_field_name(headers[i].0) && is_field_value(headers[i].1)
            },
{
    let told = |i: int|
        if headers[i].0 == encode_utf8(":status"@) {
            &&& headers[i].1.len() == 3
            &&& 0x31 <= headers[i].1[0] <= 0x39
            &&& 0x30 <= headers[i].1[1] <= 0x39
            &&& 0x30 <= headers[i].1[2] <= 0x39
        } else {
            is_field_name(headers[i].0) && is_field_value(headers[i].1)
        };
    assert(forall|i: int|
        0 <= i < headers.len() ==> (is_response_header(#[trigger] headers[i]) <==> told(i)));
}

/// A request's header list says what the request says: the method, the protocol
/// of an extended CONNECT, the scheme, the authority and the path stand in it in
/// this order, each once and where the request has it, and behind them the fields
/// as they are.
pub proof fn requests_say_what_they_hold(
    method: Seq<char>,
    protocol: Option<Seq<char>>,
    uri: UriView,
    fields: Seq<(Seq<u8>, Seq<u8>)>,
)
    ensures
        ({
            let list = h3_headers(method, protocol, uri, fields);
            let scheme_at = if protocol is Some {
                2int
            } else {
                1int
            };
            let authority_at = if uri.scheme is Some {
                scheme_at + 1
            } else {
                scheme_at
            };
            let path_at = if uri.authority is Some {
                authority_at + 1
            } else {
                authority_at
            };
            let fields_at = if uri.path_and_query is Some {
                path_at + 1
            } else {
                path_at
            };
            &&& list.len() == fields_at + fields.len()
            &&& list.skip(list.len() - fields.len()) == fields
            &&& list[0] == (encode_utf8(":method"@), encode_utf8(method))
            &&& protocol matches Some(text) ==> list[1] == (
                encode_utf8(":protocol"@),
                encode_utf8(text),
            )
            &&& uri.scheme matches Some(text) ==> list[scheme_at] == (
                encode_utf8(":scheme"@),
                encode_utf8(text),
            )
            &&& uri.authority matches Some(text) ==> list[authority_at] == (
                encode_utf8(":authority"@),
                encode_utf8(text),
            )
            &&& uri.path_and_query matches Some(text) ==> list[path_at] == (
                encode_utf8(":path"@),
                encode_utf8(text),
            )
        }),
{
    let list = h3_headers(method, protocol, uri, fields);
    let a = pseudo_field(":method"@, Some(method));
    let b = pseudo_field(":protocol"@, protocol);
    let c = pseudo_field(":scheme"@, uri.scheme);
    let d = pseudo_field(":authority"@, uri.authority);
    let e = pseudo_field(":path"@, uri.path_and_query);
    let pseudo = list.take(list.len() - fields.len());
    assert(pseudo =~= a + b + c + d + e);
    assert(list.skip(list.len() - fields.len()) =~= fields);
    if protocol is Some {
        assert(pseudo[1] == b[0]);
    }
    if uri.scheme is Some {
        assert(pseudo[1int + b.len()] == c[0]);
    }
    if uri.authority is Some {
        assert(pseudo[1int + b.len() + c.len()] == d[0]);
    }
    if uri.path_and_query is Some {
        assert(pseudo[1int + b.len() + c.len() + d.len()] == e[0]);
    }
}

} // verus!
