//! The CONNECT request that opens a tunnel.

use vstd::prelude::*;
use vstd::utf8::{encode_utf8, is_ascii_chars, is_ascii_chars_encode_utf8};

use crate::config::Config;
use crate::h3::headers::values_named;
use crate::message::{
    append_new_name, authority_form, is_authority, is_authority_of, is_field_name, is_field_value, is_host_char, is_ipv6_char, lower_name, names_are_no_more,
    parsed_uri, request_body,
    request_connect, request_head, request_header, request_version, MessageVersion, RequestHead,
    UriView,
};

verus! {

/// The name of the field that carries the target.
pub open spec fn host_name() -> Seq<u8> {
    encode_utf8("host"@)
}

/// The name of the field that carries the Geohash.
pub open spec fn geohash_name() -> Seq<u8> {
    encode_utf8("sec-ch-geohash"@)
}

/// The name of the field that carries the preshared key.
pub open spec fn authorization_name() -> Seq<u8> {
    encode_utf8("proxy-authorization"@)
}

/// The value of the field that carries the preshared key.
pub open spec fn authorization_value(key: Seq<char>) -> Seq<u8> {
    encode_utf8("Preshared "@ + key)
}

/// The fields of a CONNECT request: the target, the Geohash and, where there is
/// one, the preshared key.
pub open spec fn connect_fields(config: Config, target: Seq<char>) -> Seq<(Seq<u8>, Seq<u8>)> {
    let always = seq![
        (host_name(), encode_utf8(target)),
        (geohash_name(), encode_utf8(config.geohash@)),
    ];
    match config.masque_preshared_key {
        Some(key) => always.push((authorization_name(), authorization_value(key@))),
        None => always,
    }
}

/// The head of a CONNECT request to `target`.
pub open spec fn connect_head(config: Config, target: Seq<char>, uri: UriView) -> RequestHead {
    RequestHead {
        method: "CONNECT"@,
        protocol: None,
        uri,
        version: MessageVersion::Http11,
        fields: connect_fields(config, target),
    }
}

/// Whether the target, the Geohash and the preshared key can stand in fields.
pub open spec fn connect_values_ok(config: Config, target: Seq<char>) -> bool {
    is_field_value(encode_utf8(target)) && config_values_ok(config)
}

/// The names are header names, and no two of them are the same.
pub(crate) proof fn names_are_fields()
    ensures
        is_field_name(host_name()),
        lower_name(host_name()) == host_name(),
        is_field_name(geohash_name()),
        lower_name(geohash_name()) == geohash_name(),
        is_field_name(encode_utf8("Proxy-Authorization"@)),
        lower_name(encode_utf8("Proxy-Authorization"@)) == authorization_name(),
        host_name() != geohash_name(),
        host_name() != authorization_name(),
        geohash_name() != authorization_name(),
{
    reveal_strlit("host");
    reveal_strlit("sec-ch-geohash");
    reveal_strlit("proxy-authorization");
    reveal_strlit("Proxy-Authorization");
    assert(is_ascii_chars("host"@));
    assert(is_ascii_chars("sec-ch-geohash"@));
    assert(is_ascii_chars("proxy-authorization"@));
    assert(is_ascii_chars("Proxy-Authorization"@));
    is_ascii_chars_encode_utf8("host"@);
    is_ascii_chars_encode_utf8("sec-ch-geohash"@);
    is_ascii_chars_encode_utf8("proxy-authorization"@);
    is_ascii_chars_encode_utf8("Proxy-Authorization"@);
    assert(lower_name(host_name()) =~= host_name());
    assert(lower_name(geohash_name()) =~= geohash_name());
    assert(lower_name(encode_utf8("Proxy-Authorization"@)) =~= authorization_name());
}

/// Whether the Geohash and the preshared key can stand in fields.
pub open spec fn config_values_ok(config: Config) -> bool {
    &&& is_field_value(encode_utf8(config.geohash@))
    &&& config.masque_preshared_key matches Some(key) ==> is_field_value(
        authorization_value(key@),
    )
}

/// An authority can stand in a field.
proof fn authority_is_field_value(text: Seq<char>)
    requires
        is_authority(text),
    ensures
        is_field_value(encode_utf8(text)),
{
    let (host, port) = choose|host: Seq<char>, port: Seq<char>| #[trigger]
        is_authority_of(text, host, port);
    assert forall|i: int| 0 <= i < text.len() implies 32 <= (#[trigger] text[i]) as u32 && (
    text[i] as u32) < 127 by {
        if i < host.len() {
            assert(is_host_char(host[i]) || is_ipv6_char(host[i]));
        }
        if 0 < i <= host.len() {
            assert(is_host_char(host[i - 1]) || is_ipv6_char(host[i - 1]));
        }
        let behind = text.len() - port.len();
        if i >= behind {
            assert(is_host_char(port[i - behind]));
        }
    }
    assert(is_ascii_chars(text));
    is_ascii_chars_encode_utf8(text);
}

/// The head of a CONNECT request says what is configured: each field stands in it
/// once, the preshared key exactly where there is one, and there are no others.
pub proof fn requests_say_what_is_configured(config: Config, target: Seq<char>, uri: UriView)
    ensures
        ({
            let head = connect_head(config, target, uri);
            &&& head.method == "CONNECT"@
            &&& head.protocol is None
            &&& head.uri == uri
            &&& head.version == MessageVersion::Http11
            &&& head.fields.len() == if config.masque_preshared_key is Some {
                3nat
            } else {
                2nat
            }
            &&& values_named(head.fields, encode_utf8("host"@)) == seq![encode_utf8(target)]
            &&& values_named(head.fields, encode_utf8("sec-ch-geohash"@)) == seq![
                encode_utf8(config.geohash@),
            ]
            &&& values_named(head.fields, encode_utf8("proxy-authorization"@)) == (
            match config.masque_preshared_key {
                Some(key) => seq![encode_utf8("Preshared "@ + key@)],
                None => Seq::empty(),
            })
        }),
{
    reveal_with_fuel(values_named, 4);
    names_are_fields();
    let fields = connect_head(config, target, uri).fields;
    let first = seq![(host_name(), encode_utf8(target))];
    let both = seq![
        (host_name(), encode_utf8(target)),
        (geohash_name(), encode_utf8(config.geohash@)),
    ];
    assert(first.drop_last() =~= Seq::empty());
    assert(both.drop_last() =~= first);
    if config.masque_preshared_key is Some {
        assert(fields.drop_last() =~= both);
    } else {
        assert(fields =~= both);
    }
    let (host, geohash, key) = (
        encode_utf8("host"@),
        encode_utf8("sec-ch-geohash"@),
        encode_utf8("proxy-authorization"@),
    );
    assert(values_named(fields, host) =~= seq![encode_utf8(target)]);
    assert(values_named(fields, geohash) =~= seq![encode_utf8(config.geohash@)]);
    if let Some(preshared) = config.masque_preshared_key {
        assert(values_named(fields, key) =~= seq![encode_utf8("Preshared "@ + preshared@)]);
    } else {
        assert(values_named(fields, key) =~= Seq::empty());
    }
}

/// The CONNECT request for `target`, or the reason that there is none: the
/// target is no URI, or a value cannot stand in a field. A host and a port are a
/// URI, and the target of a request in authority form.
pub fn connect_request(config: &Config, target: &str) -> (request: Result<
    http::Request<()>,
    http::Error,
>)
    ensures
        request is Ok <==> parsed_uri(target@) is Some && connect_values_ok(*config, target@),
        request is Ok <==> parsed_uri(target@) is Some && is_field_value(encode_utf8(target@))
            && is_field_value(encode_utf8(config.geohash@)) && (
        config.masque_preshared_key matches Some(key) ==> is_field_value(
            encode_utf8("Preshared "@ + key@),
        )),
        request matches Ok(request) ==> parsed_uri(target@) matches Some(uri) && request_head(
            request,
        ) == connect_head(*config, target@, uri),
        is_authority(target@) ==> parsed_uri(target@) == Some(authority_form(target@)) && (request
            is Ok <==> config_values_ok(*config)),
{
    proof {
        if is_authority(target@) {
            authority_is_field_value(target@);
        }
        names_are_fields();
        let host = (host_name(), encode_utf8(target@));
        let geohash = (geohash_name(), encode_utf8(config.geohash@));
        names_are_no_more(Seq::empty());
        names_are_no_more(Seq::empty().push(host));
        names_are_no_more(Seq::empty().push(host).push(geohash));
        append_new_name(Seq::empty(), host.0, host.1);
        append_new_name(Seq::empty().push(host), geohash.0, geohash.1);
        assert(Seq::empty().push(host).push(geohash) =~= seq![host, geohash]);
        if let Some(key) = &config.masque_preshared_key {
            append_new_name(
                seq![host, geohash],
                authorization_name(),
                authorization_value(key@),
            );
        }
    }
    let builder = request_connect(target);
    let builder = request_version(builder, MessageVersion::Http11);
    let builder = request_header(builder, "host", target);
    let builder = request_header(builder, "sec-ch-geohash", config.geohash.as_str());
    let builder = match &config.masque_preshared_key {
        Some(key) => {
            let mut value = "Preshared ".to_owned();
            value.append(key.as_str());
            request_header(builder, "Proxy-Authorization", value.as_str())
        },
        None => builder,
    };
    request_body(builder)
}

/// The configured values fit exactly where the Geohash, and the preshared key
/// where there is one, can stand in a field.
pub proof fn configured_values_fit(config: Config)
    ensures
        config_values_ok(config) <==> is_field_value(encode_utf8(config.geohash@)) && (
        config.masque_preshared_key matches Some(key) ==> is_field_value(
            encode_utf8("Preshared "@ + key@),
        )),
{
}

/// A target in authority form is the URI's authority, with no scheme and no path.
pub proof fn authority_form_is_the_target(target: Seq<char>)
    ensures
        authority_form(target).authority == Some(target),
        authority_form(target).scheme is None,
        authority_form(target).path_and_query is None,
{
}

} // verus!
