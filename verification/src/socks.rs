//! What SOCKS5 clients ask for, and the target that each address names.

use vstd::prelude::*;
use vstd::utf8::{decode_utf8, valid_utf8};

use crate::message::{is_authority, is_authority_of, is_host_text};

verus! {

/// What a SOCKS5 client may ask for.
#[derive(Debug, Clone, Copy, PartialEq, Eq, Structural)]
pub enum Command {
    Connect,
    Bind,
    Associate,
}

/// What a SOCKS5 request may be answered.
#[derive(Debug, Clone, Copy, PartialEq, Eq, Structural)]
pub enum Reply {
    Succeeded,
    GeneralFailure,
    CommandNotSupported,
}

/// The address in a SOCKS5 request.
#[derive(Debug)]
pub enum Address {
    V4([u8; 4], u16),
    V6([u16; 8], u16),
    Domain(Vec<u8>, u16),
}

/// An address as plain sequences.
pub enum AddressView {
    V4(Seq<u8>, u16),
    V6(Seq<u16>, u16),
    Domain(Seq<u8>, u16),
}

impl View for Address {
    type V = AddressView;

    open spec fn view(&self) -> AddressView {
        match self {
            Address::V4(octets, port) => AddressView::V4(octets@, *port),
            Address::V6(segments, port) => AddressView::V6(segments@, *port),
            Address::Domain(name, port) => AddressView::Domain(name@, *port),
        }
    }
}

/// A domain address whose name is not UTF-8 names no target.
#[derive(Debug, Clone, Copy, PartialEq, Eq, Structural)]
pub struct InvalidDomain;

/// A decimal digit's character.
pub open spec fn digit(n: nat) -> char {
    ('0' as u32 + n) as char
}

/// A number in decimal, without leading zeros.
pub open spec fn decimal(n: nat) -> Seq<char>
    decreases n,
{
    if n < 10 {
        seq![digit(n)]
    } else {
        decimal(n / 10).push(digit(n % 10))
    }
}

/// Four octets in dotted decimal.
pub open spec fn dotted(octets: Seq<u8>) -> Seq<char> {
    decimal(octets[0] as nat) + seq!['.'] + decimal(octets[1] as nat) + seq!['.'] + decimal(
        octets[2] as nat,
    ) + seq!['.'] + decimal(octets[3] as nat)
}

/// A host, a colon and a port in decimal.
pub open spec fn host_and_port(host: Seq<char>, port: u16) -> Seq<char> {
    host + seq![':'] + decimal(port as nat)
}

/// The text that `std` gives an IPv6 address.
pub uninterp spec fn ipv6_text(segments: Seq<u16>) -> Seq<char>;

/// The target that an address names: host and port, an IPv6 host in brackets.
pub open spec fn target_text(address: AddressView) -> Option<Seq<char>> {
    match address {
        AddressView::V4(octets, port) => Some(host_and_port(dotted(octets), port)),
        AddressView::V6(segments, port) => Some(
            host_and_port(seq!['['] + ipv6_text(segments) + seq![']'], port),
        ),
        AddressView::Domain(name, port) => if valid_utf8(name) {
            Some(host_and_port(decode_utf8(name), port))
        } else {
            None
        },
    }
}

/// Whether an address is an IP address or a domain of host characters.
pub open spec fn is_plain(address: AddressView) -> bool {
    match address {
        AddressView::Domain(name, _) => {
            &&& valid_utf8(name)
            &&& 1 <= decode_utf8(name).len() <= 255
            &&& is_host_text(decode_utf8(name))
        },
        _ => true,
    }
}

/// A number in decimal is made of digits, at most five of them below 100000.
proof fn decimal_is_plain(n: nat)
    ensures
        is_host_text(decimal(n)),
        decimal(n).len() >= 1,
        n < 10 ==> decimal(n).len() <= 1,
        n < 100 ==> decimal(n).len() <= 2,
        n < 1000 ==> decimal(n).len() <= 3,
        n < 10000 ==> decimal(n).len() <= 4,
        n < 100000 ==> decimal(n).len() <= 5,
    decreases n,
{
    if n >= 10 {
        decimal_is_plain(n / 10);
    }
}

/// Dotted decimal is made of digits and dots.
proof fn dotted_is_plain(octets: Seq<u8>)
    ensures
        is_host_text(dotted(octets)),
        7 <= dotted(octets).len() <= 15,
{
    decimal_is_plain(octets[0] as nat);
    decimal_is_plain(octets[1] as nat);
    decimal_is_plain(octets[2] as nat);
    decimal_is_plain(octets[3] as nat);
}

/// A host of host characters, a colon and a port are an authority.
proof fn plain_host_is_authority(host: Seq<char>, port: u16)
    requires
        is_host_text(host),
        1 <= host.len() <= 255,
    ensures
        is_authority(host_and_port(host, port)),
{
    decimal_is_plain(port as nat);
    assert(is_authority_of(host_and_port(host, port), host, decimal(port as nat)));
}

/// `Display` of a `socks5_proto::Address` that holds an IPv4 socket address: the
/// octets in dotted decimal, a colon and the port.
#[verifier::external_body]
fn v4_text(octets: [u8; 4], port: u16) -> (text: String)
    ensures
        text@ == host_and_port(dotted(octets@), port),
{
    format!("{}", socks5_proto::Address::SocketAddress((octets, port).into()))
}

/// `Display` of a `socks5_proto::Address` that holds an IPv6 socket address: the
/// address in brackets, a colon and the port. The address is at most 39 characters
/// long and made of lower-case hexadecimal digits, dots and at most seven colons.
#[verifier::external_body]
fn v6_text(segments: [u16; 8], port: u16) -> (text: String)
    ensures
        text@ == host_and_port(seq!['['] + ipv6_text(segments@) + seq![']'], port),
        is_authority_of(text@, ipv6_text(segments@), decimal(port as nat)),
{
    format!("{}", socks5_proto::Address::SocketAddress((segments, port).into()))
}

/// A decimal digit as text.
fn digit_text(n: u64) -> (text: &'static str)
    requires
        n < 10,
    ensures
        text@ == seq![digit(n as nat)],
{
    proof {
        reveal_strlit("0");
        reveal_strlit("1");
        reveal_strlit("2");
        reveal_strlit("3");
        reveal_strlit("4");
        reveal_strlit("5");
        reveal_strlit("6");
        reveal_strlit("7");
        reveal_strlit("8");
        reveal_strlit("9");
    }
    let text = match n {
        0 => "0",
        1 => "1",
        2 => "2",
        3 => "3",
        4 => "4",
        5 => "5",
        6 => "6",
        7 => "7",
        8 => "8",
        _ => "9",
    };
    assert(text@ =~= seq![digit(n as nat)]);
    text
}

/// A number in decimal.
pub(crate) fn number_text(number: u64) -> (text: String)
    ensures
        text@ == decimal(number as nat),
    decreases number,
{
    if number < 10 {
        return digit_text(number).to_owned();
    }
    let mut text = number_text(number / 10);
    text.append(digit_text(number % 10));
    assert(text@ =~= decimal(number as nat));
    text
}

/// `std::str::from_utf8`: the text that the bytes encode, where they are UTF-8.
#[verifier::external_body]
fn utf8_text(bytes: &[u8]) -> (text: Option<&str>)
    ensures
        text is Some <==> valid_utf8(bytes@),
        text matches Some(text) ==> text@ == decode_utf8(bytes@),
{
    std::str::from_utf8(bytes).ok()
}

/// The target that an address names. An IP address or a domain of host
/// characters, with its port, is an authority.
pub fn target(address: &Address) -> (target: Result<String, InvalidDomain>)
    ensures
        match target {
            Ok(text) => target_text(address@) == Some(text@),
            Err(_) => target_text(address@) is None,
        },
        is_plain(address@) ==> target is Ok && is_authority(target->Ok_0@),
{
    match address {
        Address::V4(octets, port) => {
            proof {
                dotted_is_plain(octets@);
                plain_host_is_authority(dotted(octets@), *port);
            }
            Ok(v4_text(*octets, *port))
        },
        Address::V6(segments, port) => {
            let text = v6_text(*segments, *port);
            proof {
                decimal_is_plain(*port as nat);
            }
            Ok(text)
        },
        Address::Domain(name, port) => {
            match utf8_text(name.as_slice()) {
                Some(host) => {
                    proof {
                        if is_plain(address@) {
                            plain_host_is_authority(host@, *port);
                        }
                    }
                    let mut text = host.to_owned();
                    proof {
                        reveal_strlit(":");
                        assert(":"@ =~= seq![':']);
                    }
                    text.append(":");
                    let port_text = number_text(*port as u64);
                    text.append(port_text.as_str());
                    Ok(text)
                },
                None => Err(InvalidDomain),
            }
        },
    }
}

/// The number that decimal digits write.
pub open spec fn number_of(digits: Seq<char>) -> nat
    decreases digits.len(),
{
    if digits.len() == 0 {
        0
    } else {
        number_of(digits.drop_last()) * 10 + (digits.last() as nat - '0' as nat) as nat
    }
}

/// Whether a text writes a number: in digits alone, at least one of them, and
/// without a leading zero unless it is the only one.
pub open spec fn writes(text: Seq<char>, number: nat) -> bool {
    &&& text.len() >= 1
    &&& forall|i: int| 0 <= i < text.len() ==> '0' <= #[trigger] text[i] <= '9'
    &&& text.len() > 1 ==> text[0] != '0'
    &&& number_of(text) == number
}

/// A number in decimal writes that number.
pub proof fn decimals_write_their_number(n: nat)
    ensures
        writes(decimal(n), n),
    decreases n,
{
    if n < 10 {
        let text = decimal(n);
        assert(text.drop_last() =~= Seq::empty());
        assert(number_of(text.drop_last()) == 0);
        assert(text.last() as nat == '0' as nat + n);
    } else {
        decimals_write_their_number(n / 10);
        let text = decimal(n);
        assert(text.drop_last() =~= decimal(n / 10));
        assert(text.last() as nat == '0' as nat + n % 10);
        assert(decimal(n / 10)[0] != '0') by {
            if decimal(n / 10).len() == 1 {
                let front = decimal(n / 10);
                assert(front.drop_last() =~= Seq::empty());
                assert(number_of(front.drop_last()) == 0);
            }
        }
        assert forall|i: int| 0 <= i < text.len() implies '0' <= #[trigger] text[i] <= '9' by {
            if i < text.len() - 1 {
                assert(text[i] == decimal(n / 10)[i]);
            }
        }
    }
}

/// The target of an IPv4 address is its four octets with dots between them, a
/// colon and its port, each of them written in decimal.
pub proof fn ipv4_targets_write_their_address(octets: Seq<u8>, port: u16)
    requires
        octets.len() == 4,
    ensures
        exists|a: Seq<char>, b: Seq<char>, c: Seq<char>, d: Seq<char>, e: Seq<char>|
            #![trigger writes(a, octets[0] as nat), writes(b, octets[1] as nat), writes(c, octets[2] as nat), writes(d, octets[3] as nat), writes(e, port as nat)]
            {
                &&& writes(a, octets[0] as nat)
                &&& writes(b, octets[1] as nat)
                &&& writes(c, octets[2] as nat)
                &&& writes(d, octets[3] as nat)
                &&& writes(e, port as nat)
                &&& target_text(AddressView::V4(octets, port)) == Some(
                    a + seq!['.'] + b + seq!['.'] + c + seq!['.'] + d + seq![':'] + e,
                )
            },
{
    decimals_write_their_number(octets[0] as nat);
    decimals_write_their_number(octets[1] as nat);
    decimals_write_their_number(octets[2] as nat);
    decimals_write_their_number(octets[3] as nat);
    decimals_write_their_number(port as nat);
    let (a, b, c, d, e) = (
        decimal(octets[0] as nat),
        decimal(octets[1] as nat),
        decimal(octets[2] as nat),
        decimal(octets[3] as nat),
        decimal(port as nat),
    );
    assert(target_text(AddressView::V4(octets, port))->0 =~= a + seq!['.'] + b + seq!['.'] + c
        + seq!['.'] + d + seq![':'] + e);
    assert(writes(a, octets[0] as nat) && writes(b, octets[1] as nat) && writes(
        c,
        octets[2] as nat,
    ) && writes(d, octets[3] as nat) && writes(e, port as nat));
}

/// The target of an IPv6 address is that address in brackets, a colon and its
/// port in decimal.
pub proof fn ipv6_targets_stand_in_brackets(segments: Seq<u16>, port: u16)
    ensures
        exists|e: Seq<char>| #[trigger]
            writes(e, port as nat) && target_text(AddressView::V6(segments, port)) == Some(
                seq!['['] + ipv6_text(segments) + seq![']', ':'] + e,
            ),
{
    decimals_write_their_number(port as nat);
    assert(target_text(AddressView::V6(segments, port))->0 =~= seq!['['] + ipv6_text(segments)
        + seq![']', ':'] + decimal(port as nat));
}

/// The target of a domain is its name, a colon and its port in decimal; a name
/// that is not UTF-8 has none.
pub proof fn domain_targets_keep_their_name(name: Seq<u8>, port: u16)
    ensures
        valid_utf8(name) ==> exists|e: Seq<char>| #[trigger]
            writes(e, port as nat) && target_text(AddressView::Domain(name, port)) == Some(
                decode_utf8(name) + seq![':'] + e,
            ),
        !valid_utf8(name) ==> target_text(AddressView::Domain(name, port)) is None,
{
    decimals_write_their_number(port as nat);
    if valid_utf8(name) {
        assert(target_text(AddressView::Domain(name, port))->0 =~= decode_utf8(name) + seq![':']
            + decimal(port as nat));
    }
}

/// An address's view says what the address holds.
pub proof fn address_views_are_faithful(address: Address)
    ensures
        address matches Address::V4(octets, port) ==> address@ == AddressView::V4(octets@, port),
        address matches Address::V6(segments, port) ==> address@ == AddressView::V6(
            segments@,
            port,
        ),
        address matches Address::Domain(name, port) ==> address@ == AddressView::Domain(
            name@,
            port,
        ),
{
}

/// Every IP address is plain, and so is every domain of letters, digits, hyphens,
/// dots, underscores and tildes.
pub proof fn usual_addresses_are_plain(address: AddressView)
    requires
        address matches AddressView::Domain(name, _) ==> valid_utf8(name) && 1 <= decode_utf8(
            name,
        ).len() <= 255 && forall|i: int|
            0 <= i < decode_utf8(name).len() ==> {
                let c = #[trigger] decode_utf8(name)[i];
                ||| 'a' <= c <= 'z'
                ||| 'A' <= c <= 'Z'
                ||| '0' <= c <= '9'
                ||| c == '-' || c == '.' || c == '_' || c == '~'
            },
    ensures
        is_plain(address),
{
}

} // verus!
