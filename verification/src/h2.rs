//! The HTTP/2 client: what it is set up with, and what its responses mean.

use vstd::prelude::*;

use crate::config::{Config, Http2KeepAliveConfig};
use crate::message::{parse_uri, parsed_uri, text_view, UriView};
use crate::socks::decimal;

pub use crate::worker::ProxyClient;

verus! {

/// A keepalive that cannot be used.
#[derive(Debug, Clone, Copy, PartialEq, Eq, Structural)]
pub enum KeepAliveError {
    ZeroInterval,
    ZeroTimeout,
}

impl KeepAliveError {
    /// The error in words.
    pub open spec fn text(self) -> Seq<char> {
        match self {
            KeepAliveError::ZeroInterval => "HTTP/2 keepalive interval must be greater than zero"@,
            KeepAliveError::ZeroTimeout => "HTTP/2 keepalive timeout must be greater than zero"@,
        }
    }

    /// The error in words.
    pub fn message(self) -> (message: String)
        ensures
            message@ == self.text(),
            self is ZeroInterval ==> message@
                == "HTTP/2 keepalive interval must be greater than zero"@,
            self is ZeroTimeout ==> message@
                == "HTTP/2 keepalive timeout must be greater than zero"@,
    {
        match self {
            KeepAliveError::ZeroInterval => {
                "HTTP/2 keepalive interval must be greater than zero".to_owned()
            },
            KeepAliveError::ZeroTimeout => {
                "HTTP/2 keepalive timeout must be greater than zero".to_owned()
            },
        }
    }
}

/// Whether the configured keepalive can be used, and if not, why. The interval
/// is looked at first.
pub fn check_keepalive(config: &Config) -> (checked: Result<(), KeepAliveError>)
    ensures
        checked == match config.http2_keepalive {
            Some(keepalive) if keepalive.interval == 0 => Err(KeepAliveError::ZeroInterval),
            Some(keepalive) if keepalive.timeout == 0 => Err(KeepAliveError::ZeroTimeout),
            _ => Ok(()),
        },
{
    if let Some(keepalive) = config.http2_keepalive {
        if keepalive.interval == 0 {
            return Err(KeepAliveError::ZeroInterval);
        }
        if keepalive.timeout == 0 {
            return Err(KeepAliveError::ZeroTimeout);
        }
    }
    Ok(())
}

/// A client certificate without its key, or a key without its certificate.
#[derive(Debug, Clone, Copy, PartialEq, Eq, Structural)]
pub enum IdentityError {
    MissingCert,
    MissingKey,
}

impl IdentityError {
    /// The error in words.
    pub open spec fn text(self) -> Seq<char> {
        match self {
            IdentityError::MissingCert => "client cert is missing"@,
            IdentityError::MissingKey => "client key is missing"@,
        }
    }

    /// The error in words.
    pub fn message(self) -> (message: String)
        ensures
            message@ == self.text(),
            self is MissingCert ==> message@ == "client cert is missing"@,
            self is MissingKey ==> message@ == "client key is missing"@,
    {
        match self {
            IdentityError::MissingCert => "client cert is missing".to_owned(),
            IdentityError::MissingKey => "client key is missing".to_owned(),
        }
    }
}

/// A client certificate and its key, both in PEM.
#[derive(Debug)]
pub struct ClientIdentity {
    pub cert: String,
    pub key: String,
}

/// Takes the client's certificate and key out of the configuration. They come
/// together or not at all.
pub fn take_identity(config: &mut Config) -> (identity: Result<
    Option<ClientIdentity>,
    IdentityError,
>)
    ensures
        *final(config) == (Config { client_cert: None, client_key: None, ..*old(config) }),
        identity == match (old(config).client_cert, old(config).client_key) {
            (None, None) => Ok(None),
            (None, Some(_)) => Err(IdentityError::MissingCert),
            (Some(_), None) => Err(IdentityError::MissingKey),
            (Some(cert), Some(key)) => Ok(Some(ClientIdentity { cert, key })),
        },
{
    let cert = config.client_cert.take();
    let key = config.client_key.take();
    match (cert, key) {
        (None, None) => Ok(None),
        (None, Some(_)) => Err(IdentityError::MissingCert),
        (Some(_), None) => Err(IdentityError::MissingKey),
        (Some(cert), Some(key)) => Ok(Some(ClientIdentity { cert, key })),
    }
}

/// A proxy URL that is no URI.
#[derive(Debug)]
pub struct InvalidProxyUri {
    pub error: http::uri::InvalidUri,
}

/// The components of the proxy's URI.
#[derive(Debug)]
pub struct ProxyUri {
    pub scheme: Option<String>,
    pub authority: Option<String>,
    pub path_and_query: Option<String>,
}

impl View for ProxyUri {
    type V = UriView;

    open spec fn view(&self) -> UriView {
        UriView {
            scheme: text_view(self.scheme),
            authority: text_view(self.authority),
            path_and_query: text_view(self.path_and_query),
        }
    }
}

/// The URI that the client connects to.
pub fn proxy_uri(config: &Config) -> (uri: Result<ProxyUri, InvalidProxyUri>)
    ensures
        match uri {
            Ok(uri) => parsed_uri(config.proxy@) == Some(uri@),
            Err(_) => parsed_uri(config.proxy@) is None,
        },
        uri matches Ok(uri) ==> parsed_uri(config.proxy@) == Some(
            (UriView {
                scheme: text_view(uri.scheme),
                authority: text_view(uri.authority),
                path_and_query: text_view(uri.path_and_query),
            }),
        ),
{
    match parse_uri(config.proxy.as_str()) {
        Ok((scheme, authority, path_and_query)) => Ok(
            ProxyUri { scheme, authority, path_and_query },
        ),
        Err(error) => Err(InvalidProxyUri { error }),
    }
}

/// What an HTTP/2 handshake is made with. `None` leaves a setting alone.
#[derive(Debug, Clone, Copy, PartialEq, Eq, Structural)]
pub struct HandshakeSettings {
    pub timer: bool,
    pub keep_alive_interval: Option<u128>,
    pub keep_alive_timeout: Option<u128>,
    pub keep_alive_while_idle: Option<bool>,
}

/// The settings of a handshake: a keepalive needs a timer, and goes on while the
/// connection is idle.
pub open spec fn settings_of(keepalive: Option<Http2KeepAliveConfig>) -> HandshakeSettings {
    match keepalive {
        Some(keepalive) => HandshakeSettings {
            timer: true,
            keep_alive_interval: Some(keepalive.interval),
            keep_alive_timeout: Some(keepalive.timeout),
            keep_alive_while_idle: Some(true),
        },
        None => HandshakeSettings {
            timer: false,
            keep_alive_interval: None,
            keep_alive_timeout: None,
            keep_alive_while_idle: None,
        },
    }
}

/// The settings of a handshake.
pub fn handshake_settings(keepalive: Option<Http2KeepAliveConfig>) -> (settings: HandshakeSettings)
    ensures
        settings == settings_of(keepalive),
        settings.timer == (keepalive is Some),
        keepalive matches Some(keepalive) ==> settings.keep_alive_interval == Some(
            keepalive.interval,
        ) && settings.keep_alive_timeout == Some(keepalive.timeout)
            && settings.keep_alive_while_idle == Some(true),
        keepalive is None ==> settings.keep_alive_interval is None && settings.keep_alive_timeout
            is None && settings.keep_alive_while_idle is None,
{
    match keepalive {
        Some(keepalive) => HandshakeSettings {
            timer: true,
            keep_alive_interval: Some(keepalive.interval),
            keep_alive_timeout: Some(keepalive.timeout),
            keep_alive_while_idle: Some(true),
        },
        None => HandshakeSettings {
            timer: false,
            keep_alive_interval: None,
            keep_alive_timeout: None,
            keep_alive_while_idle: None,
        },
    }
}

/// A keepalive is kept whatever its interval and timeout are: the handshake has a
/// timer, sends a PING at exactly that interval, waits exactly that timeout for
/// the acknowledgement, and does so while the connection is idle.
pub proof fn keepalive_goes_on_while_idle(keepalive: Http2KeepAliveConfig)
    ensures
        settings_of(Some(keepalive)).timer,
        settings_of(Some(keepalive)).keep_alive_interval == Some(keepalive.interval),
        settings_of(Some(keepalive)).keep_alive_timeout == Some(keepalive.timeout),
        settings_of(Some(keepalive)).keep_alive_while_idle == Some(true),
{
}

/// Without a keepalive a handshake has no timer, and its other settings are left
/// alone.
pub proof fn no_keepalive_sets_nothing()
    ensures
        !settings_of(None).timer,
        settings_of(None).keep_alive_interval is None,
        settings_of(None).keep_alive_timeout is None,
        settings_of(None).keep_alive_while_idle is None,
{
}

/// Two keepalives that differ make handshakes that differ: nothing of a keepalive
/// is lost.
pub proof fn settings_tell_keepalives_apart(
    a: Option<Http2KeepAliveConfig>,
    b: Option<Http2KeepAliveConfig>,
)
    requires
        settings_of(a) == settings_of(b),
    ensures
        a == b,
{
}

/// Why a request got no response.
#[derive(Debug)]
pub enum RequestError<E> {
    /// The worker no longer takes requests.
    ClientClosed,
    /// The worker dropped the request.
    ResponseDropped,
    /// The connection failed the request.
    Failed(E),
}

impl<E> RequestError<E> {
    /// The error in words, without its cause.
    pub open spec fn text(&self) -> Seq<char> {
        match self {
            RequestError::ClientClosed => "proxy client connection closed"@,
            RequestError::ResponseDropped => "proxy response channel closed"@,
            RequestError::Failed(_) => "proxy request failed"@,
        }
    }

    /// The error in words, without its cause.
    pub fn message(&self) -> (message: String)
        ensures
            message@ == self.text(),
            self is ClientClosed ==> message@ == "proxy client connection closed"@,
            self is ResponseDropped ==> message@ == "proxy response channel closed"@,
            self is Failed ==> message@ == "proxy request failed"@,
    {
        match self {
            RequestError::ClientClosed => "proxy client connection closed".to_owned(),
            RequestError::ResponseDropped => "proxy response channel closed".to_owned(),
            RequestError::Failed(_) => "proxy request failed".to_owned(),
        }
    }
}

/// What comes of a request: whether the worker took it, and what it answered,
/// if it did.
pub fn request<T, E>(taken: bool, answer: Option<Result<T, E>>) -> (response: Result<
    T,
    RequestError<E>,
>)
    ensures
        response == match answer {
            _ if !taken => Err(RequestError::ClientClosed),
            None => Err(RequestError::ResponseDropped),
            Some(Err(error)) => Err(RequestError::Failed(error)),
            Some(Ok(response)) => Ok(response),
        },
{
    if !taken {
        return Err(RequestError::ClientClosed);
    }
    match answer {
        None => Err(RequestError::ResponseDropped),
        Some(Err(error)) => Err(RequestError::Failed(error)),
        Some(Ok(response)) => Ok(response),
    }
}

/// A response that opens no tunnel.
#[derive(Debug, Clone, Copy, PartialEq, Eq, Structural)]
pub struct RefusedStatus {
    pub status: u16,
}

/// The reason phrase that `http` gives a status code.
pub uninterp spec fn status_reason(status: u16) -> Seq<char>;

/// `Display` of an `http::StatusCode`: the code in decimal, a space and its
/// reason phrase. Only codes from 100 to 999 exist.
#[verifier::external_body]
fn status_text(status: u16) -> (text: String)
    requires
        100 <= status <= 999,
    ensures
        text@ == decimal(status as nat) + seq![' '] + status_reason(status),
{
    format!("{}", http::StatusCode::from_u16(status).unwrap())
}

impl RefusedStatus {
    /// The error in words.
    pub open spec fn text(self) -> Seq<char> {
        "proxy connection failed with status: "@ + decimal(self.status as nat) + seq![' ']
            + status_reason(self.status)
    }

    /// The error in words.
    pub fn message(self) -> (message: String)
        requires
            100 <= self.status <= 999,
        ensures
            message@ == self.text(),
            message@ == "proxy connection failed with status: "@ + decimal(self.status as nat)
                + seq![' '] + status_reason(self.status),
    {
        let mut message = "proxy connection failed with status: ".to_owned();
        let status = status_text(self.status);
        message.append(status.as_str());
        assert(message@ =~= self.text());
        message
    }
}

/// Whether a response opens a tunnel: its status must be one of success.
pub fn check_status(status: u16) -> (checked: Result<(), RefusedStatus>)
    ensures
        checked == if 200 <= status < 300 {
            Ok::<(), RefusedStatus>(())
        } else {
            Err(RefusedStatus { status })
        },
{
    if status >= 200 && status < 300 {
        Ok(())
    } else {
        Err(RefusedStatus { status })
    }
}

} // verus!
