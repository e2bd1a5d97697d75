//! What the proxy is configured with.

use vstd::prelude::*;

verus! {

/// The HTTP version that the proxy is spoken to in.
#[derive(Debug, Clone, Copy, PartialEq, Eq, Structural)]
pub enum HttpVersion {
    H2,
    H3,
}

/// How an HTTP/2 connection to the proxy is kept alive while it is idle. Both
/// spans are in nanoseconds.
#[derive(Debug, Clone, Copy, PartialEq, Eq, Structural)]
pub struct Http2KeepAliveConfig {
    /// The time between two PING frames.
    pub interval: u128,
    /// The time that a PING acknowledgement may take.
    pub timeout: u128,
}

/// The proxy's configuration.
#[derive(Debug)]
pub struct Config {
    /// The URL of the proxy that CONNECT requests go to.
    pub proxy: String,
    /// The Geohash to send with every request.
    pub geohash: String,
    /// The seconds that a request may take; without it there is no limit.
    pub request_timeout: Option<u64>,
    /// The preshared key that authorises requests at the proxy.
    pub masque_preshared_key: Option<String>,
    /// A PEM file with the only certificate authority to trust.
    pub proxy_ca: Option<String>,
    /// The client's certificate, in PEM.
    pub client_cert: Option<String>,
    /// The key of the client's certificate, in PEM.
    pub client_key: Option<String>,
    pub http_version: HttpVersion,
    /// Keeps the HTTP/2 connection alive, and renews it as soon as it is lost.
    pub http2_keepalive: Option<Http2KeepAliveConfig>,
}

} // verus!
