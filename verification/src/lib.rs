//! A SOCKS5 server that proxies each connection through an HTTP CONNECT
//! request: its rules, its state machines and the messages that it sends.

pub mod accept;
pub mod config;
pub mod h2;
pub mod h3;
pub mod message;
pub mod request;
pub mod session;
pub mod socks;
pub mod worker;

use vstd::prelude::*;

pub use config::{Config, Http2KeepAliveConfig, HttpVersion};

verus! {

/// The first component of a pair.
pub fn fst<A, B>(pair: (A, B)) -> (first: A)
    ensures
        first == pair.0,
{
    let (a, _) = pair;
    a
}

} // verus!
