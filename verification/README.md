# Chaussette

Chaussette is a SOCKS5 server that proxies each connection through an HTTP
CONNECT request to a privacy proxy, over HTTP/2 or HTTP/3. Every request carries
a Geohash hint and, where one is configured, a preshared key.

`src/` is the library: its rules and state machines, verified with Verus.

- `config`: the configuration.
- `socks`: what clients ask for, and the target that an address names.
- `accept`, `session`: the accept loop, and one client's session from
  authentication to the end of its tunnel.
- `request`, `message`: the CONNECT request, and the message heads of the `http`
  crate that requests and responses are made of.
- `h2`, `worker`: what the HTTP/2 client is set up with, and the worker that owns
  the shared connection and recovers it.
- `h3`: HTTP/3 bodies (`body`, `frame`, `transfer`), header lists (`headers`) and
  the connection that routes responses to requests (`connection`, `run`). What
  holds of whole runs is in `writing`, `reading` and `routing`.

The state machines take what happened and give back what to do next. `app/` does
it: it holds the sockets, channels, timers and TLS, runs each machine and tells
it what came of every action.

Trusted are the contracts of the calls into `http`, `h2`, `bytes` and
`socks5-proto` and of the UTF-8 check of `std`; each of them says above it what
it claims.
