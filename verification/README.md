# yarrp

The decision logic of a reverse proxy built on hyper and tonic, verified
with Verus, and the runtime that drives it.

`src/` is the verified library:

- `poll`, `handshake`: the bridge between poll-based and blocking-style I/O
  of the Schannel TLS stream, and the steps of its handshakes;
- `accept`, `streams`, `proxy`: the accept streams (TLS over TCP, Unix
  sockets), the slot that holds their single in-flight handshake, and one
  poll of each stream (which never ends the stream); client authorization
  after a handshake (`authorize`), which hands back the authorizor's own
  error;
- `frames`, `h3_accept`: HTTP/3 bodies (data, then trailers, never data
  again), and the streams of HTTP/3 connections and requests with their
  background tasks;
- `serve`: the serve loops, how a failed connection is reported, and the
  settings handed to the forwarding client;
- `uri`, `connector`: URI rewriting for HTTP/3 calls and for the fixed-address
  TCP connector, with socket address text;
- `cert_hash`, `certs`, `paths`, `openssl_policy`: certificate thumbprints,
  the certificate resolvers, test file locations and the OpenSSL acceptor's
  policy.

`app/` holds the runtime: sockets, TLS engines, hyper and tonic servers and
clients, and the event loops that feed the library what they observe.
`tests/` exercises the library on concrete values.
