//! Decision logic of a reverse proxy built on hyper and tonic: the state
//! machines behind its accept streams, TLS handshakes, HTTP/3 bodies and
//! serve loops, together with URI rewriting and certificate helpers.
//! The event loops, sockets and TLS engines that drive these decisions live
//! in the application layer.

pub mod poll;
pub mod handshake;
pub mod accept;
pub mod streams;
pub mod proxy;
pub mod frames;
pub mod h3_accept;
pub mod serve;
pub mod uri;
pub mod connector;
pub mod cert_hash;
pub mod certs;
pub mod authorize;
pub mod paths;
pub mod openssl_policy;
