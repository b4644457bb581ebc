use std::sync::Arc;
use yarrp::authorize::{ClientAuthorizor, LambdaClientAuthorizor};
use yarrp::poll::PollState;
use yarrp::streams::{RustlsAcceptStream, ServerSession};
use yarrp::cert_hash::{get_cert_hash_bytes, get_test_cert_hash, hash_from_hex, string_to_hash_bytes, trim_line_ending};
use yarrp::certs::{create_key, find_signing_key, CertError, CertifiedKey, ClientCertResolver, ServerCertResolver};
use yarrp::openssl_policy::{select_alpn, test_acceptor_settings, test_server_name, verify_peer, PeerVerification};
use yarrp::paths::{get_root_dir, get_test_cert_path, get_test_key_path, get_test_socket_path};

const THUMB: &str = "0123456789abcdefABCDEF0123456789abcdef01";

#[test]
fn hash_decodes_from_hex() {
    let h = string_to_hash_bytes(THUMB.to_string());
    assert_eq!(h[0], 0x01);
    assert_eq!(h[1], 0x23);
    assert_eq!(h[5], 0xab);
    assert_eq!(h[6], 0xcd);
    assert_eq!(h[8], 0xAB);
    assert_eq!(h[10], 0xEF);
    assert_eq!(h[19], 0x01);
    assert_eq!(get_cert_hash_bytes(THUMB.to_string()), h);
}

#[test]
fn hash_refuses_bad_hex() {
    assert!(hash_from_hex("0123").is_none());
    assert!(hash_from_hex(&THUMB[..39]).is_none());
    let mut bad = THUMB.to_string();
    bad.replace_range(0..1, "g");
    assert!(hash_from_hex(&bad).is_none());
    assert!(hash_from_hex(THUMB).is_some());
}

#[test]
fn line_endings_are_trimmed() {
    assert_eq!(trim_line_ending("abc\r\n".to_string()), "abc");
    assert_eq!(trim_line_ending("abc\n".to_string()), "abc");
    assert_eq!(trim_line_ending("abc\r".to_string()), "abc\r");
    assert_eq!(trim_line_ending("abc".to_string()), "abc");
    assert_eq!(trim_line_ending("\r\n".to_string()), "");
    assert_eq!(trim_line_ending("a\r\n\r\n".to_string()), "a\r\n");
}

#[test]
fn thumbprint_from_query_output() {
    let out = format!("{}\r\n", THUMB).into_bytes();
    assert_eq!(get_test_cert_hash(out), THUMB);
    assert_eq!(get_test_cert_hash(format!("{}\n", THUMB).into_bytes()), THUMB);
    assert_eq!(get_test_cert_hash(format!("{}\r", THUMB).into_bytes()), format!("{}\r", THUMB));
}

#[test]
fn first_signing_key_is_chosen() {
    let certs = vec![10u32, 11, 12, 13];
    let found = find_signing_key(&certs, |c: &u32| if *c >= 12 { Some(*c * 2) } else { None });
    assert_eq!(found, Some((2, 24)));
    let none = find_signing_key(&certs, |_c: &u32| None::<u32>);
    assert_eq!(none, None);
}

#[test]
fn create_key_errors() {
    let certs = vec![1u8, 2];
    let r = create_key(&certs, |_c: &u8| None::<u8>, |_c: &u8| Some(vec![vec![1u8]]));
    assert!(matches!(r, Err(CertError::NoSigningKey)));
    let r = create_key(&certs, |c: &u8| Some(*c), |_c: &u8| None);
    assert!(matches!(r, Err(CertError::NoChain)));
    let r = create_key(&certs, |c: &u8| if *c == 2 { Some(*c) } else { None }, |c: &u8| Some(vec![vec![*c, 0]]));
    match r {
        Ok(k) => {
            assert_eq!(k.key, 2);
            assert_eq!(k.cert, vec![vec![2u8, 0]]);
        }
        Err(_) => panic!(),
    }
}

#[test]
fn server_resolver_always_presents_the_same_key() {
    let certs = vec!["a", "b"];
    let r = ServerCertResolver::try_from_certs(
        &certs,
        |c: &&str| if *c == "b" { Some(7u32) } else { None },
        |c: &&str| Some(vec![c.as_bytes().to_vec(), b"root".to_vec()]),
    )
    .unwrap();
    assert_eq!(r.get_certs(), vec![b"b".to_vec(), b"root".to_vec()]);
    let k1 = r.resolve(Some("localhost"));
    let k2 = r.resolve(None);
    assert_eq!(k1.key, 7);
    assert_eq!(k1.cert, k2.cert);
    assert_eq!(k1.key, k2.key);
    let d = ServerCertResolver::create_default(CertifiedKey { cert: vec![vec![9u8]], key: 1u8 });
    assert_eq!(d.get_certs(), vec![vec![9u8]]);
}

#[test]
fn client_resolver_always_has_certs() {
    let certs: Vec<u8> = vec![3];
    let r = ClientCertResolver::try_from_certs(&certs, |c: &u8| Some(*c), |_c: &u8| Some(vec![vec![4u8]])).unwrap();
    assert!(r.has_certs());
    assert_eq!(r.resolve().key, 3);
    let empty: Vec<u8> = vec![];
    assert!(matches!(
        ClientCertResolver::try_from_certs(&empty, |c: &u8| Some(*c), |_c: &u8| Some(vec![])),
        Err(CertError::NoSigningKey)
    ));
}

fn test_server_connection() -> rustls::ServerConnection {
    let provider = std::sync::Arc::new(rustls::crypto::ring::default_provider());
    let config = rustls::ServerConfig::builder_with_provider(provider)
        .with_safe_default_protocol_versions()
        .unwrap()
        .with_no_client_auth()
        .with_cert_resolver(std::sync::Arc::new(rustls::server::ResolvesServerCertUsingSni::new()));
    rustls::ServerConnection::new(std::sync::Arc::new(config)).unwrap()
}

#[test]
fn lambda_authorizor_returns_the_callback_verdict() {
    let conn = test_server_connection();
    let refuse = LambdaClientAuthorizor::new(|_c: &rustls::ServerConnection| -> Result<(), String> {
        Err("nobody".to_string())
    });
    assert_eq!(refuse.on_connect(&conn), Err("nobody".to_string()));
    let welcome = LambdaClientAuthorizor::new(|_c: &rustls::ServerConnection| -> Result<(), String> { Ok(()) });
    assert_eq!(welcome.judge(&conn), Ok(()));
    assert_eq!(welcome.on_connect(&conn), Ok(()));
    let boxed = LambdaClientAuthorizor::new(
        |_c: &rustls::ServerConnection| -> Result<(), Box<dyn std::error::Error + Send + Sync>> {
            Err(Box::new(std::io::Error::new(std::io::ErrorKind::PermissionDenied, "denied")))
        },
    );
    let e = boxed.on_connect(&conn).unwrap_err();
    let io = e.downcast_ref::<std::io::Error>().unwrap();
    assert_eq!(io.kind(), std::io::ErrorKind::PermissionDenied);
    assert_eq!(io.to_string(), "denied");
}

#[test]
fn openssl_test_acceptor_settings() {
    let s = test_acceptor_settings(true);
    assert!(s.min_tls12);
    assert!(s.trusts_own_certificate);
    assert_eq!(s.alpn, b"h2".to_vec());
    assert_eq!(s.verification, PeerVerification::Skip);
    let s = test_acceptor_settings(false);
    assert_eq!(s.verification, PeerVerification::RequireCertificate);
    assert_eq!(select_alpn(b"\x08http/1.1\x02h2"), b"h2".to_vec());
    assert_eq!(test_server_name(), "localhost");
}

#[test]
fn peer_verification() {
    assert!(!verify_peer(false, Some(&[3usize][..])));
    assert!(!verify_peer(true, None));
    assert!(!verify_peer(true, Some(&[][..])));
    assert!(!verify_peer(true, Some(&[2usize, 0][..])));
    assert!(verify_peer(true, Some(&[0usize, 1][..])));
}

#[test]
fn test_material_paths() {
    let cwd = "/work/yarrp/crates/samples/tonic_openssl_test";
    assert_eq!(get_root_dir(cwd).as_deref(), Some("/work/yarrp"));
    assert_eq!(get_test_cert_path(cwd).as_deref(), Some("/work/yarrp/tests/cert.pem"));
    assert_eq!(get_test_key_path(cwd).as_deref(), Some("/work/yarrp/tests/key.pem"));
    let cert = get_test_cert_path(cwd).unwrap();
    let key = get_test_key_path(cwd).unwrap();
    assert_eq!(std::path::Path::new(&cert).parent(), std::path::Path::new(&key).parent());
    assert_eq!(std::path::Path::new(&key).parent(), Some(std::path::Path::new("/work/yarrp/tests")));
    assert!(get_root_dir("/a/b").is_none());
    assert_eq!(get_test_socket_path("/tmp"), "/tmp/my.sock");
}

/// A finished handshake: a session and the number of its connection.
struct Session {
    conn: rustls::ServerConnection,
    id: u32,
}

impl ServerSession for Session {
    fn server_connection(&self) -> &rustls::ServerConnection {
        &self.conn
    }
}

type TestStream = RustlsAcceptStream<u8, u8, u32, u32, String, dyn ClientAuthorizor<String>>;

fn refusing() -> Option<Arc<dyn ClientAuthorizor<String>>> {
    let a: Arc<dyn ClientAuthorizor<String>> = Arc::new(LambdaClientAuthorizor::new(
        |_c: &rustls::ServerConnection| -> Result<(), String> { Err("nobody".to_string()) },
    ));
    Some(a)
}

fn welcoming() -> Option<Arc<dyn ClientAuthorizor<String>>> {
    let a: Arc<dyn ClientAuthorizor<String>> =
        Arc::new(LambdaClientAuthorizor::new(|_c: &rustls::ServerConnection| -> Result<(), String> { Ok(()) }));
    Some(a)
}

/// Polls `s` once: the listener accepts connection 1, whose handshake (10)
/// finishes at once; a shutdown (110) does not.
fn poll_accepting(s: &mut TestStream) -> PollState<Option<Result<Session, String>>> {
    let conn = test_server_connection();
    s.poll_next(
        0u32,
        |_l: &u8, x: u32| (x, PollState::Ready(Ok::<u32, String>(1))),
        |_t: &u8, c: u32| c * 10,
        move |h: u32, x: u32| (h, x, PollState::Ready(Ok(Session { conn, id: h }))),
        |t: Session| t.id + 100,
        |c: u32, x: u32| (c, x, PollState::Pending),
    )
}

#[test]
fn refused_client_gets_its_error_after_shutdown() {
    let mut s: TestStream = RustlsAcceptStream::new(0u8, 0u8, refusing());
    // the client is refused: its shutdown starts and is still pending
    assert!(matches!(poll_accepting(&mut s), PollState::Pending));
    assert!(s.slot.is_busy());
    // the next poll finishes the shutdown and hands out the refusal
    let out = s.poll_next(
        0u32,
        |_l: &u8, _x: u32| -> (u32, PollState<Result<u32, String>>) { panic!("the listener must not be polled") },
        |_t: &u8, _c: u32| -> u32 { panic!("no handshake may start") },
        |_h: u32, _x: u32| -> (u32, u32, PollState<Result<Session, String>>) { panic!("no handshake is in flight") },
        |_t: Session| -> u32 { panic!("nothing more to shut down") },
        |c: u32, x: u32| {
            assert_eq!(c, 110);
            (c, x, PollState::Ready(()))
        },
    );
    match out {
        PollState::Ready(Some(Err(e))) => assert_eq!(e, "nobody"),
        _ => panic!("the refusal must be the item"),
    }
    assert!(!s.slot.is_busy());
}

#[test]
fn admitted_or_unjudged_client_is_handed_out() {
    let mut s: TestStream = RustlsAcceptStream::new(0u8, 0u8, welcoming());
    match poll_accepting(&mut s) {
        PollState::Ready(Some(Ok(t))) => assert_eq!(t.id, 10),
        _ => panic!("an admitted client is handed out"),
    }
    assert!(!s.slot.is_busy());
    let mut s: TestStream = RustlsAcceptStream::new(0u8, 0u8, None);
    match poll_accepting(&mut s) {
        PollState::Ready(Some(Ok(t))) => assert_eq!(t.id, 10),
        _ => panic!("without an authorizor every client is handed out"),
    }
}

#[test]
fn failed_handshake_is_not_judged() {
    let mut s: TestStream = RustlsAcceptStream::new(0u8, 0u8, refusing());
    let out = s.poll_next(
        0u32,
        |_l: &u8, x: u32| (x, PollState::Ready(Ok::<u32, String>(1))),
        |_t: &u8, c: u32| c,
        |h: u32, x: u32| (h, x, PollState::<Result<Session, String>>::Ready(Err("handshake failed".to_string()))),
        |_t: Session| -> u32 { panic!("a failed handshake has nothing to shut down") },
        |c: u32, x: u32| (c, x, PollState::Ready(())),
    );
    match out {
        PollState::Ready(Some(Err(e))) => assert_eq!(e, "handshake failed"),
        _ => panic!("the handshake error must be the item"),
    }
    assert!(!s.slot.is_busy());
}
