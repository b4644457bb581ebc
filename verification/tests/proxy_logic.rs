use yarrp::connector::{addr_to_string, SocketAddr, SocketAddrV4, TcpConnector, UdsConnector};
use yarrp::poll::IoErrorKind;
use yarrp::serve::{
    connection_report, h3_driver_close_delay_secs, proxy_alpn_protocols, proxy_client_settings,
    serve_step_failing, serve_step_skipping, ConnReport, ServeAction, ServeErrorSource, ServeEvent,
};
use yarrp::uri::{h3_request_parts, h3_request_uri, with_authority, UriParts};

fn parts(s: Option<&str>, a: Option<&str>, p: Option<&str>) -> UriParts {
    UriParts {
        scheme: s.map(|x| x.to_string()),
        authority: a.map(|x| x.to_string()),
        path_and_query: p.map(|x| x.to_string()),
    }
}

#[test]
fn serve_loops_skip_or_fail_on_errors() {
    assert!(matches!(serve_step_skipping::<u8, &str>(ServeEvent::Incoming(Some(Ok(1)))), ServeAction::Serve(1)));
    assert!(matches!(serve_step_skipping::<u8, &str>(ServeEvent::Incoming(Some(Err("e")))), ServeAction::Skip("e")));
    assert!(matches!(serve_step_skipping::<u8, &str>(ServeEvent::Incoming(None)), ServeAction::Stop));
    assert!(matches!(serve_step_skipping::<u8, &str>(ServeEvent::Shutdown), ServeAction::Stop));
    assert!(matches!(serve_step_failing::<u8, &str>(ServeEvent::Incoming(Some(Ok(1)))), ServeAction::Serve(1)));
    assert!(matches!(serve_step_failing::<u8, &str>(ServeEvent::Incoming(Some(Err("e")))), ServeAction::Fail("e")));
    assert!(matches!(serve_step_failing::<u8, &str>(ServeEvent::Incoming(None)), ServeAction::Stop));
    assert!(matches!(serve_step_failing::<u8, &str>(ServeEvent::Shutdown), ServeAction::Stop));
}

#[test]
fn connection_reset_is_not_reported() {
    assert!(matches!(connection_report(ServeErrorSource::HyperIo(IoErrorKind::ConnectionReset)), ConnReport::Silent));
    assert!(matches!(
        connection_report(ServeErrorSource::HyperIo(IoErrorKind::ConnectionAborted)),
        ConnReport::IoThenHyper
    ));
    assert!(matches!(connection_report(ServeErrorSource::HyperNoSource), ConnReport::Hyper));
    assert!(matches!(connection_report(ServeErrorSource::HyperOther), ConnReport::Hyper));
    assert!(matches!(connection_report(ServeErrorSource::General), ConnReport::General));
}

#[test]
fn proxy_settings() {
    let s = proxy_client_settings();
    assert_eq!(s.pool_idle_timeout_secs, 3);
    assert!(s.http2_only);
    assert_eq!(proxy_alpn_protocols(), vec![b"h2".to_vec()]);
    assert_eq!(h3_driver_close_delay_secs(), 2);
}

#[test]
fn h3_request_uri_aims_at_target() {
    let target = parts(Some("https"), Some("localhost:4433"), Some("/"));
    let req = parts(None, None, Some("/helloworld.Greeter/SayHello"));
    let uri = h3_request_uri(&target, &req).unwrap();
    assert_eq!(uri, "https://localhost:4433/helloworld.Greeter/SayHello");
    let p = h3_request_parts(&target, &req).unwrap();
    assert_eq!(p.scheme.as_deref(), Some("https"));
    assert_eq!(p.authority.as_deref(), Some("localhost:4433"));
    assert_eq!(p.path_and_query.as_deref(), Some("/helloworld.Greeter/SayHello"));
}

#[test]
fn h3_request_parts_need_all_components() {
    let req = parts(None, None, Some("/x"));
    assert!(h3_request_parts(&parts(None, Some("h:1"), Some("/")), &req).is_none());
    assert!(h3_request_parts(&parts(Some("https"), None, Some("/")), &req).is_none());
    assert!(h3_request_parts(&parts(Some("https"), Some("h:1"), None), &parts(None, None, None)).is_none());
}

#[test]
fn h3_request_uri_refused_by_http() {
    let req = parts(None, None, Some("/x"));
    // an invalid authority is refused by http
    assert!(h3_request_uri(&parts(Some("https"), Some("bad host"), Some("/")), &req).is_none());
}

#[test]
fn with_authority_last_wins() {
    let u = parts(Some("http"), Some("example.com"), Some("/a?b=1"));
    let once = with_authority(&u, "10.0.0.1:80");
    let twice = with_authority(&with_authority(&u, "1.1.1.1:1"), "10.0.0.1:80");
    assert_eq!(once.authority, twice.authority);
    assert_eq!(once.scheme, u.scheme);
    assert_eq!(once.path_and_query, u.path_and_query);
}

#[test]
fn socket_addr_text() {
    let a = SocketAddr::V4(SocketAddrV4 { ip: [127, 0, 0, 1], port: 50052 });
    assert_eq!(addr_to_string(&a), "127.0.0.1:50052");
    let a = SocketAddr::V4(SocketAddrV4 { ip: [0, 10, 255, 9], port: 0 });
    assert_eq!(addr_to_string(&a), "0.10.255.9:0");
    let a = SocketAddr::V6("[::1]:50052".to_string());
    assert_eq!(addr_to_string(&a), "[::1]:50052");
}

#[test]
fn tcp_connector_redirects_to_its_address() {
    let c = TcpConnector::new(SocketAddr::V4(SocketAddrV4 { ip: [127, 0, 0, 1], port: 8080 }));
    let req = parts(Some("http"), Some("[::]:50051"), Some("/"));
    assert_eq!(c.target_uri(&req).unwrap(), "http://127.0.0.1:8080/");
    // a scheme without a path is refused
    assert!(c.target_uri(&parts(Some("http"), Some("x"), None)).is_none());
    assert!(matches!(c.addr(), SocketAddr::V4(v) if v.port == 8080));
}

#[test]
fn uds_connector_keeps_its_path() {
    let c = UdsConnector::new("C:\\tmp\\mytest.sock".to_string());
    assert_eq!(c.path(), "C:\\tmp\\mytest.sock");
}
