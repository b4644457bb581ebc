use yarrp::accept::{authorize_verdict, AcceptSlot, AuthorizeVerdict, Begin, ListenerStep};
use yarrp::handshake::{accept_outcome, start_handshake, HandshakeResult, MidHandShake, StartHandShake};
use yarrp::poll::{cvt, poll_into_io, IoError, IoErrorKind, PollState};
use yarrp::proxy::RustlsAcceptStream as ProxyRustlsAcceptStream;
use yarrp::streams::{OpensslAcceptStream, UdsAcceptStream};

fn err(kind: IoErrorKind, msg: &str) -> IoError {
    IoError { kind, detail: Some(msg.to_string()) }
}

#[test]
fn cvt_maps_results_to_polls() {
    assert!(matches!(cvt::<usize>(Ok(3)), PollState::Ready(Ok(3))));
    assert!(matches!(cvt::<usize>(Err(err(IoErrorKind::WouldBlock, "wb"))), PollState::Pending));
    match cvt::<usize>(Err(err(IoErrorKind::ConnectionReset, "reset"))) {
        PollState::Ready(Err(e)) => {
            assert_eq!(e.kind, IoErrorKind::ConnectionReset);
            assert_eq!(e.detail.as_deref(), Some("reset"));
        }
        _ => panic!("expected a ready error"),
    }
}

#[test]
fn poll_into_io_maps_pending_to_would_block() {
    match poll_into_io::<usize>(PollState::Pending) {
        Err(e) => {
            assert_eq!(e.kind, IoErrorKind::WouldBlock);
            assert!(e.detail.is_none());
        }
        Ok(_) => panic!("pending must read as an error"),
    }
    assert!(matches!(poll_into_io::<usize>(PollState::Ready(Ok(7))), Ok(7)));
    match poll_into_io::<usize>(PollState::Ready(Err(err(IoErrorKind::Other, "x")))) {
        Err(e) => assert_eq!(e.kind, IoErrorKind::Other),
        Ok(_) => panic!(),
    }
}

#[test]
fn poll_round_trip_through_io() {
    // cvt undoes poll_into_io for a pending poll and for a ready value
    assert!(matches!(cvt(poll_into_io::<u8>(PollState::Pending)), PollState::Pending));
    assert!(matches!(cvt(poll_into_io::<u8>(PollState::Ready(Ok(9)))), PollState::Ready(Ok(9))));
    // but a WouldBlock error that was ready reads back as pending
    let p = PollState::Ready(Err(err(IoErrorKind::WouldBlock, "wb")));
    assert!(matches!(cvt(poll_into_io::<u8>(p)), PollState::Pending));
    // and poll_into_io undoes cvt on any other error
    match poll_into_io(cvt::<u8>(Err(err(IoErrorKind::InvalidInput, "bad")))) {
        Err(e) => {
            assert_eq!(e.kind, IoErrorKind::InvalidInput);
            assert_eq!(e.detail.as_deref(), Some("bad"));
        }
        Ok(_) => panic!(),
    }
}

#[test]
fn mid_handshake_completes_once() {
    let mut mid: MidHandShake<&str> = MidHandShake(Some("m1"));
    let m = mid.take_for_poll();
    assert_eq!(m, "m1");
    assert!(mid.0.is_none());
    // interrupted again: the handshake stays pending
    let p = mid.settle::<u32, String>(HandshakeResult::Interrupted("m2"));
    assert!(matches!(p, PollState::Pending));
    assert_eq!(mid.0, Some("m2"));
    let m = mid.take_for_poll();
    assert_eq!(m, "m2");
    // finished: the future completes and holds nothing
    let p = mid.settle::<u32, String>(HandshakeResult::Done(5));
    assert!(matches!(p, PollState::Ready(Ok(5))));
    assert!(mid.0.is_none());
}

#[test]
fn mid_handshake_failure() {
    let mut mid: MidHandShake<u8> = MidHandShake(Some(1));
    let _ = mid.take_for_poll();
    let p = mid.settle::<u32, &str>(HandshakeResult::Failure("boom"));
    assert!(matches!(p, PollState::Ready(Err("boom"))));
    assert!(mid.0.is_none());
}

#[test]
fn accept_outcome_is_always_ready() {
    assert!(matches!(accept_outcome::<u8, u8, &str>(HandshakeResult::Done(1)), PollState::Ready(Ok(1))));
    assert!(matches!(
        accept_outcome::<u8, u8, &str>(HandshakeResult::Failure("f")),
        PollState::Ready(Err(Err("f")))
    ));
    match accept_outcome::<u8, u8, &str>(HandshakeResult::Interrupted(4)) {
        PollState::Ready(Err(Ok(mid))) => assert_eq!(mid.0, Some(4)),
        _ => panic!(),
    }
}

#[test]
fn start_handshake_outcomes() {
    assert!(matches!(start_handshake::<u8, u8, &str>(HandshakeResult::Done(2)), Ok(StartHandShake::Done(2))));
    assert!(matches!(start_handshake::<u8, u8, &str>(HandshakeResult::Failure("e")), Err("e")));
    match start_handshake::<u8, u8, &str>(HandshakeResult::Interrupted(3)) {
        Ok(StartHandShake::Mid(mid)) => assert_eq!(mid.0, Some(3)),
        _ => panic!(),
    }
}

#[test]
fn accept_slot_holds_one_handshake() {
    let mut slot: AcceptSlot<&str> = AcceptSlot::new();
    assert!(!slot.is_busy());
    assert!(matches!(slot.begin(), Begin::Listen));
    // a connection accepted; its handshake does not finish at once
    match slot.on_listener::<u32, u32, &str>(PollState::Ready(Ok(10))) {
        ListenerStep::Handshake(10) => {}
        _ => panic!(),
    }
    let p = slot.settle("hs", PollState::<u32>::Pending);
    assert!(matches!(p, PollState::Pending));
    assert!(slot.is_busy());
    // next poll resumes the handshake rather than accepting
    match slot.begin() {
        Begin::Resume(f) => {
            assert_eq!(f, "hs");
            assert!(!slot.is_busy());
            let p = slot.settle(f, PollState::Ready(42u32));
            assert!(matches!(p, PollState::Ready(Some(42))));
        }
        Begin::Listen => panic!("a pending handshake must be resumed"),
    }
    assert!(!slot.is_busy());
    assert!(matches!(slot.begin(), Begin::Listen));
}

#[test]
fn accept_slot_listener_outcomes() {
    let slot: AcceptSlot<u8> = AcceptSlot::new();
    assert!(matches!(
        slot.on_listener::<u32, u32, &str>(PollState::Pending),
        ListenerStep::Return(PollState::Pending)
    ));
    assert!(matches!(
        slot.on_listener::<u32, u32, &str>(PollState::Ready(Err("refused"))),
        ListenerStep::Return(PollState::Ready(Some(Err("refused"))))
    ));
}

#[test]
fn authorize_verdicts() {
    assert!(matches!(authorize_verdict::<&str>(None), AuthorizeVerdict::Admit));
    assert!(matches!(authorize_verdict::<&str>(Some(Ok(()))), AuthorizeVerdict::Admit));
    assert!(matches!(authorize_verdict(Some(Err("denied"))), AuthorizeVerdict::Reject("denied")));
}

#[test]
fn accept_slot_poll_next_resumes_before_listening() {
    let mut slot: AcceptSlot<u32> = AcceptSlot::new();
    let (listener, tls) = (0u8, 0u8);
    // the listener accepts connection 5; its handshake (50) does not finish
    let out = slot.poll_next(
        &listener,
        &tls,
        0u32,
        |_l: &u8, x: u32| (x, PollState::Ready(Ok::<u32, &str>(5))),
        |_t: &u8, s: u32| s * 10,
        |f: u32, x: u32| (f, x, PollState::<Result<u32, &str>>::Pending),
    );
    assert!(matches!(out, PollState::Pending));
    assert!(slot.is_busy());
    // the next poll resumes that handshake and leaves the listener alone
    let out = slot.poll_next(
        &listener,
        &tls,
        0u32,
        |_l: &u8, _x: u32| -> (u32, PollState<Result<u32, &str>>) { panic!("the listener must not be polled") },
        |_t: &u8, _s: u32| -> u32 { panic!("no handshake may start") },
        |f: u32, x: u32| (f, x, PollState::Ready(Ok::<u32, &str>(f + 1))),
    );
    assert!(matches!(out, PollState::Ready(Some(Ok(51)))));
    assert!(!slot.is_busy());
    // an accept error is the stream's next item
    let out = slot.poll_next(
        &listener,
        &tls,
        0u32,
        |_l: &u8, x: u32| (x, PollState::Ready(Err::<u32, &str>("refused"))),
        |_t: &u8, s: u32| s,
        |f: u32, x: u32| (f, x, PollState::<Result<u32, &str>>::Pending),
    );
    assert!(matches!(out, PollState::Ready(Some(Err("refused")))));
    assert!(!slot.is_busy());
    // a pending listener leaves the stream pending and the slot empty
    let out = slot.poll_next(
        &listener,
        &tls,
        0u32,
        |_l: &u8, x: u32| (x, PollState::<Result<u32, &str>>::Pending),
        |_t: &u8, s: u32| s,
        |f: u32, x: u32| (f, x, PollState::Ready(Ok::<u32, &str>(f))),
    );
    assert!(matches!(out, PollState::Pending));
    assert!(!slot.is_busy());
    // a handshake that finishes at once is handed out at once
    let out = slot.poll_next(
        &listener,
        &tls,
        0u32,
        |_l: &u8, x: u32| (x, PollState::Ready(Ok::<u32, &str>(7))),
        |_t: &u8, s: u32| s,
        |f: u32, x: u32| (f, x, PollState::Ready(Err::<u32, &str>("handshake failed"))),
    );
    assert!(matches!(out, PollState::Ready(Some(Err("handshake failed")))));
    assert!(!slot.is_busy());
}

#[test]
fn uds_stream_polls_one_accept_at_a_time() {
    let mut s = UdsAcceptStream::<u8, u32>::new(3u8);
    let out = s.poll_next(0u32, |l: &u8| *l as u32, |f: u32, x: u32| (f, x, PollState::<Result<u32, ()>>::Pending));
    assert!(matches!(out, PollState::Pending));
    assert!(s.slot.is_busy());
    let out = s.poll_next(
        0u32,
        |_l: &u8| -> u32 { panic!("a pending accept is not started again") },
        |f: u32, x: u32| (f, x, PollState::Ready(Ok::<u32, ()>(f))),
    );
    assert!(matches!(out, PollState::Ready(Some(Ok(3)))));
    assert!(!s.slot.is_busy());
}

#[test]
fn tls_streams_hand_out_handshakes() {
    let mut s = OpensslAcceptStream::<u8, u8, u32>::new(1u8, 2u8);
    let out = s.poll_next(
        0u32,
        |l: &u8, x: u32| (x, PollState::Ready(Ok::<u32, &str>(*l as u32))),
        |t: &u8, c: u32| c + *t as u32,
        |f: u32, x: u32| (f, x, PollState::Ready(Ok::<u32, &str>(f))),
    );
    assert!(matches!(out, PollState::Ready(Some(Ok(3)))));
    let mut p = ProxyRustlsAcceptStream::<u8, u8, u32>::new(6u8, 1u8);
    let out = p.poll_next(
        0u32,
        |_l: &u8, x: u32| (x, PollState::<Result<u32, &str>>::Pending),
        |_t: &u8, c: u32| c,
        |f: u32, x: u32| (f, x, PollState::Ready(Ok::<u32, &str>(f))),
    );
    assert!(matches!(out, PollState::Pending));
    assert!(!p.slot.is_busy());
}
