//! The accept streams of the proxy: each pairs a transport listener with a
//! TLS acceptor (or none, for Unix sockets) and the slot of its in-flight
//! handshake (see `accept`). The rustls stream may carry an authorizor: once
//! a handshake succeeds the authorizor is asked, an admitted stream is
//! handed out, and a refused one is shut down before the authorizor's error
//! is handed out in its place.

use vstd::prelude::*;
use std::sync::Arc;
use crate::accept::{
    AcceptSlot, Begin, ListenerStep, AuthorizeVerdict, accept_polled_as, authorize_verdict,
    handshake_polled_as,
};
use crate::authorize::ClientAuthorizor;
use crate::poll::PollState;

verus! {

/// A TLS server stream whose session an authorizor can judge.
pub trait ServerSession {
    /// The TLS session of the stream.
    fn server_connection(&self) -> &rustls::ServerConnection;
}

#[verifier::external_type_specification]
#[verifier::external_body]
#[verifier::reject_recursive_types(IO)]
pub struct ExTlsStream<IO>(tokio_rustls::server::TlsStream<IO>);

/// The session of a tokio-rustls server stream (`TlsStream::get_ref`, whose
/// second part is the stream's `ServerConnection`). Nothing is stated of it:
/// the stream is opaque here.
#[verifier::external_body]
fn tls_server_connection<IO>(s: &tokio_rustls::server::TlsStream<IO>) -> &rustls::ServerConnection {
    s.get_ref().1
}

impl<IO> ServerSession for tokio_rustls::server::TlsStream<IO> {
    fn server_connection(&self) -> &rustls::ServerConnection {
        tls_server_connection(self)
    }
}

/// The work that follows the transport accept of a connection on a TLS
/// stream with an authorizor.
pub enum AuthStage<H, C, E> {
    /// The TLS handshake is in flight.
    Handshaking(H),
    /// The authorizor refused the client with the error: the connection is
    /// being shut down, after which the error is the stream's next item.
    Closing(C, E),
}

/// `out` and `slot` are what one poll (with `x`) of the shutdown `c` of a
/// refused connection can give: once it finished, the refusal `e` is the
/// item and the slot is empty; until then the shutdown stays in the slot.
pub open spec fn closing_polled_as<H, C, E, V, X, CF>(
    poll_close: CF,
    c: C,
    e: E,
    x: X,
    out: PollState<Option<Result<V, E>>>,
    slot: Option<AuthStage<H, C, E>>,
) -> bool where CF: FnOnce(C, X) -> (C, X, PollState<()>) {
    exists|c2: C, x2: X, p: PollState<()>|
        #[trigger] poll_close.ensures((c, x), (c2, x2, p)) && match p {
            PollState::Ready(()) => out == PollState::<Option<Result<V, E>>>::Ready(Some(Err(e)))
                && slot is None,
            PollState::Pending => out is Pending && slot == Some(AuthStage::<H, C, E>::Closing(c2, e)),
        }
}

/// `out` and `slot` are what one poll (with `x`) of the stage `stage` can
/// give. A handshake that fails hands out its error. A handshake that
/// succeeds is handed out at once without an authorizor; with one, the
/// authorizor is asked once, on the stream's session: `Ok(())` hands out
/// the stream, a refusal `Err(e)` starts the shutdown of the stream with
/// `shut_down` and polls it at once (see `closing_polled_as`).
pub open spec fn stage_polled_as<A: ?Sized, H, C, E, V, X, HF, DF, CF>(
    auth: Option<Arc<A>>,
    stage: AuthStage<H, C, E>,
    x: X,
    poll_handshake: HF,
    shut_down: DF,
    poll_close: CF,
    out: PollState<Option<Result<V, E>>>,
    slot: Option<AuthStage<H, C, E>>,
) -> bool where
    A: ClientAuthorizor<E>,
    V: ServerSession,
    HF: FnOnce(H, X) -> (H, X, PollState<Result<V, E>>),
    DF: FnOnce(V) -> C,
    CF: FnOnce(C, X) -> (C, X, PollState<()>),
 {
    match stage {
        AuthStage::Closing(c, e) => closing_polled_as(poll_close, c, e, x, out, slot),
        AuthStage::Handshaking(h) => exists|h2: H, x2: X, p: PollState<Result<V, E>>|
            #[trigger] poll_handshake.ensures((h, x), (h2, x2, p)) && match p {
                PollState::Pending => out is Pending && slot == Some(AuthStage::<H, C, E>::Handshaking(h2)),
                PollState::Ready(Err(e)) => out == PollState::<Option<Result<V, E>>>::Ready(Some(Err(e)))
                    && slot is None,
                PollState::Ready(Ok(t)) => match auth {
                    None => out == PollState::<Option<Result<V, E>>>::Ready(Some(Ok(t))) && slot is None,
                    Some(a) => exists|conn: rustls::ServerConnection, v: Result<(), E>|
                        #[trigger] (*a).admits(&conn, v) && match v {
                            Ok(()) => out == PollState::<Option<Result<V, E>>>::Ready(Some(Ok(t)))
                                && slot is None,
                            Err(e) => exists|c: C|
                                #[trigger] shut_down.ensures((t,), c) && closing_polled_as(
                                    poll_close,
                                    c,
                                    e,
                                    x2,
                                    out,
                                    slot,
                                ),
                        },
                },
            },
    }
}

/// One poll of the stage taken out of the slot (see `stage_polled_as`).
fn poll_stage<A: ?Sized, H, C, E, V, X, HF, DF, CF>(
    slot: &mut AcceptSlot<AuthStage<H, C, E>>,
    auth: &Option<Arc<A>>,
    stage: AuthStage<H, C, E>,
    x: X,
    poll_handshake: HF,
    shut_down: DF,
    poll_close: CF,
) -> (out: PollState<Option<Result<V, E>>>) where
    A: ClientAuthorizor<E>,
    V: ServerSession,
    HF: FnOnce(H, X) -> (H, X, PollState<Result<V, E>>),
    DF: FnOnce(V) -> C,
    CF: FnOnce(C, X) -> (C, X, PollState<()>),
    requires
        old(slot).pending() is None,
        forall|h: H, x0: X| #[trigger] poll_handshake.requires((h, x0)),
        forall|t: V| #[trigger] shut_down.requires((t,)),
        forall|c: C, x0: X| #[trigger] poll_close.requires((c, x0)),
    ensures
        stage_polled_as(*auth, stage, x, poll_handshake, shut_down, poll_close, out, final(slot).pending()),
        (out matches PollState::Ready(Some(Ok(_)))) ==> match *auth {
            Some(a) => exists|conn: rustls::ServerConnection, v: Result<(), E>|
                #[trigger] (*a).admits(&conn, v) && v is Ok,
            None => true,
        },
        out is Ready ==> final(slot).pending() is None,
        final(slot).pending() is Some ==> out is Pending,
{
    match stage {
        AuthStage::Closing(c, e) => poll_closing(slot, c, e, x, poll_close),
        AuthStage::Handshaking(h) => {
            let (h2, x2, p) = poll_handshake(h, x);
            match p {
                PollState::Pending => slot.settle(AuthStage::Handshaking(h2), PollState::<Result<V, E>>::Pending),
                PollState::Ready(Err(e)) => PollState::Ready(Some(Err(e))),
                PollState::Ready(Ok(t)) => {
                    let ghost mut judged: Option<(rustls::ServerConnection, Result<(), E>)> = None;
                    let checked = match auth {
                        None => None,
                        Some(a) => {
                            let conn = t.server_connection();
                            let verdict = a.on_connect(conn);
                            proof {
                                judged = Some((*conn, verdict));
                            }
                            Some(verdict)
                        },
                    };
                    let decision = authorize_verdict(checked);
                    match decision {
                        AuthorizeVerdict::Admit => {
                            proof {
                                if auth is Some {
                                    assert((*auth.unwrap()).admits(&judged.unwrap().0, judged.unwrap().1));
                                }
                            }
                            PollState::Ready(Some(Ok(t)))
                        },
                        AuthorizeVerdict::Reject(e) => {
                            let c = shut_down(t);
                            poll_closing(slot, c, e, x2, poll_close)
                        },
                    }
                },
            }
        },
    }
}

/// One poll of the shutdown of a refused connection (see
/// `closing_polled_as`).
fn poll_closing<H, C, E, V, X, CF>(
    slot: &mut AcceptSlot<AuthStage<H, C, E>>,
    c: C,
    e: E,
    x: X,
    poll_close: CF,
) -> (out: PollState<Option<Result<V, E>>>) where CF: FnOnce(C, X) -> (C, X, PollState<()>)
    requires
        old(slot).pending() is None,
        forall|c0: C, x0: X| #[trigger] poll_close.requires((c0, x0)),
    ensures
        closing_polled_as(poll_close, c, e, x, out, final(slot).pending()),
        out is Ready ==> out == PollState::<Option<Result<V, E>>>::Ready(Some(Err(e))),
        out is Ready ==> final(slot).pending() is None,
        final(slot).pending() is Some ==> out is Pending,
{
    let (c2, _x2, p) = poll_close(c, x);
    match p {
        PollState::Ready(()) => PollState::Ready(Some(Err(e))),
        PollState::Pending => slot.settle(AuthStage::Closing(c2, e), PollState::<Result<V, E>>::Pending),
    }
}

/// One poll of a rustls accept stream whose slot held `held`: a stage in
/// flight is polled and the listener left alone (see `stage_polled_as`);
/// otherwise the listener is polled, its pending state or error is the
/// answer, and an accepted connection has its handshake started by `start`
/// and polled at once.
pub open spec fn rustls_polled_as<A: ?Sized, L, T, S, H, C, E, V, X, LF, SF, HF, DF, CF>(
    held: Option<AuthStage<H, C, E>>,
    auth: Option<Arc<A>>,
    inner: &L,
    tls: &T,
    x: X,
    listen: LF,
    start: SF,
    poll_handshake: HF,
    shut_down: DF,
    poll_close: CF,
    out: PollState<Option<Result<V, E>>>,
    slot: Option<AuthStage<H, C, E>>,
) -> bool where
    A: ClientAuthorizor<E>,
    V: ServerSession,
    LF: FnOnce(&L, X) -> (X, PollState<Result<S, E>>),
    SF: FnOnce(&T, S) -> H,
    HF: FnOnce(H, X) -> (H, X, PollState<Result<V, E>>),
    DF: FnOnce(V) -> C,
    CF: FnOnce(C, X) -> (C, X, PollState<()>),
 {
    match held {
        Some(st) => stage_polled_as(auth, st, x, poll_handshake, shut_down, poll_close, out, slot),
        None => exists|x1: X, lp: PollState<Result<S, E>>|
            #[trigger] listen.ensures((inner, x), (x1, lp)) && match lp {
                PollState::Pending => out is Pending && slot is None,
                PollState::Ready(Err(e)) => out == PollState::<Option<Result<V, E>>>::Ready(Some(Err(e)))
                    && slot is None,
                PollState::Ready(Ok(s)) => exists|h: H|
                    #[trigger] start.ensures((tls, s), h) && stage_polled_as(
                        auth,
                        AuthStage::<H, C, E>::Handshaking(h),
                        x1,
                        poll_handshake,
                        shut_down,
                        poll_close,
                        out,
                        slot,
                    ),
            },
    }
}

/// A poll of a stage that answers `Pending` keeps that connection's work in
/// the slot; in particular a handshake whose poll is pending stays in the
/// slot, as the poll left it.
pub proof fn lemma_pending_stage_is_kept<A: ?Sized, H, C, E, V, X, HF, DF, CF>(
    auth: Option<Arc<A>>,
    stage: AuthStage<H, C, E>,
    x: X,
    poll_handshake: HF,
    shut_down: DF,
    poll_close: CF,
    out: PollState<Option<Result<V, E>>>,
    slot: Option<AuthStage<H, C, E>>,
) where
    A: ClientAuthorizor<E>,
    V: ServerSession,
    HF: FnOnce(H, X) -> (H, X, PollState<Result<V, E>>),
    DF: FnOnce(V) -> C,
    CF: FnOnce(C, X) -> (C, X, PollState<()>),

    requires
        stage_polled_as(auth, stage, x, poll_handshake, shut_down, poll_close, out, slot),
        out is Pending,
    ensures
        slot is Some,
        slot matches Some(AuthStage::Handshaking(h2)) ==> exists|h: H, x2: X|
            stage == AuthStage::<H, C, E>::Handshaking(h) && #[trigger] poll_handshake.ensures(
                (h, x),
                (h2, x2, PollState::<Result<V, E>>::Pending),
            ),
{
    if let AuthStage::Handshaking(h) = stage {
        let (h2, x2, p) = choose|h2: H, x2: X, p: PollState<Result<V, E>>|
            #[trigger] poll_handshake.ensures((h, x), (h2, x2, p)) && match p {
                PollState::Pending => out is Pending && slot == Some(AuthStage::<H, C, E>::Handshaking(h2)),
                PollState::Ready(Err(e)) => out == PollState::<Option<Result<V, E>>>::Ready(Some(Err(e)))
                    && slot is None,
                PollState::Ready(Ok(t)) => match auth {
                    None => out == PollState::<Option<Result<V, E>>>::Ready(Some(Ok(t))) && slot is None,
                    Some(a) => exists|conn: rustls::ServerConnection, v: Result<(), E>|
                        #[trigger] (*a).admits(&conn, v) && match v {
                            Ok(()) => out == PollState::<Option<Result<V, E>>>::Ready(Some(Ok(t)))
                                && slot is None,
                            Err(e) => exists|c: C|
                                #[trigger] shut_down.ensures((t,), c) && closing_polled_as(
                                    poll_close,
                                    c,
                                    e,
                                    x2,
                                    out,
                                    slot,
                                ),
                        },
                },
            };
        if let Some(AuthStage::Handshaking(k)) = slot {
            assert(poll_handshake.ensures((h, x), (k, x2, PollState::<Result<V, E>>::Pending)));
        }
    }
}

/// The items of a handshake's poll: a stream handed out is the one the
/// handshake gave (and, with an authorizor, one it admitted); an error
/// handed out is the handshake's own error or, with an authorizor, its
/// refusal.
pub proof fn lemma_handshake_items<A: ?Sized, H, C, E, V, X, HF, DF, CF>(
    auth: Option<Arc<A>>,
    h: H,
    x: X,
    poll_handshake: HF,
    shut_down: DF,
    poll_close: CF,
    out: PollState<Option<Result<V, E>>>,
    slot: Option<AuthStage<H, C, E>>,
) where
    A: ClientAuthorizor<E>,
    V: ServerSession,
    HF: FnOnce(H, X) -> (H, X, PollState<Result<V, E>>),
    DF: FnOnce(V) -> C,
    CF: FnOnce(C, X) -> (C, X, PollState<()>),

    requires
        stage_polled_as(auth, AuthStage::Handshaking(h), x, poll_handshake, shut_down, poll_close, out, slot),
    ensures
        out matches PollState::Ready(Some(Ok(t))) ==> exists|h2: H, x2: X|
            #[trigger] poll_handshake.ensures((h, x), (h2, x2, PollState::Ready(Ok::<V, E>(t)))),
        out matches PollState::Ready(Some(Err(e))) ==> (exists|h2: H, x2: X|
            #[trigger] poll_handshake.ensures((h, x), (h2, x2, PollState::Ready(Err::<V, E>(e)))))
            || (auth matches Some(a) && exists|conn: rustls::ServerConnection|
            #[trigger] (*a).admits(&conn, Err::<(), E>(e))),
{
    let (h2, x2, p) = choose|h2: H, x2: X, p: PollState<Result<V, E>>|
        #[trigger] poll_handshake.ensures((h, x), (h2, x2, p)) && match p {
            PollState::Pending => out is Pending && slot == Some(AuthStage::<H, C, E>::Handshaking(h2)),
            PollState::Ready(Err(e)) => out == PollState::<Option<Result<V, E>>>::Ready(Some(Err(e)))
                && slot is None,
            PollState::Ready(Ok(t)) => match auth {
                None => out == PollState::<Option<Result<V, E>>>::Ready(Some(Ok(t))) && slot is None,
                Some(a) => exists|conn: rustls::ServerConnection, v: Result<(), E>|
                    #[trigger] (*a).admits(&conn, v) && match v {
                        Ok(()) => out == PollState::<Option<Result<V, E>>>::Ready(Some(Ok(t)))
                            && slot is None,
                        Err(e) => exists|c: C|
                            #[trigger] shut_down.ensures((t,), c) && closing_polled_as(
                                poll_close,
                                c,
                                e,
                                x2,
                                out,
                                slot,
                            ),
                    },
            },
        };
    if let PollState::Ready(Some(Ok(t))) = out {
        assert(poll_handshake.ensures((h, x), (h2, x2, PollState::Ready(Ok::<V, E>(t)))));
    }
    if let PollState::Ready(Some(Err(e))) = out {
        if let PollState::Ready(Err(e0)) = p {
            assert(poll_handshake.ensures((h, x), (h2, x2, PollState::Ready(Err::<V, E>(e)))));
        }
    }
}

/// A poll of a rustls accept stream that answers `Pending` loses no
/// accepted connection: it leaves the slot empty only when the slot was
/// empty and the listener itself was pending.
pub proof fn lemma_pending_poll_loses_nothing<A: ?Sized, L, T, S, H, C, E, V, X, LF, SF, HF, DF, CF>(
    held: Option<AuthStage<H, C, E>>,
    auth: Option<Arc<A>>,
    inner: &L,
    tls: &T,
    x: X,
    listen: LF,
    start: SF,
    poll_handshake: HF,
    shut_down: DF,
    poll_close: CF,
    out: PollState<Option<Result<V, E>>>,
    slot: Option<AuthStage<H, C, E>>,
) where
    A: ClientAuthorizor<E>,
    V: ServerSession,
    LF: FnOnce(&L, X) -> (X, PollState<Result<S, E>>),
    SF: FnOnce(&T, S) -> H,
    HF: FnOnce(H, X) -> (H, X, PollState<Result<V, E>>),
    DF: FnOnce(V) -> C,
    CF: FnOnce(C, X) -> (C, X, PollState<()>),

    requires
        rustls_polled_as(
            held,
            auth,
            inner,
            tls,
            x,
            listen,
            start,
            poll_handshake,
            shut_down,
            poll_close,
            out,
            slot,
        ),
        out is Pending,
    ensures
        slot is None ==> held is None && exists|x1: X|
            #[trigger] listen.ensures((inner, x), (x1, PollState::<Result<S, E>>::Pending)),
        held is Some ==> slot is Some,
{
}

/// A TLS (rustls) accept stream over a TCP listener whose clients may be
/// judged by an authorizor once their handshake finishes.
pub struct RustlsAcceptStream<L, T, H, C, E, A: ?Sized> {
    pub inner: L,
    pub tls: T,
    pub slot: AcceptSlot<AuthStage<H, C, E>>,
    pub authorizor: Option<Arc<A>>,
}

impl<L, T, H, C, E, A: ?Sized> RustlsAcceptStream<L, T, H, C, E, A> {
    /// A stream over `tcp` that secures each connection with `tls` and,
    /// with an authorizor, keeps only the clients it admits.
    pub fn new(tcp: L, tls: T, authorizor: Option<Arc<A>>) -> (s: Self)
        ensures
            s.inner == tcp,
            s.tls == tls,
            s.authorizor == authorizor,
            s.slot.pending() is None,
    {
        RustlsAcceptStream { inner: tcp, tls, slot: AcceptSlot::new(), authorizor }
    }

    /// One poll of the stream: `listen` polls the listener, `start` starts
    /// the TLS handshake of an accepted connection, `poll_handshake` polls
    /// it, `shut_down` starts the shutdown of a refused connection and
    /// `poll_close` polls that (see `rustls_polled_as`).
    ///
    /// The stream never ends and holds at most one connection's work. With
    /// an authorizor, a stream is handed out only if the authorizor admitted
    /// it; a refused client's error is handed out only once its connection
    /// was shut down, and leaves the slot empty.
    pub fn poll_next<S, V, X, LF, SF, HF, DF, CF>(
        &mut self,
        x: X,
        listen: LF,
        start: SF,
        poll_handshake: HF,
        shut_down: DF,
        poll_close: CF,
    ) -> (out: PollState<Option<Result<V, E>>>) where
        A: ClientAuthorizor<E>,
        V: ServerSession,
        LF: FnOnce(&L, X) -> (X, PollState<Result<S, E>>),
        SF: FnOnce(&T, S) -> H,
        HF: FnOnce(H, X) -> (H, X, PollState<Result<V, E>>),
        DF: FnOnce(V) -> C,
        CF: FnOnce(C, X) -> (C, X, PollState<()>),
        requires
            forall|x0: X| #[trigger] listen.requires((&old(self).inner, x0)),
            forall|s: S| #[trigger] start.requires((&old(self).tls, s)),
            forall|h: H, x0: X| #[trigger] poll_handshake.requires((h, x0)),
            forall|t: V| #[trigger] shut_down.requires((t,)),
            forall|c: C, x0: X| #[trigger] poll_close.requires((c, x0)),
        ensures
            rustls_polled_as(
                old(self).slot.pending(),
                old(self).authorizor,
                &old(self).inner,
                &old(self).tls,
                x,
                listen,
                start,
                poll_handshake,
                shut_down,
                poll_close,
                out,
                final(self).slot.pending(),
            ),
            !(out matches PollState::Ready(None)),
            out is Ready ==> final(self).slot.pending() is None,
            final(self).slot.pending() is Some ==> out is Pending,
            (out matches PollState::Ready(Some(Ok(_)))) ==> match old(self).authorizor {
                Some(a) => exists|conn: rustls::ServerConnection, v: Result<(), E>|
                    #[trigger] (*a).admits(&conn, v) && v is Ok,
                None => true,
            },
            final(self).inner == old(self).inner,
            final(self).tls == old(self).tls,
            final(self).authorizor == old(self).authorizor,
    {
        match self.slot.begin() {
            Begin::Resume(st) => poll_stage(
                &mut self.slot,
                &self.authorizor,
                st,
                x,
                poll_handshake,
                shut_down,
                poll_close,
            ),
            Begin::Listen => {
                let (x1, lp) = listen(&self.inner, x);
                match self.slot.on_listener::<S, V, E>(lp) {
                    ListenerStep::Return(out) => out,
                    ListenerStep::Handshake(s) => {
                        let h = start(&self.tls, s);
                        poll_stage(
                            &mut self.slot,
                            &self.authorizor,
                            AuthStage::Handshaking(h),
                            x1,
                            poll_handshake,
                            shut_down,
                            poll_close,
                        )
                    },
                }
            },
        }
    }
}

/// A TLS (OpenSSL) accept stream over a TCP listener.
pub struct OpensslAcceptStream<L, T, F> {
    pub inner: L,
    pub tls: T,
    pub slot: AcceptSlot<F>,
}

impl<L, T, F> OpensslAcceptStream<L, T, F> {
    /// A stream over `inner` that secures each connection with `tls`.
    pub fn new(inner: L, tls: T) -> (s: Self)
        ensures
            s.inner == inner,
            s.tls == tls,
            s.slot.pending() is None,
    {
        OpensslAcceptStream { inner, tls, slot: AcceptSlot::new() }
    }

    /// One poll of the stream (see `AcceptSlot::poll_next`): `listen` polls
    /// the listener, `start` starts the TLS handshake of an accepted
    /// connection, `poll` polls the handshake in flight. The stream never
    /// ends and holds at most one handshake.
    pub fn poll_next<S, R, E, X, LF, SF, PF>(
        &mut self,
        x: X,
        listen: LF,
        start: SF,
        poll: PF,
    ) -> (out: PollState<Option<Result<R, E>>>) where
        LF: FnOnce(&L, X) -> (X, PollState<Result<S, E>>),
        SF: FnOnce(&T, S) -> F,
        PF: FnOnce(F, X) -> (F, X, PollState<Result<R, E>>),
        requires
            forall|x0: X| #[trigger] listen.requires((&old(self).inner, x0)),
            forall|s: S| #[trigger] start.requires((&old(self).tls, s)),
            forall|f: F, x0: X| #[trigger] poll.requires((f, x0)),
        ensures
            accept_polled_as(
                old(self).slot.pending(),
                &old(self).inner,
                &old(self).tls,
                x,
                listen,
                start,
                poll,
                out,
                final(self).slot.pending(),
            ),
            !(out matches PollState::Ready(None)),
            out is Ready ==> final(self).slot.pending() is None,
            final(self).inner == old(self).inner,
            final(self).tls == old(self).tls,
    {
        self.slot.poll_next(&self.inner, &self.tls, x, listen, start, poll)
    }
}

/// An accept stream over a Unix domain socket listener, whose accepts run
/// in a blocking task held in the slot.
pub struct UdsAcceptStream<L, F> {
    pub inner: L,
    pub slot: AcceptSlot<F>,
}

impl<L, F> UdsAcceptStream<L, F> {
    /// A stream over `ul`.
    pub fn new(ul: L) -> (s: Self)
        ensures
            s.inner == ul,
            s.slot.pending() is None,
    {
        UdsAcceptStream { inner: ul, slot: AcceptSlot::new() }
    }

    /// One poll of the stream: a blocking accept in flight is polled with
    /// `poll`; otherwise `start` starts one on the listener and it is polled
    /// at once. A finished accept's result is the next item and leaves the
    /// slot empty; an unfinished one stays in the slot to be polled again,
    /// not started again. The stream never ends.
    pub fn poll_next<T, X, SF, PF>(&mut self, x: X, start: SF, poll: PF) -> (out: PollState<Option<T>>) where
        SF: FnOnce(&L) -> F,
        PF: FnOnce(F, X) -> (F, X, PollState<T>),
        requires
            start.requires((&old(self).inner,)),
            forall|f: F, x0: X| #[trigger] poll.requires((f, x0)),
        ensures
            match old(self).slot.pending() {
                Some(f) => handshake_polled_as(poll, f, x, out, final(self).slot.pending()),
                None => exists|f0: F|
                    #[trigger] start.ensures((&old(self).inner,), f0) && handshake_polled_as(
                        poll,
                        f0,
                        x,
                        out,
                        final(self).slot.pending(),
                    ),
            },
            !(out matches PollState::Ready(None)),
            out is Ready ==> final(self).slot.pending() is None,
            final(self).inner == old(self).inner,
    {
        let f = match self.slot.begin() {
            crate::accept::Begin::Resume(f) => f,
            crate::accept::Begin::Listen => start(&self.inner),
        };
        let (f2, _x2, p) = poll(f, x);
        self.slot.settle(f2, p)
    }
}

} // verus!
