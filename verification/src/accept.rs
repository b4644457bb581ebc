//! The state machine behind the proxy's accept streams. Each stream accepts
//! a transport connection and then runs a handshake on it as a future; at
//! most one such handshake is in flight, it is polled before any new
//! connection is accepted, and it is dropped from the stream as soon as it
//! finishes.

use vstd::prelude::*;
use crate::poll::PollState;

verus! {

/// The slot of an accept stream that holds its in-flight handshake.
pub struct AcceptSlot<F> {
    fu: Option<F>,
}

/// Where a poll of an accept stream starts.
pub enum Begin<F> {
    /// A handshake is in flight: poll it.
    Resume(F),
    /// No handshake is in flight: accept the next connection.
    Listen,
}

/// What follows a poll of the transport listener.
pub enum ListenerStep<S, X, E> {
    /// The stream answers this without starting a handshake.
    Return(PollState<Option<Result<X, E>>>),
    /// A connection was accepted: start its handshake.
    Handshake(S),
}

/// What becomes of a connection whose handshake finished, once the
/// authorization callback (if any) has judged it.
pub enum AuthorizeVerdict<E> {
    /// The connection is handed out.
    Admit,
    /// The connection is shut down and the error handed out in its place.
    Reject(E),
}

impl<F> AcceptSlot<F> {
    /// The handshake in flight, if any.
    pub closed spec fn pending(&self) -> Option<F> {
        self.fu
    }

    /// A slot with no handshake in flight.
    pub fn new() -> (s: Self)
        ensures
            s.pending() is None,
    {
        AcceptSlot { fu: None }
    }

    /// Whether a handshake is in flight.
    pub fn is_busy(&self) -> (b: bool)
        ensures
            b == (self.pending() is Some),
    {
        self.fu.is_some()
    }

    /// Starts a poll of the stream: a handshake in flight is taken out to be
    /// polled; otherwise the listener is polled.
    pub fn begin(&mut self) -> (b: Begin<F>)
        ensures
            final(self).pending() is None,
            match old(self).pending() {
                Some(f) => b == Begin::Resume(f),
                None => b is Listen,
            },
    {
        match self.fu.take() {
            Some(f) => Begin::Resume(f),
            None => Begin::Listen,
        }
    }

    /// Decides what follows a poll of the listener: a pending listener or an
    /// accept error is handed back as the stream's answer, an accepted
    /// connection starts a handshake.
    pub fn on_listener<S, X, E>(&self, p: PollState<Result<S, E>>) -> (step: ListenerStep<S, X, E>)
        ensures
            match p {
                PollState::Pending => step == ListenerStep::<S, X, E>::Return(PollState::Pending),
                PollState::Ready(Err(e)) => step == ListenerStep::<S, X, E>::Return(
                    PollState::Ready(Some(Err(e))),
                ),
                PollState::Ready(Ok(s)) => step == ListenerStep::<S, X, E>::Handshake(s),
            },
    {
        match p {
            PollState::Pending => ListenerStep::Return(PollState::Pending),
            PollState::Ready(Err(e)) => ListenerStep::Return(PollState::Ready(Some(Err(e)))),
            PollState::Ready(Ok(s)) => ListenerStep::Handshake(s),
        }
    }

    /// Records the poll of a handshake: a finished handshake leaves the slot
    /// empty and its result is the stream's next item; an unfinished one is
    /// kept in the slot. The slot never holds two handshakes.
    pub fn settle<T>(&mut self, fu: F, polled: PollState<T>) -> (p: PollState<Option<T>>)
        requires
            old(self).pending() is None,
        ensures
            match polled {
                PollState::Ready(t) => p == PollState::Ready(Some(t)) && final(self).pending() is None,
                PollState::Pending => p is Pending && final(self).pending() == Some(fu),
            },
    {
        match polled {
            PollState::Ready(t) => PollState::Ready(Some(t)),
            PollState::Pending => {
                self.fu = Some(fu);
                PollState::Pending
            },
        }
    }
}

/// What the stream answers, and what its slot holds, once a handshake's poll
/// gave `p` and left the handshake as `f`: a finished handshake's result is
/// the next item and the slot is empty; an unfinished one stays in the slot.
pub open spec fn settles_as<T, F>(p: PollState<T>, f: F, out: PollState<Option<T>>, slot: Option<F>) -> bool {
    match p {
        PollState::Ready(t) => out == PollState::Ready(Some(t)) && slot is None,
        PollState::Pending => out is Pending && slot == Some(f),
    }
}

/// `out` and `slot` are what one poll of the handshake `f` (with `x`) by
/// `poll` can give.
pub open spec fn handshake_polled_as<F, X, T, PF>(
    poll: PF,
    f: F,
    x: X,
    out: PollState<Option<T>>,
    slot: Option<F>,
) -> bool where PF: FnOnce(F, X) -> (F, X, PollState<T>) {
    exists|f2: F, x2: X, p: PollState<T>|
        #[trigger] poll.ensures((f, x), (f2, x2, p)) && settles_as(p, f2, out, slot)
}

/// One poll of an accept stream whose slot held `held`: a handshake in
/// flight is polled and the listener is left alone; otherwise the listener
/// is polled, its pending state or error is the answer, and an accepted
/// connection has its handshake started by `start` and polled at once.
pub open spec fn accept_polled_as<L, T, S, R, E, F, X, LF, SF, PF>(
    held: Option<F>,
    inner: &L,
    tls: &T,
    x: X,
    listen: LF,
    start: SF,
    poll: PF,
    out: PollState<Option<Result<R, E>>>,
    slot: Option<F>,
) -> bool where
    LF: FnOnce(&L, X) -> (X, PollState<Result<S, E>>),
    SF: FnOnce(&T, S) -> F,
    PF: FnOnce(F, X) -> (F, X, PollState<Result<R, E>>),
 {
    match held {
        Some(f) => handshake_polled_as(poll, f, x, out, slot),
        None => exists|x1: X, lp: PollState<Result<S, E>>|
            #[trigger] listen.ensures((inner, x), (x1, lp)) && match lp {
                PollState::Pending => out is Pending && slot is None,
                PollState::Ready(Err(e)) => out == PollState::<Option<Result<R, E>>>::Ready(
                    Some(Err(e)),
                ) && slot is None,
                PollState::Ready(Ok(s)) => exists|f0: F|
                    #[trigger] start.ensures((tls, s), f0) && handshake_polled_as(
                        poll,
                        f0,
                        x1,
                        out,
                        slot,
                    ),
            },
    }
}

/// One poll of a handshake answers with what the poll gave: a ready item is
/// the handshake's own result, and a pending answer keeps the handshake in
/// the slot as the poll left it.
pub proof fn lemma_handshake_poll_answers<F, X, T, PF>(
    poll: PF,
    f: F,
    x: X,
    out: PollState<Option<T>>,
    slot: Option<F>,
) where PF: FnOnce(F, X) -> (F, X, PollState<T>)
    requires
        handshake_polled_as(poll, f, x, out, slot),
    ensures
        out matches PollState::Ready(Some(t)) ==> slot is None && exists|f2: F, x2: X|
            #[trigger] poll.ensures((f, x), (f2, x2, PollState::Ready(t))),
        out is Pending ==> slot is Some,
        slot matches Some(f2) ==> exists|x2: X|
            #[trigger] poll.ensures((f, x), (f2, x2, PollState::<T>::Pending)),
        !(out matches PollState::Ready(None)),
{
    let (f2, x2, p) = choose|f2: F, x2: X, p: PollState<T>|
        #[trigger] poll.ensures((f, x), (f2, x2, p)) && settles_as(p, f2, out, slot);
    if let Some(g) = slot {
        assert(poll.ensures((f, x), (g, x2, PollState::<T>::Pending)));
    }
    if let PollState::Ready(Some(t)) = out {
        assert(poll.ensures((f, x), (f2, x2, PollState::Ready(t))));
    }
}

/// A poll of an accept stream that answers `Pending` loses no accepted
/// connection: it leaves the slot empty only when the slot was empty and
/// the listener itself was pending.
pub proof fn lemma_pending_accept_loses_nothing<L, T, S, R, E, F, X, LF, SF, PF>(
    held: Option<F>,
    inner: &L,
    tls: &T,
    x: X,
    listen: LF,
    start: SF,
    poll: PF,
    out: PollState<Option<Result<R, E>>>,
    slot: Option<F>,
) where
    LF: FnOnce(&L, X) -> (X, PollState<Result<S, E>>),
    SF: FnOnce(&T, S) -> F,
    PF: FnOnce(F, X) -> (F, X, PollState<Result<R, E>>),

    requires
        accept_polled_as(held, inner, tls, x, listen, start, poll, out, slot),
        out is Pending,
    ensures
        slot is None ==> held is None && exists|x1: X|
            #[trigger] listen.ensures((inner, x), (x1, PollState::<Result<S, E>>::Pending)),
        held is Some ==> slot is Some,
{
}

impl<F> AcceptSlot<F> {
    /// One poll of an accept stream over the listener `inner` and the TLS
    /// acceptor `tls`, with `x` (the task context) handed along: `listen`
    /// polls the listener, `start` starts a handshake on an accepted
    /// connection and `poll` polls a handshake.
    ///
    /// The stream never ends (the answer is never `Ready(None)`), holds at
    /// most one handshake, and holds none after any ready answer.
    pub fn poll_next<L, T, S, R, E, X, LF, SF, PF>(
        &mut self,
        inner: &L,
        tls: &T,
        x: X,
        listen: LF,
        start: SF,
        poll: PF,
    ) -> (out: PollState<Option<Result<R, E>>>) where
        LF: FnOnce(&L, X) -> (X, PollState<Result<S, E>>),
        SF: FnOnce(&T, S) -> F,
        PF: FnOnce(F, X) -> (F, X, PollState<Result<R, E>>),
        requires
            forall|x0: X| #[trigger] listen.requires((inner, x0)),
            forall|s: S| #[trigger] start.requires((tls, s)),
            forall|f: F, x0: X| #[trigger] poll.requires((f, x0)),
        ensures
            accept_polled_as(old(self).pending(), inner, tls, x, listen, start, poll, out, final(self).pending()),
            !(out matches PollState::Ready(None)),
            out is Ready ==> final(self).pending() is None,
            final(self).pending() is Some ==> out is Pending,
    {
        match self.begin() {
            Begin::Resume(f) => {
                let (f2, _x2, p) = poll(f, x);
                self.settle(f2, p)
            },
            Begin::Listen => {
                let (x1, lp) = listen(inner, x);
                match self.on_listener::<S, R, E>(lp) {
                    ListenerStep::Return(out) => out,
                    ListenerStep::Handshake(s) => {
                        let f0 = start(tls, s);
                        let (f2, _x2, p) = poll(f0, x1);
                        self.settle(f2, p)
                    },
                }
            },
        }
    }
}

/// Judges a connection whose TLS handshake finished: without an
/// authorization callback (`None`) it is admitted; otherwise the callback's
/// verdict decides, and a refused connection is closed and its error
/// returned.
pub fn authorize_verdict<E>(checked: Option<Result<(), E>>) -> (v: AuthorizeVerdict<E>)
    ensures
        match checked {
            None => v is Admit,
            Some(Ok(())) => v is Admit,
            Some(Err(e)) => v == AuthorizeVerdict::Reject(e),
        },
{
    match checked {
        None => AuthorizeVerdict::Admit,
        Some(Ok(())) => AuthorizeVerdict::Admit,
        Some(Err(e)) => AuthorizeVerdict::Reject(e),
    }
}

} // verus!
