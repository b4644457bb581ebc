//! The pieces of the Windows proxy server that differ from the library's:
//! its TLS accept stream has no authorizor.

use vstd::prelude::*;
use crate::accept::{AcceptSlot, accept_polled_as};
use crate::poll::PollState;

verus! {

/// A TLS (rustls) accept stream over a TCP listener, as used by the Windows
/// proxy server.
pub struct RustlsAcceptStream<L, T, F> {
    pub inner: L,
    pub tls: T,
    pub slot: AcceptSlot<F>,
}

impl<L, T, F> RustlsAcceptStream<L, T, F> {
    /// A stream over `tcp` that secures each connection with `tls`.
    pub fn new(tcp: L, tls: T) -> (s: Self)
        ensures
            s.inner == tcp,
            s.tls == tls,
            s.slot.pending() is None,
    {
        RustlsAcceptStream { inner: tcp, tls, slot: AcceptSlot::new() }
    }

    /// One poll of the stream (see `AcceptSlot::poll_next`): `listen` polls
    /// the listener, `start` starts the TLS handshake of an accepted
    /// connection, `poll` polls the handshake in flight. The stream never
    /// ends and holds at most one handshake.
    pub fn poll_next<S, R, E, X, LF, SF, PF>(
        &mut self,
        x: X,
        listen: LF,
        start: SF,
        poll: PF,
    ) -> (out: PollState<Option<Result<R, E>>>) where
        LF: FnOnce(&L, X) -> (X, PollState<Result<S, E>>),
        SF: FnOnce(&T, S) -> F,
        PF: FnOnce(F, X) -> (F, X, PollState<Result<R, E>>),
        requires
            forall|x0: X| #[trigger] listen.requires((&old(self).inner, x0)),
            forall|s: S| #[trigger] start.requires((&old(self).tls, s)),
            forall|f: F, x0: X| #[trigger] poll.requires((f, x0)),
        ensures
            accept_polled_as(
                old(self).slot.pending(),
                &old(self).inner,
                &old(self).tls,
                x,
                listen,
                start,
                poll,
                out,
                final(self).slot.pending(),
            ),
            !(out matches PollState::Ready(None)),
            out is Ready ==> final(self).slot.pending() is None,
            final(self).inner == old(self).inner,
            final(self).tls == old(self).tls,
    {
        self.slot.poll_next(&self.inner, &self.tls, x, listen, start, poll)
    }
}

} // verus!
