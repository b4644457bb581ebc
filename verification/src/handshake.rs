//! The TLS handshake steps of the Schannel stream adapter: how the result
//! of starting, accepting or continuing a handshake becomes a stream, an
//! error or a handshake left to resume.

use vstd::prelude::*;
use crate::poll::PollState;

verus! {

/// What one handshake attempt of the TLS engine gives back: the finished
/// stream, a failure, or the handshake interrupted because the transport
/// would block.
pub enum HandshakeResult<S, M, E> {
    Done(S),
    Failure(E),
    Interrupted(M),
}

/// A handshake in progress, polled as a future until it finishes. It holds
/// the interrupted handshake while one is pending and nothing once the
/// future has completed.
pub struct MidHandShake<M>(pub Option<M>);

/// The first step of a handshake: finished at once, or left to resume.
pub enum StartHandShake<M, S> {
    Mid(MidHandShake<M>),
    Done(S),
}

impl<M> MidHandShake<M> {
    /// A handshake that is waiting to be resumed.
    pub open spec fn is_pending(&self) -> bool {
        self.0 is Some
    }

    /// Takes the interrupted handshake out for the next attempt. A handshake
    /// future is never polled after it completed.
    pub fn take_for_poll(&mut self) -> (m: M)
        requires
            old(self).is_pending(),
        ensures
            Some(m) == old(self).0,
            final(self).0 is None,
    {
        self.0.take().unwrap()
    }

    /// Records the result of resuming the handshake: a finished stream or a
    /// failure completes the future, an interruption keeps it pending.
    pub fn settle<S, E>(&mut self, r: HandshakeResult<S, M, E>) -> (p: PollState<Result<S, E>>)
        requires
            old(self).0 is None,
        ensures
            match r {
                HandshakeResult::Done(s) => p == PollState::<Result<S, E>>::Ready(Ok(s))
                    && final(self).0 is None,
                HandshakeResult::Failure(e) => p == PollState::<Result<S, E>>::Ready(Err(e))
                    && final(self).0 is None,
                HandshakeResult::Interrupted(m) => p is Pending && final(self).0 == Some(m),
            },
    {
        match r {
            HandshakeResult::Done(s) => PollState::Ready(Ok(s)),
            HandshakeResult::Failure(e) => PollState::Ready(Err(e)),
            HandshakeResult::Interrupted(m) => {
                self.0 = Some(m);
                PollState::Pending
            },
        }
    }
}

/// The outcome of a server handshake started by a poll: the stream, or
/// (the handshake to resume, or the failure). It is always ready.
pub fn accept_outcome<S, M, E>(r: HandshakeResult<S, M, E>) -> (p: PollState<
    Result<S, Result<MidHandShake<M>, E>>,
>)
    ensures
        match r {
            HandshakeResult::Done(s) => p == PollState::<Result<S, Result<MidHandShake<M>, E>>>::Ready(Ok(s)),
            HandshakeResult::Failure(e) => p == PollState::<Result<S, Result<MidHandShake<M>, E>>>::Ready(Err(Err(e))),
            HandshakeResult::Interrupted(m) => p == PollState::<Result<S, Result<MidHandShake<M>, E>>>::Ready(
                Err(Ok(MidHandShake(Some(m)))),
            ),
        },
{
    match r {
        HandshakeResult::Done(s) => PollState::Ready(Ok(s)),
        HandshakeResult::Failure(e) => PollState::Ready(Err(Err(e))),
        HandshakeResult::Interrupted(m) => PollState::Ready(Err(Ok(MidHandShake(Some(m))))),
    }
}

/// The first step of connecting or accepting: a finished stream, a failure,
/// or a pending handshake that is then awaited to the end.
pub fn start_handshake<S, M, E>(r: HandshakeResult<S, M, E>) -> (s: Result<StartHandShake<M, S>, E>)
    ensures
        match r {
            HandshakeResult::Done(st) => s == Ok::<StartHandShake<M, S>, E>(StartHandShake::Done(st)),
            HandshakeResult::Failure(e) => s == Err::<StartHandShake<M, S>, E>(e),
            HandshakeResult::Interrupted(m) => s == Ok::<StartHandShake<M, S>, E>(
                StartHandShake::Mid(MidHandShake(Some(m))),
            ),
        },
        s matches Ok(StartHandShake::Mid(mid)) ==> mid.is_pending(),
{
    match r {
        HandshakeResult::Done(st) => Ok(StartHandShake::Done(st)),
        HandshakeResult::Failure(e) => Err(e),
        HandshakeResult::Interrupted(m) => Ok(StartHandShake::Mid(MidHandShake(Some(m)))),
    }
}

} // verus!
