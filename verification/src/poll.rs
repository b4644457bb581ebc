//! The bridge between poll-based and blocking-style I/O used by the TLS
//! stream adapter: a pending poll becomes a `WouldBlock` error and back.

use vstd::prelude::*;

verus! {

/// The outcome of polling an asynchronous operation.
pub enum PollState<T> {
    Ready(T),
    Pending,
}

/// The kinds of I/O error that the proxy's logic tells apart.
#[derive(Clone, Copy, Debug, PartialEq, Eq, Structural)]
pub enum IoErrorKind {
    WouldBlock,
    ConnectionReset,
    ConnectionAborted,
    InvalidInput,
    Other,
}

/// An I/O error: its kind, and the message it carries when it was built
/// with one (`None` for an error made from its kind alone).
pub struct IoError {
    pub kind: IoErrorKind,
    pub detail: Option<String>,
}

impl IoError {
    /// The error made from a kind alone.
    pub fn from_kind(kind: IoErrorKind) -> (e: IoError)
        ensures
            e.kind == kind,
            e.detail is None,
    {
        IoError { kind, detail: None }
    }
}

/// What `cvt` gives back for a result of a blocking-style call.
pub open spec fn spec_cvt<T>(r: Result<T, IoError>) -> PollState<Result<T, IoError>> {
    match r {
        Ok(v) => PollState::Ready(Ok(v)),
        Err(e) => if e.kind == IoErrorKind::WouldBlock {
            PollState::Pending
        } else {
            PollState::Ready(Err(e))
        },
    }
}

/// Turns the result of a blocking-style call on the TLS session into a poll
/// outcome: a `WouldBlock` error means the operation is pending.
pub fn cvt<T>(r: Result<T, IoError>) -> (p: PollState<Result<T, IoError>>)
    ensures
        p == spec_cvt(r),
{
    match r {
        Ok(v) => PollState::Ready(Ok(v)),
        Err(e) => {
            if e.kind == IoErrorKind::WouldBlock {
                PollState::Pending
            } else {
                PollState::Ready(Err(e))
            }
        },
    }
}

/// What the blocking-style view of a polled operation reports.
pub open spec fn spec_poll_into_io<T>(p: PollState<Result<T, IoError>>) -> Result<T, IoError> {
    match p {
        PollState::Ready(r) => r,
        PollState::Pending => Err(IoError { kind: IoErrorKind::WouldBlock, detail: None }),
    }
}

/// Presents a polled operation of the underlying transport to the TLS
/// session as a blocking-style result: a pending operation becomes a
/// `WouldBlock` error, which the session hands back up.
pub fn poll_into_io<T>(p: PollState<Result<T, IoError>>) -> (r: Result<T, IoError>)
    ensures
        r == spec_poll_into_io(p),
{
    match p {
        PollState::Ready(r) => r,
        PollState::Pending => Err(IoError::from_kind(IoErrorKind::WouldBlock)),
    }
}

/// `cvt` passes every result through unchanged as a ready outcome, except
/// a `WouldBlock` error, which reads as pending.
pub proof fn lemma_cvt_passes_through<T>(v: T, e: IoError)
    ensures
        spec_cvt(Ok::<T, IoError>(v)) == PollState::Ready(Ok::<T, IoError>(v)),
        e.kind != IoErrorKind::WouldBlock ==> spec_cvt(Err::<T, IoError>(e)) == PollState::Ready(
            Err::<T, IoError>(e),
        ),
        e.kind == IoErrorKind::WouldBlock ==> spec_cvt(Err::<T, IoError>(e)) is Pending,
{
}

/// The blocking-style view of a ready outcome is that outcome's result,
/// unchanged; a pending one reads as a `WouldBlock` error.
pub proof fn lemma_poll_into_io_passes_through<T>(r: Result<T, IoError>)
    ensures
        spec_poll_into_io(PollState::Ready(r)) == r,
        spec_poll_into_io(PollState::<Result<T, IoError>>::Pending) matches Err(e) && e.kind
            == IoErrorKind::WouldBlock,
{
}

/// Polling the transport through the blocking-style view and converting the
/// result back with `cvt` gives the original poll outcome, unless that
/// outcome was itself a `WouldBlock` error, which reads as pending.
pub proof fn lemma_cvt_undoes_poll_into_io<T>(p: PollState<Result<T, IoError>>)
    ensures
        !(p matches PollState::Ready(Err(e)) && e.kind == IoErrorKind::WouldBlock)
            ==> spec_cvt(spec_poll_into_io(p)) == p,
        (p matches PollState::Ready(Err(e)) && e.kind == IoErrorKind::WouldBlock)
            ==> spec_cvt(spec_poll_into_io(p)) is Pending,
{
}

/// A blocking-style result that `cvt` turned into a poll outcome reads back
/// as the same result, except that a `WouldBlock` error comes back as a
/// `WouldBlock` error made from its kind alone.
pub proof fn lemma_poll_into_io_undoes_cvt<T>(r: Result<T, IoError>)
    ensures
        !(r matches Err(e) && e.kind == IoErrorKind::WouldBlock)
            ==> spec_poll_into_io(spec_cvt(r)) == r,
        (r matches Err(e) && e.kind == IoErrorKind::WouldBlock)
            ==> spec_poll_into_io(spec_cvt(r)) == Err::<T, IoError>(
            IoError { kind: IoErrorKind::WouldBlock, detail: None },
        ),
{
}

} // verus!
