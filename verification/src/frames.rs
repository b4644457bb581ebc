//! HTTP/3 message bodies as the proxy reads and writes them. An incoming
//! body first yields the DATA frames of its request stream, then, once the
//! data is exhausted, its trailers; it never goes back to data.

use vstd::prelude::*;
use crate::poll::PollState;

verus! {

/// What a poll of an incoming HTTP/3 body yields.
pub enum FrameStep<D, H, E> {
    /// Nothing yet. With `wake` set the body has just finished its data and
    /// asks to be polled again at once for the trailers.
    Pending { wake: bool },
    /// A DATA frame.
    Data(D),
    /// The trailers.
    Trailers(H),
    /// The body is over.
    End,
    /// The stream failed.
    Error(E),
}

/// The progress of an incoming body: whether its DATA frames are exhausted.
pub struct FrameReader {
    data_done: bool,
}

/// The event that a poll of the request stream reports, without its payload.
pub enum RecvKind {
    Pending,
    Item,
    Finished,
    Failed,
}

/// The kind of a `FrameStep`, without its payload.
pub enum StepKind {
    Pending,
    Data,
    Trailers,
    End,
    Error,
}

/// The kind of event a poll of the request stream reports.
pub open spec fn recv_kind<T, E>(p: PollState<Result<Option<T>, E>>) -> RecvKind {
    match p {
        PollState::Pending => RecvKind::Pending,
        PollState::Ready(Ok(Some(_))) => RecvKind::Item,
        PollState::Ready(Ok(None)) => RecvKind::Finished,
        PollState::Ready(Err(_)) => RecvKind::Failed,
    }
}

/// The kind of a frame step.
pub open spec fn step_kind<D, H, E>(s: FrameStep<D, H, E>) -> StepKind {
    match s {
        FrameStep::Pending { .. } => StepKind::Pending,
        FrameStep::Data(_) => StepKind::Data,
        FrameStep::Trailers(_) => StepKind::Trailers,
        FrameStep::End => StepKind::End,
        FrameStep::Error(_) => StepKind::Error,
    }
}

/// Whether the data is exhausted after an event, given whether it was before.
pub open spec fn next_data_done(data_done: bool, ev: RecvKind) -> bool {
    data_done || ev is Finished
}

/// The kind of step a body answers with for an event.
pub open spec fn answer_kind(data_done: bool, ev: RecvKind) -> StepKind {
    match ev {
        RecvKind::Pending => StepKind::Pending,
        RecvKind::Item => if data_done { StepKind::Trailers } else { StepKind::Data },
        RecvKind::Finished => if data_done { StepKind::End } else { StepKind::Pending },
        RecvKind::Failed => StepKind::Error,
    }
}

/// The kinds of the steps a body answers with for a run of events.
pub open spec fn run_kinds(data_done: bool, evs: Seq<RecvKind>) -> Seq<StepKind>
    decreases evs.len(),
{
    if evs.len() == 0 {
        Seq::empty()
    } else {
        seq![answer_kind(data_done, evs[0])] + run_kinds(
            next_data_done(data_done, evs[0]),
            evs.drop_first(),
        )
    }
}

impl FrameReader {
    /// Whether the DATA frames are exhausted.
    pub closed spec fn is_data_done(&self) -> bool {
        self.data_done
    }

    /// A body that has not read anything yet.
    pub fn new() -> (r: Self)
        ensures
            !r.is_data_done(),
    {
        FrameReader { data_done: false }
    }

    /// Whether the next poll reads trailers rather than data.
    pub fn reading_trailers(&self) -> (b: bool)
        ensures
            b == self.is_data_done(),
    {
        self.data_done
    }

    /// Answers a poll for data: a chunk becomes a DATA frame; the end of the
    /// data switches the body to its trailers and asks to be woken at once;
    /// an error is handed out.
    pub fn on_data<D, H, E>(&mut self, p: PollState<Result<Option<D>, E>>) -> (s: FrameStep<D, H, E>)
        requires
            !old(self).is_data_done(),
        ensures
            final(self).is_data_done() == next_data_done(false, recv_kind(p)),
            step_kind(s) == answer_kind(false, recv_kind(p)),
            match p {
                PollState::Pending => s == FrameStep::<D, H, E>::Pending { wake: false },
                PollState::Ready(Ok(Some(d))) => s == FrameStep::<D, H, E>::Data(d),
                PollState::Ready(Ok(None)) => s == FrameStep::<D, H, E>::Pending { wake: true },
                PollState::Ready(Err(e)) => s == FrameStep::<D, H, E>::Error(e),
            },
    {
        match p {
            PollState::Pending => FrameStep::Pending { wake: false },
            PollState::Ready(Ok(Some(d))) => FrameStep::Data(d),
            PollState::Ready(Ok(None)) => {
                self.data_done = true;
                FrameStep::Pending { wake: true }
            },
            PollState::Ready(Err(e)) => FrameStep::Error(e),
        }
    }

    /// Answers a poll for trailers, once the data is exhausted: trailers are
    /// handed out, their absence ends the body, an error is handed out.
    pub fn on_trailers<D, H, E>(&mut self, p: PollState<Result<Option<H>, E>>) -> (s: FrameStep<D, H, E>)
        requires
            old(self).is_data_done(),
        ensures
            final(self).is_data_done(),
            step_kind(s) == answer_kind(true, recv_kind(p)),
            match p {
                PollState::Pending => s == FrameStep::<D, H, E>::Pending { wake: false },
                PollState::Ready(Ok(Some(h))) => s == FrameStep::<D, H, E>::Trailers(h),
                PollState::Ready(Ok(None)) => s is End,
                PollState::Ready(Err(e)) => s == FrameStep::<D, H, E>::Error(e),
            },
    {
        match p {
            PollState::Pending => FrameStep::Pending { wake: false },
            PollState::Ready(Ok(Some(h))) => FrameStep::Trailers(h),
            PollState::Ready(Ok(None)) => FrameStep::End,
            PollState::Ready(Err(e)) => FrameStep::Error(e),
        }
    }
}

/// Once the data of a body is exhausted, it yields no DATA frame any more.
pub proof fn lemma_no_data_once_done(evs: Seq<RecvKind>)
    ensures
        forall|i: int| 0 <= i < run_kinds(true, evs).len() ==> !(#[trigger] run_kinds(true, evs)[i] is Data),
        run_kinds(true, evs).len() == evs.len(),
    decreases evs.len(),
{
    if evs.len() > 0 {
        lemma_no_data_once_done(evs.drop_first());
    }
}

/// Over any run of polls, an incoming body never yields a DATA frame after
/// its trailers or after its end, and it ends or yields trailers only once
/// its data is exhausted.
pub proof fn lemma_no_data_after_trailers(data_done: bool, evs: Seq<RecvKind>)
    ensures
        run_kinds(data_done, evs).len() == evs.len(),
        forall|i: int, j: int|
            0 <= i < j < evs.len() && (run_kinds(data_done, evs)[i] is Trailers
                || run_kinds(data_done, evs)[i] is End) ==> !(run_kinds(data_done, evs)[j] is Data),
    decreases evs.len(),
{
    if evs.len() > 0 {
        let rest = evs.drop_first();
        let nd = next_data_done(data_done, evs[0]);
        lemma_no_data_after_trailers(nd, rest);
        let out = run_kinds(data_done, evs);
        let tail = run_kinds(nd, rest);
        assert(out == seq![answer_kind(data_done, evs[0])] + tail);
        assert forall|i: int, j: int|
            0 <= i < j < evs.len() && (out[i] is Trailers || out[i] is End) implies !(out[j] is Data) by {
            if i == 0 {
                assert(data_done);
                lemma_no_data_once_done(rest);
                assert(out[j] == tail[j - 1]);
            } else {
                assert(out[i] == tail[i - 1]);
                assert(out[j] == tail[j - 1]);
            }
        }
    }
}

/// The response body of an HTTP/3 client call, reading from the request
/// stream `s`.
pub struct H3IncomingClient<S> {
    pub s: S,
    pub reader: FrameReader,
}

impl<S> H3IncomingClient<S> {
    /// The body of the stream, before anything is read.
    pub fn new(s: S) -> (b: Self)
        ensures
            b.s == s,
            !b.reader.is_data_done(),
    {
        H3IncomingClient { s, reader: FrameReader::new() }
    }

    /// Whether the next poll reads trailers.
    pub fn reading_trailers(&self) -> (b: bool)
        ensures
            b == self.reader.is_data_done(),
    {
        self.reader.reading_trailers()
    }

    /// Answers a poll for data (see `FrameReader::on_data`).
    pub fn on_data<D, H, E>(&mut self, p: PollState<Result<Option<D>, E>>) -> (st: FrameStep<D, H, E>)
        requires
            !old(self).reader.is_data_done(),
        ensures
            final(self).s == old(self).s,
            final(self).reader.is_data_done() == next_data_done(false, recv_kind(p)),
            match p {
                PollState::Pending => st == FrameStep::<D, H, E>::Pending { wake: false },
                PollState::Ready(Ok(Some(d))) => st == FrameStep::<D, H, E>::Data(d),
                PollState::Ready(Ok(None)) => st == FrameStep::<D, H, E>::Pending { wake: true },
                PollState::Ready(Err(e)) => st == FrameStep::<D, H, E>::Error(e),
            },
    {
        self.reader.on_data(p)
    }

    /// Answers a poll for trailers (see `FrameReader::on_trailers`).
    pub fn on_trailers<D, H, E>(&mut self, p: PollState<Result<Option<H>, E>>) -> (st: FrameStep<D, H, E>)
        requires
            old(self).reader.is_data_done(),
        ensures
            final(self).s == old(self).s,
            final(self).reader.is_data_done(),
            match p {
                PollState::Pending => st == FrameStep::<D, H, E>::Pending { wake: false },
                PollState::Ready(Ok(Some(h))) => st == FrameStep::<D, H, E>::Trailers(h),
                PollState::Ready(Ok(None)) => st is End,
                PollState::Ready(Err(e)) => st == FrameStep::<D, H, E>::Error(e),
            },
    {
        self.reader.on_trailers(p)
    }

    /// The body never claims to be over before it is polled to its end.
    pub fn is_end_stream(&self) -> (b: bool)
        ensures
            !b,
    {
        false
    }
}

/// The request body of an HTTP/3 request served by the proxy, reading from
/// the request stream `s`.
pub struct H3IncomingServer<S> {
    pub s: S,
    pub reader: FrameReader,
}

impl<S> H3IncomingServer<S> {
    /// The body of the stream, before anything is read.
    pub fn new(s: S) -> (b: Self)
        ensures
            b.s == s,
            !b.reader.is_data_done(),
    {
        H3IncomingServer { s, reader: FrameReader::new() }
    }

    /// Whether the next poll reads trailers.
    pub fn reading_trailers(&self) -> (b: bool)
        ensures
            b == self.reader.is_data_done(),
    {
        self.reader.reading_trailers()
    }

    /// Answers a poll for data (see `FrameReader::on_data`).
    pub fn on_data<D, H, E>(&mut self, p: PollState<Result<Option<D>, E>>) -> (st: FrameStep<D, H, E>)
        requires
            !old(self).reader.is_data_done(),
        ensures
            final(self).s == old(self).s,
            final(self).reader.is_data_done() == next_data_done(false, recv_kind(p)),
            match p {
                PollState::Pending => st == FrameStep::<D, H, E>::Pending { wake: false },
                PollState::Ready(Ok(Some(d))) => st == FrameStep::<D, H, E>::Data(d),
                PollState::Ready(Ok(None)) => st == FrameStep::<D, H, E>::Pending { wake: true },
                PollState::Ready(Err(e)) => st == FrameStep::<D, H, E>::Error(e),
            },
    {
        self.reader.on_data(p)
    }

    /// Answers a poll for trailers (see `FrameReader::on_trailers`).
    pub fn on_trailers<D, H, E>(&mut self, p: PollState<Result<Option<H>, E>>) -> (st: FrameStep<D, H, E>)
        requires
            old(self).reader.is_data_done(),
        ensures
            final(self).s == old(self).s,
            final(self).reader.is_data_done(),
            match p {
                PollState::Pending => st == FrameStep::<D, H, E>::Pending { wake: false },
                PollState::Ready(Ok(Some(h))) => st == FrameStep::<D, H, E>::Trailers(h),
                PollState::Ready(Ok(None)) => st is End,
                PollState::Ready(Err(e)) => st == FrameStep::<D, H, E>::Error(e),
            },
    {
        self.reader.on_trailers(p)
    }

    /// The body never claims to be over before it is polled to its end.
    pub fn is_end_stream(&self) -> (b: bool)
        ensures
            !b,
    {
        false
    }
}

/// A frame of an HTTP body: data or trailers.
pub enum BodyFrame<D, H> {
    Data(D),
    Trailers(H),
}

/// What to do with the next frame of a body that is being written out.
pub enum SendAction<D, H, E> {
    SendData(D),
    SendTrailers(H),
    /// The body failed.
    Fail(E),
    /// The body is over.
    Finish,
}

/// Serving a response over HTTP/3: each frame of the service's response
/// body is written out, data as DATA and trailers as trailers; an error of
/// the body fails the request; the end of the body ends it.
pub fn response_frame_action<D, H, E>(f: Option<Result<BodyFrame<D, H>, E>>) -> (a: SendAction<D, H, E>)
    ensures
        match f {
            None => a is Finish,
            Some(Err(e)) => a == SendAction::<D, H, E>::Fail(e),
            Some(Ok(BodyFrame::Data(d))) => a == SendAction::<D, H, E>::SendData(d),
            Some(Ok(BodyFrame::Trailers(h))) => a == SendAction::<D, H, E>::SendTrailers(h),
        },
{
    match f {
        None => SendAction::Finish,
        Some(Err(e)) => SendAction::Fail(e),
        Some(Ok(BodyFrame::Data(d))) => SendAction::SendData(d),
        Some(Ok(BodyFrame::Trailers(h))) => SendAction::SendTrailers(h),
    }
}

/// What to do with the next frame of a request body that an HTTP/3 client
/// call forwards in the background.
pub enum ForwardAction<D, H, E> {
    SendData(D),
    SendTrailers(H),
    /// A failed frame is skipped and forwarding goes on.
    Skip(E),
    /// The body is over: forwarding stops.
    Stop,
}

/// Forwarding a request body over HTTP/3: data frames are sent as DATA,
/// trailers as trailers, a failed frame is skipped, and the end of the body
/// stops the forwarding.
pub fn request_frame_action<D, H, E>(f: Option<Result<BodyFrame<D, H>, E>>) -> (a: ForwardAction<D, H, E>)
    ensures
        match f {
            None => a is Stop,
            Some(Err(e)) => a == ForwardAction::<D, H, E>::Skip(e),
            Some(Ok(BodyFrame::Data(d))) => a == ForwardAction::<D, H, E>::SendData(d),
            Some(Ok(BodyFrame::Trailers(h))) => a == ForwardAction::<D, H, E>::SendTrailers(h),
        },
{
    match f {
        None => ForwardAction::Stop,
        Some(Err(e)) => ForwardAction::Skip(e),
        Some(Ok(BodyFrame::Data(d))) => ForwardAction::SendData(d),
        Some(Ok(BodyFrame::Trailers(h))) => ForwardAction::SendTrailers(h),
    }
}

} // verus!
