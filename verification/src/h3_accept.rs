//! The two streams that feed the HTTP/3 server: one turns incoming QUIC
//! connections into HTTP/3 connections, the other turns HTTP/3 connections
//! into requests. Each keeps a set of background tasks and waits on that set
//! only while it holds a task, so a wait on it always finds one.

use vstd::prelude::*;

verus! {

/// Whether a wait looks at the listener alone or races it with the tasks.
pub enum SelectPlan {
    /// No task is in flight: wait for the listener alone.
    ListenOnly,
    /// Tasks are in flight: wait for whichever of listener and tasks is first.
    Race,
}

/// What a wait of the connection stream observed: the endpoint's next
/// incoming connection (`None` once it shuts down), or a finished task (its
/// join failure converted to the task's error type).
pub enum ConnEvent<I, C, E> {
    Accepted(Option<I>),
    Joined(Result<Result<C, E>, E>),
}

/// The outcome of one wait of the connection stream.
pub enum SelectOutputConn<I, C, E> {
    NewIncoming(I),
    NewConn(C),
    ConnErr(E),
    Done,
}

/// What the connection stream does next.
pub enum ConnAction<I, C> {
    /// Run the HTTP/3 handshake of this incoming connection as a task.
    Spawn(I),
    /// Hand out this HTTP/3 connection.
    Yield(C),
    /// Nothing to hand out: wait again.
    Continue,
    /// The endpoint shut down: end the stream.
    Stop,
}

/// Classifies what a wait of the connection stream observed.
pub fn select_conn<I, C, E>(ev: ConnEvent<I, C, E>) -> (out: SelectOutputConn<I, C, E>)
    ensures
        match ev {
            ConnEvent::Accepted(Some(i)) => out == SelectOutputConn::<I, C, E>::NewIncoming(i),
            ConnEvent::Accepted(None) => out is Done,
            ConnEvent::Joined(Ok(Ok(c))) => out == SelectOutputConn::<I, C, E>::NewConn(c),
            ConnEvent::Joined(Ok(Err(e))) => out == SelectOutputConn::<I, C, E>::ConnErr(e),
            ConnEvent::Joined(Err(e)) => out == SelectOutputConn::<I, C, E>::ConnErr(e),
        },
{
    match ev {
        ConnEvent::Accepted(Some(i)) => SelectOutputConn::NewIncoming(i),
        ConnEvent::Accepted(None) => SelectOutputConn::Done,
        ConnEvent::Joined(Ok(Ok(c))) => SelectOutputConn::NewConn(c),
        ConnEvent::Joined(Ok(Err(e))) => SelectOutputConn::ConnErr(e),
        ConnEvent::Joined(Err(e)) => SelectOutputConn::ConnErr(e),
    }
}

/// The state of the connection stream: how many handshake tasks are in
/// flight.
pub struct ConnAcceptor {
    tasks: usize,
}

impl ConnAcceptor {
    /// The number of tasks in flight.
    pub closed spec fn in_flight(&self) -> nat {
        self.tasks as nat
    }

    /// A stream with no task in flight.
    pub fn new() -> (a: Self)
        ensures
            a.in_flight() == 0,
    {
        ConnAcceptor { tasks: 0 }
    }

    /// How the next wait looks: at the listener alone while no task is in
    /// flight, otherwise at both.
    pub fn plan(&self) -> (p: SelectPlan)
        ensures
            p is ListenOnly <==> self.in_flight() == 0,
    {
        if self.tasks == 0 {
            SelectPlan::ListenOnly
        } else {
            SelectPlan::Race
        }
    }

    /// Handles what a wait observed: an incoming connection becomes a new
    /// task, a finished task hands out its connection or is dropped on
    /// error, and the endpoint's shutdown ends the stream. A task can only
    /// finish while one is in flight.
    pub fn on_event<I, C, E>(&mut self, ev: ConnEvent<I, C, E>) -> (a: ConnAction<I, C>)
        requires
            ev is Joined ==> old(self).in_flight() > 0,
            old(self).in_flight() < usize::MAX,
        ensures
            match ev {
                ConnEvent::Accepted(Some(i)) => a == ConnAction::<I, C>::Spawn(i)
                    && final(self).in_flight() == old(self).in_flight() + 1,
                ConnEvent::Accepted(None) => a is Stop
                    && final(self).in_flight() == old(self).in_flight(),
                ConnEvent::Joined(Ok(Ok(c))) => a == ConnAction::<I, C>::Yield(c)
                    && final(self).in_flight() + 1 == old(self).in_flight(),
                ConnEvent::Joined(Ok(Err(_))) => a is Continue
                    && final(self).in_flight() + 1 == old(self).in_flight(),
                ConnEvent::Joined(Err(_)) => a is Continue
                    && final(self).in_flight() + 1 == old(self).in_flight(),
            },
    {
        match select_conn(ev) {
            SelectOutputConn::NewIncoming(i) => {
                self.tasks = self.tasks + 1;
                ConnAction::Spawn(i)
            },
            SelectOutputConn::NewConn(c) => {
                self.tasks = self.tasks - 1;
                ConnAction::Yield(c)
            },
            SelectOutputConn::ConnErr(_) => {
                self.tasks = self.tasks - 1;
                ConnAction::Continue
            },
            SelectOutputConn::Done => ConnAction::Stop,
        }
    }
}

/// What a wait of the request stream observed: the next HTTP/3 connection
/// (`None` once the connection stream ends), or a finished accept task: the
/// next request of a connection together with that connection, `None` when
/// the connection has no more requests (its join failure converted to the
/// task's error type).
pub enum ReqEvent<C, R, E> {
    Incoming(Option<Result<C, E>>),
    Joined(Result<Result<Option<(R, C)>, E>, E>),
}

/// The outcome of one wait of the request stream.
pub enum SelectOutputReq<C, R, E> {
    NewConn(C),
    ConnErr(E),
    NewReq(Option<(R, C)>),
    ReqErr(E),
    Done,
}

/// What the request stream does next.
pub enum ReqAction<C, R> {
    /// Accept the first request of this connection in a task.
    SpawnAccept(C),
    /// Hand out this request, and accept the next request of its
    /// connection in a task.
    YieldAndSpawn(R, C),
    /// Nothing to hand out: wait again.
    Continue,
    /// The connection stream ended: end the stream.
    Stop,
}

/// Classifies what a wait of the request stream observed.
pub fn select_req<C, R, E>(ev: ReqEvent<C, R, E>) -> (out: SelectOutputReq<C, R, E>)
    ensures
        match ev {
            ReqEvent::Incoming(Some(Ok(c))) => out == SelectOutputReq::<C, R, E>::NewConn(c),
            ReqEvent::Incoming(Some(Err(e))) => out == SelectOutputReq::<C, R, E>::ConnErr(e),
            ReqEvent::Incoming(None) => out is Done,
            ReqEvent::Joined(Ok(Ok(r))) => out == SelectOutputReq::<C, R, E>::NewReq(r),
            ReqEvent::Joined(Ok(Err(e))) => out == SelectOutputReq::<C, R, E>::ReqErr(e),
            ReqEvent::Joined(Err(e)) => out == SelectOutputReq::<C, R, E>::ReqErr(e),
        },
{
    match ev {
        ReqEvent::Incoming(Some(Ok(c))) => SelectOutputReq::NewConn(c),
        ReqEvent::Incoming(Some(Err(e))) => SelectOutputReq::ConnErr(e),
        ReqEvent::Incoming(None) => SelectOutputReq::Done,
        ReqEvent::Joined(Ok(Ok(r))) => SelectOutputReq::NewReq(r),
        ReqEvent::Joined(Ok(Err(e))) => SelectOutputReq::ReqErr(e),
        ReqEvent::Joined(Err(e)) => SelectOutputReq::ReqErr(e),
    }
}

/// The state of the request stream: how many accept tasks are in flight.
pub struct ReqAcceptor {
    tasks: usize,
}

impl ReqAcceptor {
    /// The number of tasks in flight.
    pub closed spec fn in_flight(&self) -> nat {
        self.tasks as nat
    }

    /// A stream with no task in flight.
    pub fn new() -> (a: Self)
        ensures
            a.in_flight() == 0,
    {
        ReqAcceptor { tasks: 0 }
    }

    /// How the next wait looks: at the connection stream alone while no task
    /// is in flight, otherwise at both.
    pub fn plan(&self) -> (p: SelectPlan)
        ensures
            p is ListenOnly <==> self.in_flight() == 0,
    {
        if self.tasks == 0 {
            SelectPlan::ListenOnly
        } else {
            SelectPlan::Race
        }
    }

    /// Handles what a wait observed: a new connection gets an accept task; a
    /// request is handed out and its connection gets the next accept task; a
    /// connection with no more requests is dropped; errors are skipped; the
    /// end of the connection stream ends the request stream.
    pub fn on_event<C, R, E>(&mut self, ev: ReqEvent<C, R, E>) -> (a: ReqAction<C, R>)
        requires
            ev is Joined ==> old(self).in_flight() > 0,
            old(self).in_flight() < usize::MAX,
        ensures
            match ev {
                ReqEvent::Incoming(Some(Ok(c))) => a == ReqAction::<C, R>::SpawnAccept(c)
                    && final(self).in_flight() == old(self).in_flight() + 1,
                ReqEvent::Incoming(Some(Err(_))) => a is Continue
                    && final(self).in_flight() == old(self).in_flight(),
                ReqEvent::Incoming(None) => a is Stop
                    && final(self).in_flight() == old(self).in_flight(),
                ReqEvent::Joined(Ok(Ok(Some((r, c))))) => a == ReqAction::<C, R>::YieldAndSpawn(r, c)
                    && final(self).in_flight() == old(self).in_flight(),
                ReqEvent::Joined(Ok(Ok(None))) => a is Continue
                    && final(self).in_flight() + 1 == old(self).in_flight(),
                ReqEvent::Joined(Ok(Err(_))) => a is Continue
                    && final(self).in_flight() + 1 == old(self).in_flight(),
                ReqEvent::Joined(Err(_)) => a is Continue
                    && final(self).in_flight() + 1 == old(self).in_flight(),
            },
    {
        match select_req(ev) {
            SelectOutputReq::NewConn(c) => {
                self.tasks = self.tasks + 1;
                ReqAction::SpawnAccept(c)
            },
            SelectOutputReq::ConnErr(_) => ReqAction::Continue,
            SelectOutputReq::NewReq(Some((r, c))) => ReqAction::YieldAndSpawn(r, c),
            SelectOutputReq::NewReq(None) => {
                self.tasks = self.tasks - 1;
                ReqAction::Continue
            },
            SelectOutputReq::ReqErr(_) => {
                self.tasks = self.tasks - 1;
                ReqAction::Continue
            },
            SelectOutputReq::Done => ReqAction::Stop,
        }
    }
}

} // verus!
