//! The serve loops of the proxy: each takes the next connection (or HTTP/3
//! request) from an incoming stream and serves it in its own task, until
//! the stream ends or shutdown is signalled. Also the settings the proxy
//! hands to its HTTP client and TLS acceptor, and how a failed connection
//! is reported.

use vstd::prelude::*;
use crate::poll::IoErrorKind;

verus! {

/// What a serve loop observed while waiting.
pub enum ServeEvent<T, E> {
    /// The incoming stream's next item, `None` once it ended.
    Incoming(Option<Result<T, E>>),
    /// Shutdown was signalled.
    Shutdown,
}

/// What a serve loop does next.
pub enum ServeAction<T, E> {
    /// Serve this connection in a task of its own and wait again.
    Serve(T),
    /// Skip this failed item and wait again.
    Skip(E),
    /// Stop serving and return this error.
    Fail(E),
    /// Stop serving and return success.
    Stop,
}

/// The loop of the proxy library and of the HTTP/3 server: a failed
/// incoming item is skipped; the end of the incoming stream or a shutdown
/// stops the loop with success.
#[verifier::allow_in_spec]
pub fn serve_step_skipping<T, E>(ev: ServeEvent<T, E>) -> ServeAction<T, E>
    returns
        (match ev {
            ServeEvent::Incoming(Some(Ok(t))) => ServeAction::Serve(t),
            ServeEvent::Incoming(Some(Err(e))) => ServeAction::Skip(e),
            ServeEvent::Incoming(None) => ServeAction::Stop,
            ServeEvent::Shutdown => ServeAction::Stop,
        }),
{
    match ev {
        ServeEvent::Incoming(Some(Ok(t))) => ServeAction::Serve(t),
        ServeEvent::Incoming(Some(Err(e))) => ServeAction::Skip(e),
        ServeEvent::Incoming(None) => ServeAction::Stop,
        ServeEvent::Shutdown => ServeAction::Stop,
    }
}

/// The loop of the Windows proxy server: a failed incoming item stops the
/// loop with that error; the end of the incoming stream or a shutdown stops
/// it with success.
#[verifier::allow_in_spec]
pub fn serve_step_failing<T, E>(ev: ServeEvent<T, E>) -> ServeAction<T, E>
    returns
        (match ev {
            ServeEvent::Incoming(Some(Ok(t))) => ServeAction::Serve(t),
            ServeEvent::Incoming(Some(Err(e))) => ServeAction::Fail(e),
            ServeEvent::Incoming(None) => ServeAction::Stop,
            ServeEvent::Shutdown => ServeAction::Stop,
        }),
{
    match ev {
        ServeEvent::Incoming(Some(Ok(t))) => ServeAction::Serve(t),
        ServeEvent::Incoming(Some(Err(e))) => ServeAction::Fail(e),
        ServeEvent::Incoming(None) => ServeAction::Stop,
        ServeEvent::Shutdown => ServeAction::Stop,
    }
}

/// The two serve loops differ only on a failed incoming item, which one
/// skips and the other returns; and a shutdown stops both.
pub proof fn lemma_serve_policies_agree<T, E>(ev: ServeEvent<T, E>)
    ensures
        !(ev matches ServeEvent::Incoming(Some(Err(_)))) ==> serve_step_skipping(ev)
            == serve_step_failing(ev),
        ev matches ServeEvent::Incoming(Some(Err(e))) ==> serve_step_skipping(ev)
            == ServeAction::<T, E>::Skip(e) && serve_step_failing(ev) == ServeAction::<T, E>::Fail(
            e,
        ),
        ev is Shutdown ==> serve_step_skipping(ev) is Stop && serve_step_failing(ev) is Stop,
{
}

/// Both serve loops serve every connection the incoming stream yields, as
/// it came, and stop with success once the stream ends or shutdown is
/// signalled; a failed item is never served and never stops the first
/// loop, and always stops the second with that error.
pub proof fn lemma_serve_loops_serve_each_connection<T, E>(t: T, e: E)
    ensures
        serve_step_skipping(ServeEvent::<T, E>::Incoming(Some(Ok(t)))) == ServeAction::<T, E>::Serve(t),
        serve_step_failing(ServeEvent::<T, E>::Incoming(Some(Ok(t)))) == ServeAction::<T, E>::Serve(t),
        serve_step_skipping(ServeEvent::<T, E>::Incoming(None)) is Stop,
        serve_step_failing(ServeEvent::<T, E>::Incoming(None)) is Stop,
        serve_step_skipping(ServeEvent::<T, E>::Shutdown) is Stop,
        serve_step_failing(ServeEvent::<T, E>::Shutdown) is Stop,
        serve_step_skipping(ServeEvent::<T, E>::Incoming(Some(Err(e)))) == ServeAction::<T, E>::Skip(e),
        serve_step_failing(ServeEvent::<T, E>::Incoming(Some(Err(e)))) == ServeAction::<T, E>::Fail(e),
{
}

/// What is known of the error with which serving a connection failed.
pub enum ServeErrorSource {
    /// An HTTP error with no underlying cause.
    HyperNoSource,
    /// An HTTP error caused by an I/O error of this kind.
    HyperIo(IoErrorKind),
    /// An HTTP error caused by something other than I/O.
    HyperOther,
    /// Some other error.
    General,
}

/// How a failed connection is reported.
pub enum ConnReport {
    /// Not at all: the client closed the connection.
    Silent,
    /// As an I/O error, then as an HTTP error.
    IoThenHyper,
    /// As an HTTP error.
    Hyper,
    /// As a general error.
    General,
}

/// Decides how a connection that failed to be served is reported. A
/// connection reset by the client is not reported at all.
pub fn connection_report(src: ServeErrorSource) -> (r: ConnReport)
    ensures
        match src {
            ServeErrorSource::HyperIo(k) => if k == IoErrorKind::ConnectionReset {
                r is Silent
            } else {
                r is IoThenHyper
            },
            ServeErrorSource::HyperNoSource => r is Hyper,
            ServeErrorSource::HyperOther => r is Hyper,
            ServeErrorSource::General => r is General,
        },
        r is Silent <==> src == ServeErrorSource::HyperIo(IoErrorKind::ConnectionReset),
{
    match src {
        ServeErrorSource::HyperIo(k) => {
            if k == IoErrorKind::ConnectionReset {
                ConnReport::Silent
            } else {
                ConnReport::IoThenHyper
            }
        },
        ServeErrorSource::HyperNoSource => ConnReport::Hyper,
        ServeErrorSource::HyperOther => ConnReport::Hyper,
        ServeErrorSource::General => ConnReport::General,
    }
}

/// The settings of the HTTP client through which the proxy forwards
/// requests.
pub struct ClientSettings {
    /// How long an idle pooled connection is kept, in seconds.
    pub pool_idle_timeout_secs: u64,
    /// Whether only HTTP/2 is spoken to the upstream.
    pub http2_only: bool,
}

/// The proxy forwards over HTTP/2 only and drops pooled connections after
/// three idle seconds.
pub fn proxy_client_settings() -> (s: ClientSettings)
    ensures
        s.pool_idle_timeout_secs == 3,
        s.http2_only,
{
    ClientSettings { pool_idle_timeout_secs: 3, http2_only: true }
}

/// The ALPN protocols that the proxy's TLS server offers: HTTP/2 alone.
pub fn proxy_alpn_protocols() -> (p: Vec<Vec<u8>>)
    ensures
        p@.len() == 1,
        p@[0]@ == seq![104u8, 50u8],
{
    let mut h2: Vec<u8> = Vec::new();
    h2.push(104u8);
    h2.push(50u8);
    let mut p: Vec<Vec<u8>> = Vec::new();
    p.push(h2);
    p
}

/// How long an HTTP/3 client call keeps its connection driver before
/// closing it, in seconds.
pub fn h3_driver_close_delay_secs() -> (s: u64)
    ensures
        s == 2,
{
    2
}

} // verus!
