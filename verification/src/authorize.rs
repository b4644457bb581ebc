//! Authorization of TLS clients: after a handshake the accept stream asks an
//! authorizor whether to keep the connection; a refusal closes it and hands
//! the authorizor's own error to the caller.
//!
//! The error type is a parameter, so that a caller keeps whatever error its
//! authorizor produces (a boxed `std::error::Error` in a server).

use vstd::prelude::*;

verus! {

#[verifier::external_type_specification]
#[verifier::external_body]
pub struct ExServerConnection(rustls::ServerConnection);

/// Judges a client once its TLS handshake has finished.
pub trait ClientAuthorizor<E>: Send + Sync + 'static {
    /// The verdicts that the authorizor may give on `conn`.
    spec fn admits(&self, conn: &rustls::ServerConnection, verdict: Result<(), E>) -> bool;

    /// `Ok` keeps the connection; an error refuses it.
    fn on_connect(&self, conn: &rustls::ServerConnection) -> (r: Result<(), E>)
        ensures
            self.admits(conn, r),
    ;
}

/// A function that judges a client.
pub trait AuthorizeCallback<E>: Fn(&rustls::ServerConnection) -> Result<(), E> + Send + Sync + 'static {

}

impl<T, E> AuthorizeCallback<E> for T where
    T: Fn(&rustls::ServerConnection) -> Result<(), E> + Send + Sync + 'static,
{

}

/// An authorizor that asks a function.
pub struct LambdaClientAuthorizor<T: AuthorizeCallback<E>, E> {
    f: T,
    verdict: core::marker::PhantomData<E>,
}

impl<T: AuthorizeCallback<E>, E> LambdaClientAuthorizor<T, E> {
    /// The function it asks.
    pub closed spec fn callback(&self) -> T {
        self.f
    }

    /// The function accepts every connection as argument.
    #[verifier::type_invariant]
    closed spec fn callable(&self) -> bool {
        forall|c: &rustls::ServerConnection| #[trigger] self.f.requires((c,))
    }

    /// An authorizor that asks `f`.
    pub fn new(f: T) -> (a: Self)
        requires
            forall|c: &rustls::ServerConnection| #[trigger] f.requires((c,)),
        ensures
            a.callback() == f,
    {
        LambdaClientAuthorizor { f, verdict: core::marker::PhantomData }
    }

    /// The verdict of the function on this connection, returned as it came.
    pub fn judge(&self, conn: &rustls::ServerConnection) -> (r: Result<(), E>)
        ensures
            self.callback().ensures((conn,), r),
    {
        proof {
            use_type_invariant(self);
        }
        (self.f)(conn)
    }
}

impl<T: AuthorizeCallback<E>, E> ClientAuthorizor<E> for LambdaClientAuthorizor<T, E> where E: Send + Sync + 'static {
    /// Whatever the function may return.
    open spec fn admits(&self, conn: &rustls::ServerConnection, verdict: Result<(), E>) -> bool {
        self.callback().ensures((conn,), verdict)
    }

    /// The verdict of the function on this connection, returned as it came.
    fn on_connect(&self, conn: &rustls::ServerConnection) -> (r: Result<(), E>)
        ensures
            self.callback().ensures((conn,), r),
    {
        self.judge(conn)
    }
}

} // verus!
