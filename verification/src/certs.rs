//! The certificate resolvers of the TLS server and client: each holds one
//! certified key, chosen once among the certificates of a store, and hands
//! out that same key on every handshake.

use vstd::prelude::*;

verus! {

/// A certificate chain (DER encoded, leaf first) with the signing key of its
/// leaf.
pub struct CertifiedKey<K> {
    pub cert: Vec<Vec<u8>>,
    pub key: K,
}

/// Why no resolver could be made from a set of certificates.
#[derive(Clone, Copy, Debug, PartialEq, Eq, Structural)]
pub enum CertError {
    /// No certificate has a private key that can sign.
    NoSigningKey,
    /// The chain of the chosen certificate could not be read.
    NoChain,
}

/// Finds the first certificate whose private key can be acquired as a
/// signing key. `acquire` is tried on the certificates in order and not
/// after the first success; its result is the index of that certificate
/// with the key, or `None` when every attempt failed.
pub fn find_signing_key<C, K, F: Fn(&C) -> Option<K>>(certs: &Vec<C>, acquire: F) -> (r: Option<(usize, K)>)
    requires
        forall|i: int| 0 <= i < certs@.len() ==> acquire.requires((&certs@[i],)),
    ensures
        match r {
            Some((i, k)) => i < certs@.len() && acquire.ensures((&certs@[i as int],), Some(k))
                && forall|j: int| 0 <= j < i ==> #[trigger] acquire.ensures((&certs@[j],), None::<K>),
            None => forall|j: int| 0 <= j < certs@.len() ==> #[trigger] acquire.ensures((&certs@[j],), None::<K>),
        },
{
    let mut i: usize = 0;
    while i < certs.len()
        invariant
            i <= certs@.len(),
            forall|j: int| 0 <= j < certs@.len() ==> acquire.requires((&certs@[j],)),
            forall|j: int| 0 <= j < i ==> #[trigger] acquire.ensures((&certs@[j],), None::<K>),
        decreases certs@.len() - i,
    {
        let attempt = acquire(&certs[i]);
        match attempt {
            Some(k) => {
                return Some((i, k));
            },
            None => {},
        }
        i = i + 1;
    }
    None
}

/// Builds the certified key of the first certificate whose private key can
/// sign (see `find_signing_key`), with the chain that `chain_of` reads for
/// that certificate.
pub fn create_key<C, K, F: Fn(&C) -> Option<K>, G: Fn(&C) -> Option<Vec<Vec<u8>>>>(
    certs: &Vec<C>,
    acquire: F,
    chain_of: G,
) -> (r: Result<CertifiedKey<K>, CertError>)
    requires
        forall|i: int| 0 <= i < certs@.len() ==> acquire.requires((&certs@[i],)),
        forall|i: int| 0 <= i < certs@.len() ==> chain_of.requires((&certs@[i],)),
    ensures
        match r {
            Ok(ck) => exists|i: int|
                0 <= i < certs@.len() && acquire.ensures((&certs@[i],), Some(ck.key))
                    && chain_of.ensures((&certs@[i],), Some(ck.cert))
                    && forall|j: int| 0 <= j < i ==> #[trigger] acquire.ensures((&certs@[j],), None::<K>),
            Err(CertError::NoSigningKey) => forall|j: int|
                0 <= j < certs@.len() ==> #[trigger] acquire.ensures((&certs@[j],), None::<K>),
            Err(CertError::NoChain) => exists|i: int|
                0 <= i < certs@.len() && chain_of.ensures((&certs@[i],), None::<Vec<Vec<u8>>>)
                    && (exists|k: K| acquire.ensures((&certs@[i],), Some(k)))
                    && forall|j: int| 0 <= j < i ==> #[trigger] acquire.ensures((&certs@[j],), None::<K>),
        },
{
    match find_signing_key(certs, acquire) {
        Some((i, key)) => {
            let chain = chain_of(&certs[i]);
            match chain {
                Some(cert) => {
                    proof {
                        assert(acquire.ensures((&certs@[i as int],), Some(key)));
                    }
                    Ok(CertifiedKey { cert, key })
                },
                None => Err(CertError::NoChain),
            }
        },
        None => Err(CertError::NoSigningKey),
    }
}

/// Copies a certificate chain.
fn clone_chain(c: &Vec<Vec<u8>>) -> (r: Vec<Vec<u8>>)
    ensures
        r.deep_view() == c.deep_view(),
{
    let mut r: Vec<Vec<u8>> = Vec::new();
    let mut i: usize = 0;
    while i < c.len()
        invariant
            i <= c@.len(),
            r@.len() == i,
            forall|j: int| 0 <= j < i ==> (#[trigger] r@[j])@ == c@[j]@,
        decreases c@.len() - i,
    {
        r.push(vstd::slice::slice_to_vec(c[i].as_slice()));
        i = i + 1;
    }
    assert(r.deep_view() =~= c.deep_view());
    r
}

/// The server side resolver: it always presents the same certified key,
/// whatever the client's hello says.
pub struct ServerCertResolver<K> {
    key: CertifiedKey<K>,
}

impl<K> ServerCertResolver<K> {
    /// The certified key that it presents.
    pub closed spec fn key_spec(&self) -> CertifiedKey<K> {
        self.key
    }

    /// A resolver for the first certificate whose private key can sign (see
    /// `create_key`). The certificates must not be empty.
    pub fn try_from_certs<C, F: Fn(&C) -> Option<K>, G: Fn(&C) -> Option<Vec<Vec<u8>>>>(
        certs: &Vec<C>,
        acquire: F,
        chain_of: G,
    ) -> (r: Result<Self, CertError>)
        requires
            certs@.len() > 0,
            forall|i: int| 0 <= i < certs@.len() ==> acquire.requires((&certs@[i],)),
            forall|i: int| 0 <= i < certs@.len() ==> chain_of.requires((&certs@[i],)),
        ensures
            match r {
                Ok(res) => exists|i: int|
                    0 <= i < certs@.len() && acquire.ensures((&certs@[i],), Some(res.key_spec().key))
                        && chain_of.ensures((&certs@[i],), Some(res.key_spec().cert))
                        && forall|j: int| 0 <= j < i ==> #[trigger] acquire.ensures((&certs@[j],), None::<K>),
                Err(CertError::NoSigningKey) => forall|j: int|
                    0 <= j < certs@.len() ==> #[trigger] acquire.ensures((&certs@[j],), None::<K>),
                Err(CertError::NoChain) => exists|i: int|
                    0 <= i < certs@.len() && chain_of.ensures((&certs@[i],), None::<Vec<Vec<u8>>>)
                        && (exists|k: K| acquire.ensures((&certs@[i],), Some(k)))
                        && forall|j: int| 0 <= j < i ==> #[trigger] acquire.ensures((&certs@[j],), None::<K>),
            },
    {
        match create_key(certs, acquire, chain_of) {
            Ok(key) => Ok(Self::create_default(key)),
            Err(e) => Err(e),
        }
    }

    /// A resolver that presents `key`.
    pub fn create_default(key: CertifiedKey<K>) -> (r: Self)
        ensures
            r.key_spec() == key,
    {
        ServerCertResolver { key }
    }

    /// The certificate chain that it presents.
    pub fn get_certs(&self) -> (c: Vec<Vec<u8>>)
        ensures
            c.deep_view() == self.key_spec().cert.deep_view(),
    {
        clone_chain(&self.key.cert)
    }

    /// The certified key that it presents.
    pub fn into_key(self) -> (k: CertifiedKey<K>)
        ensures
            k == self.key_spec(),
    {
        self.key
    }

    /// The key to present for a client hello naming `_server_name`: always
    /// the same one.
    pub fn resolve(&self, _server_name: Option<&str>) -> (k: &CertifiedKey<K>)
        ensures
            *k == self.key_spec(),
    {
        &self.key
    }
}

/// The client side resolver: it always presents the same certified key,
/// whatever the server asks for.
pub struct ClientCertResolver<K> {
    key: CertifiedKey<K>,
}

impl<K> ClientCertResolver<K> {
    /// The certified key that it presents.
    pub closed spec fn key_spec(&self) -> CertifiedKey<K> {
        self.key
    }

    /// A resolver for the first certificate whose private key can sign (see
    /// `create_key`).
    pub fn try_from_certs<C, F: Fn(&C) -> Option<K>, G: Fn(&C) -> Option<Vec<Vec<u8>>>>(
        certs: &Vec<C>,
        acquire: F,
        chain_of: G,
    ) -> (r: Result<Self, CertError>)
        requires
            forall|i: int| 0 <= i < certs@.len() ==> acquire.requires((&certs@[i],)),
            forall|i: int| 0 <= i < certs@.len() ==> chain_of.requires((&certs@[i],)),
        ensures
            match r {
                Ok(res) => exists|i: int|
                    0 <= i < certs@.len() && acquire.ensures((&certs@[i],), Some(res.key_spec().key))
                        && chain_of.ensures((&certs@[i],), Some(res.key_spec().cert))
                        && forall|j: int| 0 <= j < i ==> #[trigger] acquire.ensures((&certs@[j],), None::<K>),
                Err(CertError::NoSigningKey) => forall|j: int|
                    0 <= j < certs@.len() ==> #[trigger] acquire.ensures((&certs@[j],), None::<K>),
                Err(CertError::NoChain) => exists|i: int|
                    0 <= i < certs@.len() && chain_of.ensures((&certs@[i],), None::<Vec<Vec<u8>>>)
                        && (exists|k: K| acquire.ensures((&certs@[i],), Some(k)))
                        && forall|j: int| 0 <= j < i ==> #[trigger] acquire.ensures((&certs@[j],), None::<K>),
            },
    {
        match create_key(certs, acquire, chain_of) {
            Ok(key) => Ok(ClientCertResolver { key }),
            Err(e) => Err(e),
        }
    }

    /// The certified key that it presents.
    pub fn into_key(self) -> (k: CertifiedKey<K>)
        ensures
            k == self.key_spec(),
    {
        self.key
    }

    /// The key to present, whatever the server's hints: always the same one.
    pub fn resolve(&self) -> (k: &CertifiedKey<K>)
        ensures
            *k == self.key_spec(),
    {
        &self.key
    }

    /// It always has a certificate to present.
    pub fn has_certs(&self) -> (b: bool)
        ensures
            b,
    {
        true
    }
}

} // verus!
