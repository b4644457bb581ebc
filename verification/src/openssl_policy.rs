//! How the OpenSSL acceptor of the tests is configured, and how it judges a
//! client's certificate chain when verification is on.

use vstd::prelude::*;

verus! {

/// How the acceptor verifies clients.
#[derive(Clone, Copy, Debug, PartialEq, Eq, Structural)]
pub enum PeerVerification {
    /// Clients are not verified.
    Skip,
    /// A client must present a certificate, and the verification callback
    /// decides on its chain.
    RequireCertificate,
}

/// The settings of the acceptor.
pub struct AcceptorSettings {
    /// Whether TLS 1.2 is the oldest protocol version accepted.
    pub min_tls12: bool,
    /// The protocol that the acceptor selects by ALPN, whatever the client
    /// offers.
    pub alpn: Vec<u8>,
    pub verification: PeerVerification,
    /// Whether the acceptor trusts the certificate it presents (the test
    /// certificate) as the authority of its clients' certificates.
    pub trusts_own_certificate: bool,
}

/// The protocol the acceptor selects by ALPN: HTTP/2, which .NET clients
/// require, whatever the client offers.
pub fn select_alpn(_client_protocols: &[u8]) -> (p: Vec<u8>)
    ensures
        p@ == seq![104u8, 50u8],
{
    let mut p: Vec<u8> = Vec::new();
    p.push(104u8);
    p.push(50u8);
    p
}

/// The settings of the test acceptor: TLS 1.2 or later, HTTP/2 by ALPN, the
/// test certificate trusted as the clients' authority, and clients verified
/// unless `skip_verify`.
pub fn test_acceptor_settings(skip_verify: bool) -> (s: AcceptorSettings)
    ensures
        s.min_tls12,
        s.alpn@ == seq![104u8, 50u8],
        s.trusts_own_certificate,
        s.verification == (if skip_verify {
            PeerVerification::Skip
        } else {
            PeerVerification::RequireCertificate
        }),
{
    let alpn = select_alpn(&[]);
    let verification = if skip_verify {
        PeerVerification::Skip
    } else {
        PeerVerification::RequireCertificate
    };
    AcceptorSettings { min_tls12: true, alpn, verification, trusts_own_certificate: true }
}

/// How the test connector verifies the server: it does not (the test
/// certificate is self-signed and only loaded as the connector's own).
pub fn test_connector_verification() -> (v: PeerVerification)
    ensures
        v == PeerVerification::Skip,
{
    PeerVerification::Skip
}

/// Whether the verification callback accepts a client: the chain must have
/// passed OpenSSL's own checks, and its last certificate must have a
/// subject name with at least one entry.
pub open spec fn spec_verify_peer(preverify_ok: bool, chain: Option<Seq<usize>>) -> bool {
    preverify_ok && match chain {
        Some(c) => c.len() > 0 && c.last() > 0,
        None => false,
    }
}

/// A client whose chain passed OpenSSL's checks and ends in a certificate
/// with a named subject is accepted, whatever the length of the chain (one
/// self-signed certificate included); and only the last certificate
/// counts: certificates before it change nothing.
pub proof fn lemma_verify_peer_reads_last_certificate(c: Seq<usize>, k: usize)
    ensures
        spec_verify_peer(true, Some(seq![k])) == (k > 0),
        c.len() > 0 ==> spec_verify_peer(true, Some(c)) == (c[c.len() - 1] > 0),
        c.len() > 0 ==> spec_verify_peer(true, Some(seq![k] + c)) == spec_verify_peer(true, Some(c)),
{
    if c.len() > 0 {
        assert((seq![k] + c).last() == c.last());
    }
}

/// A client is refused when OpenSSL's own checks failed, when there is no
/// chain, or when the chain is empty.
pub proof fn lemma_verify_peer_refusals(ok: bool, chain: Option<Seq<usize>>)
    ensures
        !ok ==> !spec_verify_peer(ok, chain),
        chain is None ==> !spec_verify_peer(ok, chain),
        chain == Some(Seq::<usize>::empty()) ==> !spec_verify_peer(ok, chain),
{
}

/// The verification callback. `chain` holds, for each certificate of the
/// client's chain, the number of entries of its subject name (`None` when
/// OpenSSL has no chain).
pub fn verify_peer(preverify_ok: bool, chain: Option<&[usize]>) -> (ok: bool)
    ensures
        ok == spec_verify_peer(
            preverify_ok,
            match chain {
                Some(c) => Some(c@),
                None => None,
            },
        ),
{
    if !preverify_ok {
        return false;
    }
    match chain {
        None => false,
        Some(c) => {
            let n = c.len();
            if n == 0 {
                false
            } else {
                c[n - 1] > 0
            }
        },
    }
}

/// The server name that the test clients send and check: `localhost`.
pub fn test_server_name() -> (n: &'static str)
    ensures
        n@ == "localhost"@,
{
    "localhost"
}

/// What the server's connections report to tonic about themselves: nothing.
#[derive(Clone, Copy, Debug)]
pub struct TonicConnInfo {}

} // verus!
