//! The connectors through which the proxy reaches its upstream: one over a
//! Unix domain socket at a fixed path, one over TCP to a fixed address,
//! whatever host a request names.

use vstd::prelude::*;
use crate::uri::{UriParts, uri_from_parts, opt_view, with_authority};

verus! {

/// An IPv4 socket address.
pub struct SocketAddrV4 {
    pub ip: [u8; 4],
    pub port: u16,
}

/// A socket address. An IPv6 address is held as the text that `std`
/// displays for it (`[segments%scope]:port`); `std::net` is formatted by the
/// caller.
pub enum SocketAddr {
    V4(SocketAddrV4),
    V6(String),
}

/// The decimal digit for a number below ten.
pub open spec fn digit_char(d: nat) -> char {
    if d == 0 {
        '0'
    } else if d == 1 {
        '1'
    } else if d == 2 {
        '2'
    } else if d == 3 {
        '3'
    } else if d == 4 {
        '4'
    } else if d == 5 {
        '5'
    } else if d == 6 {
        '6'
    } else if d == 7 {
        '7'
    } else if d == 8 {
        '8'
    } else {
        '9'
    }
}

/// The decimal text of a number, without leading zeros.
pub open spec fn decimal(n: nat) -> Seq<char>
    decreases n,
{
    if n < 10 {
        seq![digit_char(n)]
    } else {
        decimal(n / 10).push(digit_char(n % 10))
    }
}

/// The number that a text of ASCII decimal digits denotes, read most
/// significant digit first.
pub open spec fn decimal_value(s: Seq<char>) -> int
    decreases s.len(),
{
    if s.len() == 0 {
        0
    } else {
        decimal_value(s.drop_last()) * 10 + (s.last() as int - 48)
    }
}

/// Whether a character is an ASCII decimal digit.
pub open spec fn is_ascii_digit(c: char) -> bool {
    48 <= c as int <= 57
}

/// The digit of a number below ten is its ASCII digit: code point 48 plus
/// the number.
pub proof fn lemma_digit_char_is_ascii(d: nat)
    requires
        d < 10,
    ensures
        digit_char(d) as int == 48 + d,
{
}

/// The decimal text of a number is made of ASCII digits, has no leading
/// zero (unless it is `0` itself), and reads back as the number.
pub proof fn lemma_decimal_reads_back(n: nat)
    ensures
        decimal(n).len() > 0,
        forall|i: int| 0 <= i < decimal(n).len() ==> is_ascii_digit(#[trigger] decimal(n)[i]),
        decimal(n)[0] == '0' ==> n == 0,
        decimal_value(decimal(n)) == n,
    decreases n,
{
    if n < 10 {
        lemma_digit_char_is_ascii(n);
        assert(decimal(n).drop_last() =~= Seq::<char>::empty());
        assert(decimal(n).last() == digit_char(n));
        assert(decimal_value(decimal(n).drop_last()) == 0);
    } else {
        lemma_decimal_reads_back(n / 10);
        lemma_digit_char_is_ascii(n % 10);
        let d = decimal(n);
        assert(d.drop_last() =~= decimal(n / 10));
        assert(d.last() == digit_char(n % 10));
        assert(d[0] == decimal(n / 10)[0]);
        assert((n / 10) * 10 + n % 10 == n) by (nonlinear_arith);
        assert(decimal_value(d) == decimal_value(decimal(n / 10)) * 10 + (d.last() as int - 48));
        assert forall|i: int| 0 <= i < d.len() implies is_ascii_digit(#[trigger] d[i]) by {
            if i < d.len() - 1 {
                assert(d[i] == decimal(n / 10)[i]);
            }
        }
    }
}

/// The text of an IPv4 socket address: four decimal octets joined by dots,
/// a colon, and the decimal port.
pub open spec fn v4_text(ip: Seq<u8>, port: u16) -> Seq<char> {
    decimal(ip[0] as nat) + seq!['.'] + decimal(ip[1] as nat) + seq!['.'] + decimal(ip[2] as nat)
        + seq!['.'] + decimal(ip[3] as nat) + seq![':'] + decimal(port as nat)
}

/// The text of an IPv4 socket address reads back as the address: four runs
/// of decimal digits separated by three dots, a colon, and a last run of
/// digits; the runs read as the four octets, in order, and the port.
pub proof fn lemma_v4_text_reads_back(ip: Seq<u8>, port: u16)
    requires
        ip.len() == 4,
    ensures
        ({
            let t = v4_text(ip, port);
            exists|a: int, b: int, c: int, d: int|
                #![trigger t[a], t[b], t[c], t[d]]
                0 < a && a + 1 < b && b + 1 < c && c + 1 < d && d + 1 < t.len()
                    && t[a] == '.' && t[b] == '.' && t[c] == '.' && t[d] == ':'
                    && decimal_value(t.subrange(0, a)) == ip[0]
                    && decimal_value(t.subrange(a + 1, b)) == ip[1]
                    && decimal_value(t.subrange(b + 1, c)) == ip[2]
                    && decimal_value(t.subrange(c + 1, d)) == ip[3]
                    && decimal_value(t.subrange(d + 1, t.len() as int)) == port
        }),
{
    let d0 = decimal(ip[0] as nat);
    let d1 = decimal(ip[1] as nat);
    let d2 = decimal(ip[2] as nat);
    let d3 = decimal(ip[3] as nat);
    let dp = decimal(port as nat);
    lemma_decimal_reads_back(ip[0] as nat);
    lemma_decimal_reads_back(ip[1] as nat);
    lemma_decimal_reads_back(ip[2] as nat);
    lemma_decimal_reads_back(ip[3] as nat);
    lemma_decimal_reads_back(port as nat);
    let t = v4_text(ip, port);
    let a = d0.len() as int;
    let b = a + 1 + d1.len();
    let c = b + 1 + d2.len();
    let d = c + 1 + d3.len();
    assert(t =~= d0 + seq!['.'] + d1 + seq!['.'] + d2 + seq!['.'] + d3 + seq![':'] + dp);
    assert(t.subrange(0, a) =~= d0);
    assert(t.subrange(a + 1, b) =~= d1);
    assert(t.subrange(b + 1, c) =~= d2);
    assert(t.subrange(c + 1, d) =~= d3);
    assert(t.subrange(d + 1, t.len() as int) =~= dp);
    assert(t[a] == '.' && t[b] == '.' && t[c] == '.' && t[d] == ':');
}

/// The text of a socket address, as an authority.
pub open spec fn addr_text(a: SocketAddr) -> Seq<char> {
    match a {
        SocketAddr::V4(v4) => v4_text(v4.ip@, v4.port),
        SocketAddr::V6(text) => text@,
    }
}

/// Appends a character with `String::push`.
#[verifier::external_body]
fn push_char(s: &mut String, c: char)
    ensures
        final(s)@ == old(s)@.push(c),
{
    s.push(c);
}

/// The digit for a number below ten.
fn digit(d: u32) -> (c: char)
    requires
        d < 10,
    ensures
        c == digit_char(d as nat),
{
    if d == 0 {
        '0'
    } else if d == 1 {
        '1'
    } else if d == 2 {
        '2'
    } else if d == 3 {
        '3'
    } else if d == 4 {
        '4'
    } else if d == 5 {
        '5'
    } else if d == 6 {
        '6'
    } else if d == 7 {
        '7'
    } else if d == 8 {
        '8'
    } else {
        '9'
    }
}

/// Appends the decimal text of a number.
fn push_decimal(s: &mut String, n: u32)
    ensures
        final(s)@ == old(s)@ + decimal(n as nat),
    decreases n,
{
    if n >= 10 {
        push_decimal(s, n / 10);
    }
    push_char(s, digit(n % 10));
    proof {
        assert(old(s)@ + decimal(n as nat) =~= final(s)@) by {
            if n >= 10 {
                assert(decimal(n as nat) == decimal((n / 10) as nat).push(digit_char((n % 10) as nat)));
            }
        }
    }
}

/// The text of a socket address, as `std` displays it: `a.b.c.d:port` for
/// IPv4, and the bracketed form for IPv6.
pub fn addr_to_string(a: &SocketAddr) -> (s: String)
    ensures
        s@ == addr_text(*a),
{
    match a {
        SocketAddr::V4(v4) => {
            let mut s = String::new();
            push_decimal(&mut s, v4.ip[0] as u32);
            push_char(&mut s, '.');
            push_decimal(&mut s, v4.ip[1] as u32);
            push_char(&mut s, '.');
            push_decimal(&mut s, v4.ip[2] as u32);
            push_char(&mut s, '.');
            push_decimal(&mut s, v4.ip[3] as u32);
            push_char(&mut s, ':');
            push_decimal(&mut s, v4.port as u32);
            assert(s@ =~= v4_text(v4.ip@, v4.port));
            s
        },
        SocketAddr::V6(text) => text.clone(),
    }
}

/// A connector that reaches the upstream over a Unix domain socket at a
/// fixed path, whatever the request's URI.
pub struct UdsConnector {
    path: String,
}

impl UdsConnector {
    /// A connector to the socket at `path`.
    pub fn new(path: String) -> (c: Self)
        ensures
            c.path_view() == path@,
    {
        UdsConnector { path }
    }

    /// The socket path, as a sequence of characters.
    pub closed spec fn path_view(&self) -> Seq<char> {
        self.path@
    }

    /// The socket path that every connection goes to.
    pub fn path(&self) -> (p: &str)
        ensures
            p@ == self.path_view(),
    {
        self.path.as_str()
    }
}

/// A connector that reaches the upstream over TCP at a fixed address,
/// whatever host a request names.
pub struct TcpConnector {
    addr: SocketAddr,
}

impl TcpConnector {
    /// A connector to `addr`.
    pub fn new(addr: SocketAddr) -> (c: Self)
        ensures
            c.addr_spec() == addr,
    {
        TcpConnector { addr }
    }

    /// The upstream address.
    pub closed spec fn addr_spec(&self) -> SocketAddr {
        self.addr
    }

    /// The upstream address.
    pub fn addr(&self) -> (a: &SocketAddr)
        ensures
            *a == self.addr_spec(),
    {
        &self.addr
    }

    /// The URI that a connection for `req` is made to: `req` with its
    /// authority replaced by the connector's address, assembled by `http`.
    /// `None` where `http` refuses it (such as a URI with a scheme and no
    /// path).
    pub fn target_uri(&self, req: &UriParts) -> (r: Option<String>)
        ensures
            opt_view(r) == uri_from_parts(
                req@.scheme,
                Some(addr_text(self.addr_spec())),
                req@.path_and_query,
            ),
            req.scheme is Some && req.path_and_query is None ==> r is None,
    {
        let authority = addr_to_string(&self.addr);
        let parts = with_authority(req, authority.as_str());
        parts.build()
    }
}

} // verus!
