//! The test certificate is found by its SHA-1 thumbprint: the thumbprint is
//! read as text from a PowerShell query, stripped of its line ending and
//! decoded from hex into the twenty bytes of the hash.

use vstd::prelude::*;
use vstd::string::*;
use vstd::utf8::{valid_utf8, decode_utf8};

verus! {

/// The bytes of a SHA-1 certificate hash.
pub type CertHash = [u8; 20];

/// Whether a character is a hex digit, in either case.
pub open spec fn is_hex_digit(c: char) -> bool {
    (48 <= c as u32 <= 57) || (97 <= c as u32 <= 102) || (65 <= c as u32 <= 70)
}

/// The value of a hex digit.
pub open spec fn hex_value(c: char) -> nat {
    if 48 <= c as u32 <= 57 {
        (c as u32 - 48) as nat
    } else if 97 <= c as u32 <= 102 {
        (c as u32 - 97 + 10) as nat
    } else {
        (c as u32 - 65 + 10) as nat
    }
}

/// Whether a text is the hex encoding of exactly `n` bytes.
pub open spec fn is_hex_of_len(s: Seq<char>, n: nat) -> bool {
    s.len() == 2 * n && forall|i: int| 0 <= i < s.len() ==> is_hex_digit(#[trigger] s[i])
}

/// The `i`-th byte that a hex text encodes.
pub open spec fn hex_byte(s: Seq<char>, i: int) -> nat {
    hex_value(s[2 * i]) * 16 + hex_value(s[2 * i + 1])
}

/// The value of a hex digit is below sixteen; `0`-`9` are worth their
/// digit, and `a`-`f` and `A`-`F` both ten to fifteen, in order.
pub proof fn lemma_hex_value(c: char, k: nat)
    ensures
        is_hex_digit(c) ==> hex_value(c) < 16,
        k < 10 ==> hex_value((48 + k) as char) == k,
        k < 6 ==> hex_value((97 + k) as char) == 10 + k,
        k < 6 ==> hex_value((65 + k) as char) == 10 + k,
{
}

/// Decodes a hash from hex with `hex::decode_to_slice`, which accepts
/// exactly twice as many hex digits (of either case) as the slice has bytes
/// and writes the byte of each pair of digits.
#[verifier::external_body]
fn decode_hash_hex(s: &str) -> (r: Option<CertHash>)
    ensures
        r is Some <==> is_hex_of_len(s@, 20),
        r matches Some(h) ==> forall|i: int| 0 <= i < 20 ==> h@[i] == hex_byte(s@, i),
{
    let mut out: CertHash = [0u8; 20];
    hex::decode_to_slice(s.as_bytes(), &mut out).ok().map(|_| out)
}

/// The hash that a hex thumbprint encodes, or `None` when the text is not
/// forty hex digits.
pub fn hash_from_hex(hash: &str) -> (r: Option<CertHash>)
    ensures
        r is Some <==> is_hex_of_len(hash@, 20),
        r matches Some(h) ==> forall|i: int| 0 <= i < 20 ==> h@[i] == hex_byte(hash@, i),
{
    decode_hash_hex(hash)
}

/// The text with one trailing line ending removed: a final `\n`, and then a
/// `\r` before it.
pub open spec fn spec_trim_line_ending(s: Seq<char>) -> Seq<char> {
    if s.len() > 0 && s.last() == '\n' {
        let t = s.drop_last();
        if t.len() > 0 && t.last() == '\r' {
            t.drop_last()
        } else {
            t
        }
    } else {
        s
    }
}

/// Removes one trailing line ending (`\n` or `\r\n`) from a line of output.
pub fn trim_line_ending(s: String) -> (r: String)
    ensures
        r@ == spec_trim_line_ending(s@),
{
    let n = s.as_str().unicode_len();
    if n > 0 && s.as_str().get_char(n - 1) == '\n' {
        let m = n - 1;
        if m > 0 && s.as_str().get_char(m - 1) == '\r' {
            let t = s.as_str().substring_char(0, m - 1);
            assert(t@ =~= spec_trim_line_ending(s@));
            t.to_string()
        } else {
            let t = s.as_str().substring_char(0, m);
            assert(t@ =~= spec_trim_line_ending(s@));
            t.to_string()
        }
    } else {
        s
    }
}

/// Trimming keeps a prefix of the text and removes at most two characters,
/// all of them line-ending characters; a text that does not end in `\n` is
/// kept whole.
pub proof fn lemma_trim_keeps_prefix(s: Seq<char>)
    ensures
        spec_trim_line_ending(s) =~= s.take(spec_trim_line_ending(s).len() as int),
        s.len() <= spec_trim_line_ending(s).len() + 2,
        spec_trim_line_ending(s).len() <= s.len(),
        forall|i: int|
            spec_trim_line_ending(s).len() <= i < s.len() ==> (#[trigger] s[i] == '\n' || s[i] == '\r'),
        !(s.len() > 0 && s.last() == '\n') ==> spec_trim_line_ending(s) == s,
{
}

/// Reads bytes as UTF-8 with `String::from_utf8`, which accepts exactly the
/// valid UTF-8 byte strings.
#[verifier::external_body]
fn string_from_utf8(bytes: Vec<u8>) -> (r: Option<String>)
    ensures
        r is Some <==> valid_utf8(bytes@),
        r matches Some(s) ==> s@ == decode_utf8(bytes@),
{
    String::from_utf8(bytes).ok()
}

/// The thumbprint printed by the certificate query: its output, which must
/// be UTF-8, without its line ending.
pub fn get_test_cert_hash(stdout: Vec<u8>) -> (r: String)
    requires
        valid_utf8(stdout@),
    ensures
        r@ == spec_trim_line_ending(decode_utf8(stdout@)),
{
    trim_line_ending(string_from_utf8(stdout).unwrap())
}

/// The hash that a thumbprint encodes. The thumbprint must be forty hex
/// digits.
pub fn string_to_hash_bytes(hash: String) -> (h: CertHash)
    requires
        is_hex_of_len(hash@, 20),
    ensures
        forall|i: int| 0 <= i < 20 ==> h@[i] == hex_byte(hash@, i),
{
    hash_from_hex(hash.as_str()).unwrap()
}

/// The hash that a thumbprint encodes (as `string_to_hash_bytes`). The
/// thumbprint must be forty hex digits.
pub fn get_cert_hash_bytes(hash: String) -> (h: CertHash)
    requires
        is_hex_of_len(hash@, 20),
    ensures
        forall|i: int| 0 <= i < 20 ==> h@[i] == hex_byte(hash@, i),
{
    string_to_hash_bytes(hash)
}

} // verus!
