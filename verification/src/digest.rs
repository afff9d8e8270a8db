//! SHA-256 content hashing (via `sha2`) and lowercase hex rendering.

use sha2::{Digest, Sha256};
use vstd::prelude::*;

verus! {

/// The SHA-256 digest of `data`, as computed by `sha2::Sha256`.
pub uninterp spec fn sha256(data: Seq<u8>) -> Seq<u8>;

/// Calls `<sha2::Sha256 as Digest>::digest` on `data`. Trusted to return the
/// SHA-256 digest named by [`sha256`] for these bytes, which is 32 bytes long
/// (the `sha2` output size for `Sha256`).
#[verifier::external_body]
pub(crate) fn sha256_digest(data: &[u8]) -> (res: Vec<u8>)
    ensures
        res@ == sha256(data@),
        res@.len() == 32,
{
    Sha256::digest(data).to_vec()
}

/// Lowercase hex digit for a nibble `0 <= v < 16`.
pub open spec fn hex_digit(v: nat) -> char {
    if v < 10 {
        crate::text::digit_char(v)
    } else if v == 10 { 'a' } else if v == 11 { 'b' } else if v == 12 { 'c' }
    else if v == 13 { 'd' } else if v == 14 { 'e' } else { 'f' }
}

/// Lowercase hex encoding of a byte string, two digits per byte, high nibble
/// first (the `{:x}` rendering of a digest).
pub open spec fn hex_lower(bytes: Seq<u8>) -> Seq<char>
    decreases bytes.len(),
{
    if bytes.len() == 0 {
        seq![]
    } else {
        hex_lower(bytes.drop_last()) + seq![
            hex_digit((bytes.last() / 16) as nat),
            hex_digit((bytes.last() % 16) as nat),
        ]
    }
}

/// A lowercase hex digit: `0`-`9` or `a`-`f`.
pub open spec fn is_lower_hex_char(c: char) -> bool {
    ('0' <= c && c <= '9') || ('a' <= c && c <= 'f')
}

/// Text made of lowercase hex digits only.
pub open spec fn is_lower_hex(s: Seq<char>) -> bool {
    forall|i: int| 0 <= i < s.len() ==> is_lower_hex_char(#[trigger] s[i])
}

/// The hex encoding has two lowercase hex digits per byte.
pub proof fn lemma_hex_lower_form(bytes: Seq<u8>)
    ensures
        hex_lower(bytes).len() == 2 * bytes.len(),
        is_lower_hex(hex_lower(bytes)),
    decreases bytes.len(),
{
    if bytes.len() > 0 {
        let p = bytes.drop_last();
        lemma_hex_lower_form(p);
        let h = hex_lower(bytes);
        let hp = hex_lower(p);
        assert forall|i: int| 0 <= i < h.len() implies is_lower_hex_char(#[trigger] h[i]) by {
            if i < hp.len() {
                assert(h[i] == hp[i]);
            }
        }
    }
}

/// The lowercase-hex SHA-256 of a byte string.
pub open spec fn sha256_hex(data: Seq<u8>) -> Seq<char> {
    hex_lower(sha256(data))
}

fn hex_digit_exec(v: u8) -> (c: char)
    requires
        v < 16,
    ensures
        c == hex_digit(v as nat),
{
    if v == 0 { '0' } else if v == 1 { '1' } else if v == 2 { '2' } else if v == 3 { '3' }
    else if v == 4 { '4' } else if v == 5 { '5' } else if v == 6 { '6' } else if v == 7 { '7' }
    else if v == 8 { '8' } else if v == 9 { '9' } else if v == 10 { 'a' } else if v == 11 { 'b' }
    else if v == 12 { 'c' } else if v == 13 { 'd' } else if v == 14 { 'e' } else { 'f' }
}

/// Lowercase hex encoding of `bytes`.
pub fn to_hex_lower(bytes: &[u8]) -> (res: String)
    ensures
        res@ == hex_lower(bytes@),
        res@.len() == 2 * bytes@.len(),
{
    let mut res = String::new();
    let n = bytes.len();
    let mut i: usize = 0;
    while i < n
        invariant
            n == bytes@.len(),
            i <= n,
            res@ == hex_lower(bytes@.take(i as int)),
            res@.len() == 2 * i,
        decreases n - i,
    {
        let b = bytes[i];
        res.push(hex_digit_exec(b / 16));
        res.push(hex_digit_exec(b % 16));
        proof {
            let t = bytes@.take(i + 1);
            assert(t.drop_last() =~= bytes@.take(i as int));
            assert(t.last() == b);
            assert(res@ =~= hex_lower(t));
        }
        i = i + 1;
    }
    assert(bytes@.take(n as int) =~= bytes@);
    res
}

/// SHA-256 of raw bytes, returned as lowercase hex (64 characters).
pub fn sha256_bytes(data: &[u8]) -> (res: String)
    ensures
        res@ == sha256_hex(data@),
        res@.len() == 64,
        is_lower_hex(res@),
{
    let d = sha256_digest(data);
    proof {
        lemma_hex_lower_form(d@);
    }
    to_hex_lower(d.as_slice())
}

/// SHA-256 of the UTF-8 encoding of `s`, as lowercase hex.
pub fn sha256_str(s: &str) -> (res: String)
    ensures
        res@ == sha256_hex(vstd::utf8::encode_utf8(s@)),
{
    sha256_bytes(s.as_bytes())
}

} // verus!
