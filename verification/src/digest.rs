//! Digests of bytes, and how they are written.

use vstd::prelude::*;

use crate::tracker::Digest;

verus! {

/// The SHA-256 digest of some bytes.
pub uninterp spec fn sha256_of(bytes: Seq<u8>) -> Seq<u8>;

/// `sha2::Sha256::digest`: the digest of the bytes. It depends on the bytes alone.
#[verifier::external_body]
fn sha256(bytes: &[u8]) -> (res: Digest)
    ensures
        res@ == sha256_of(bytes@),
{
    <sha2::Sha256 as sha2::Digest>::digest(bytes).into()
}

/// The digest by which content is compared.
pub fn content_digest(bytes: &[u8]) -> (res: Digest)
    ensures
        res@ == sha256_of(bytes@),
{
    sha256(bytes)
}

/// The character of a digit to the base of sixteen.
pub open spec fn hex_char(n: int) -> char {
    if n < 10 {
        (48 + n) as char
    } else {
        (87 + n) as char
    }
}

/// Bytes, each as two digits to the base of sixteen.
pub open spec fn hex(bytes: Seq<u8>) -> Seq<char>
    decreases bytes.len(),
{
    if bytes.len() == 0 {
        Seq::empty()
    } else {
        hex(bytes.drop_last()).push(hex_char(bytes.last() as int / 16)).push(
            hex_char(bytes.last() as int % 16),
        )
    }
}

fn hex_digit(n: u8) -> (res: char)
    requires
        n < 16,
    ensures
        res == hex_char(n as int),
{
    if n < 10 {
        (48 + n) as char
    } else {
        (87 + n) as char
    }
}

/// Writes the first bytes, each as two digits to the base of sixteen.
pub fn hex_text(bytes: &[u8], count: usize) -> (res: String)
    requires
        count <= bytes@.len(),
    ensures
        res@ == hex(bytes@.take(count as int)),
{
    let mut res = String::new();
    let mut i: usize = 0;
    while i < count
        invariant
            i <= count <= bytes@.len(),
            res@ == hex(bytes@.take(i as int)),
        decreases count - i,
    {
        proof {
            assert(bytes@.take(i + 1).drop_last() =~= bytes@.take(i as int));
        }
        let b: u8 = bytes[i];
        res.push(hex_digit(b / 16));
        res.push(hex_digit(b % 16));
        i += 1;
    }
    res
}

/// The text has two digits for each byte.
pub proof fn hex_has_two_digits(bytes: Seq<u8>)
    ensures
        hex(bytes).len() == 2 * bytes.len(),
    decreases bytes.len(),
{
    if bytes.len() > 0 {
        hex_has_two_digits(bytes.drop_last());
    }
}

/// Different digests are written differently.
pub proof fn hex_tells_apart(a: Seq<u8>, b: Seq<u8>)
    requires
        hex(a) == hex(b),
    ensures
        a == b,
    decreases a.len(),
{
    hex_has_two_digits(a);
    hex_has_two_digits(b);
    if a.len() > 0 {
        let n = hex(a).len() as int;
        assert(hex(a)[n - 1] == hex_char(a.last() as int % 16));
        assert(hex(b)[n - 1] == hex_char(b.last() as int % 16));
        assert(hex(a)[n - 2] == hex_char(a.last() as int / 16));
        assert(hex(b)[n - 2] == hex_char(b.last() as int / 16));
        assert(hex(a).take(n - 2) =~= hex(a.drop_last()));
        assert(hex(b).take(n - 2) =~= hex(b.drop_last()));
        hex_tells_apart(a.drop_last(), b.drop_last());
        assert(a =~= a.drop_last().push(a.last()));
        assert(b =~= b.drop_last().push(b.last()));
    } else {
        assert(a =~= b);
    }
}

} // verus!
