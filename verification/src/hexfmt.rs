//! Lowercase hexadecimal rendering of byte strings.

use vstd::prelude::*;

verus! {

/// The lowercase hex digit for a nibble value `n` (`0 <= n < 16`).
pub open spec fn nibble_char(n: int) -> char {
    if n < 10 {
        (48 + n) as char
    } else {
        (87 + n) as char
    }
}

/// Two lowercase hex characters per byte, high nibble first.
pub open spec fn hex_lower(b: Seq<u8>) -> Seq<char>
    decreases b.len(),
{
    if b.len() == 0 {
        Seq::empty()
    } else {
        hex_lower(b.drop_last()) + seq![nibble_char(b.last() as int / 16), nibble_char(b.last() as int % 16)]
    }
}

/// The hex rendering of at most the first four bytes of a root, the short
/// identity used in log lines.
pub open spec fn short_id_spec(root: Seq<u8>) -> Seq<char> {
    if root.len() >= 4 {
        hex_lower(root.subrange(0, 4))
    } else {
        hex_lower(root)
    }
}

pub proof fn lemma_hex_lower_len(b: Seq<u8>)
    ensures
        hex_lower(b).len() == 2 * b.len(),
    decreases b.len(),
{
    if b.len() > 0 {
        lemma_hex_lower_len(b.drop_last());
    }
}

/// `hex::encode`: the crate renders every byte as two lowercase hex digits,
/// high nibble first, in input order.
#[verifier::external_body]
pub(crate) fn hex_encode(bytes: &[u8]) -> (s: String)
    ensures
        s@ == hex_lower(bytes@),
{
    hex::encode(bytes)
}

/// Short hex identity of a root: the first four bytes when there are at
/// least four, else all of them.
pub fn fmt_player_short(player_root: &[u8]) -> (s: String)
    ensures
        s@ == short_id_spec(player_root@),
{
    if player_root.len() >= 4 {
        let prefix = slice_prefix(player_root, 4);
        hex_encode(prefix.as_slice())
    } else {
        hex_encode(player_root)
    }
}

/// The first `n` bytes of a slice, copied.
pub fn slice_prefix(b: &[u8], n: usize) -> (r: Vec<u8>)
    requires
        n <= b@.len(),
    ensures
        r@ == b@.subrange(0, n as int),
{
    let mut r: Vec<u8> = Vec::new();
    let mut i: usize = 0;
    while i < n
        invariant
            i <= n,
            n <= b@.len(),
            r@ == b@.subrange(0, i as int),
        decreases n - i,
    {
        r.push(b[i]);
        i = i + 1;
        proof {
            assert(r@ =~= b@.subrange(0, i as int));
        }
    }
    r
}

} // verus!
