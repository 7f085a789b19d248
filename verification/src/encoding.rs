//! Lowercase hexadecimal text (through the `hex` crate) and random
//! identifiers (through the `rand` crate).

use vstd::prelude::*;

verus! {

/// The lowercase hexadecimal digit for a nibble `n` (`0 <= n < 16`).
pub open spec fn hex_digit(n: int) -> char {
    if n < 10 {
        (n + 48) as char
    } else {
        (n + 87) as char
    }
}

/// Lowercase hexadecimal text of `bytes`: two digits per byte, the high
/// nibble first.
pub open spec fn hex_lower(bytes: Seq<u8>) -> Seq<char>
    decreases bytes.len(),
{
    if bytes.len() == 0 {
        Seq::empty()
    } else {
        seq![hex_digit((bytes[0] / 16) as int), hex_digit((bytes[0] % 16) as int)] + hex_lower(bytes.drop_first())
    }
}

/// `c` is one of `0-9a-f`.
pub open spec fn is_hex_digit(c: char) -> bool {
    ('0' <= c <= '9') || ('a' <= c <= 'f')
}

/// Hex text is twice as long as its bytes and made of hex digits only.
pub proof fn lemma_hex_lower_shape(bytes: Seq<u8>)
    ensures
        hex_lower(bytes).len() == 2 * bytes.len(),
        forall|i: int| 0 <= i < hex_lower(bytes).len() ==> is_hex_digit(#[trigger] hex_lower(bytes)[i]),
    decreases bytes.len(),
{
    if bytes.len() > 0 {
        lemma_hex_lower_shape(bytes.drop_first());
        let hi = bytes[0] / 16;
        let lo = bytes[0] % 16;
        assert(0 <= hi < 16 && 0 <= lo < 16);
        let h = hex_lower(bytes);
        let t = hex_lower(bytes.drop_first());
        assert forall|i: int| 0 <= i < h.len() implies is_hex_digit(#[trigger] h[i]) by {
            if i >= 2 {
                assert(h[i] == t[i - 2]);
            }
        }
    }
}

/// The hex text of a prefix of the bytes is the prefix of the hex text.
pub proof fn lemma_hex_lower_take(bytes: Seq<u8>, k: int)
    requires
        0 <= k <= bytes.len(),
    ensures
        hex_lower(bytes.take(k)) == hex_lower(bytes).take(2 * k),
    decreases k,
{
    lemma_hex_lower_shape(bytes);
    lemma_hex_lower_shape(bytes.take(k));
    if k == 0 {
        assert(bytes.take(0) =~= Seq::<u8>::empty());
        assert(hex_lower(bytes).take(0) =~= Seq::<char>::empty());
    } else {
        lemma_hex_lower_take(bytes.drop_first(), k - 1);
        assert(bytes.take(k).drop_first() =~= bytes.drop_first().take(k - 1));
        assert(bytes.take(k)[0] == bytes[0]);
        lemma_hex_lower_shape(bytes.drop_first());
        assert(hex_lower(bytes).take(2 * k) =~= seq![hex_digit((bytes[0] / 16) as int), hex_digit((bytes[0] % 16) as int)]
            + hex_lower(bytes.drop_first()).take(2 * (k - 1)));
    }
}

/// Encodes with `hex::encode`, which writes each byte as two lowercase
/// hexadecimal digits, high nibble first. The contract states exactly that.
#[verifier::external_body]
pub(crate) fn hex_encode(bytes: &[u8]) -> (res: String)
    ensures
        res@ == hex_lower(bytes@),
{
    hex::encode(bytes)
}

/// Draws one byte with `rand::random::<u8>()` from the thread-local
/// generator. Nothing is promised of its value.
#[verifier::external_body]
fn random_byte() -> (b: u8) {
    rand::random::<u8>()
}

/// `n` random bytes, drawn one after the other.
pub fn random_bytes(n: usize) -> (res: Vec<u8>)
    ensures
        res@.len() == n,
{
    let mut res: Vec<u8> = Vec::new();
    let mut i: usize = 0;
    while i < n
        invariant
            i <= n,
            res@.len() == i,
        decreases n - i,
    {
        res.push(random_byte());
        i = i + 1;
    }
    res
}

/// `prefix` followed by the hex text of `nonce`: the shape of every
/// identifier this library makes up (`freq-…`, `zd-grp-…`, `ch-…`, `msg-…`).
pub fn prefixed_hex_id(prefix: &str, nonce: &[u8]) -> (res: String)
    ensures
        res@ == prefix@ + hex_lower(nonce@),
{
    let mut res = prefix.to_owned();
    let h = hex_encode(nonce);
    res.append(h.as_str());
    res
}

} // verus!
