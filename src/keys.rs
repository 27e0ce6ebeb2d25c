//! Content-derived keys: the first eight bytes of a URL's SHA-256 digest,
//! read as a big-endian integer and written in base 62.
use sha2::Digest;
use vstd::prelude::*;

verus! {

/// The SHA-256 digest of the UTF-8 encoding of `text`.
pub uninterp spec fn sha256_of(text: Seq<char>) -> Seq<u8>;

/// Relies on `sha2::Sha256::digest`: the digest of the text's UTF-8 bytes,
/// which depends on them alone and is 32 bytes long.
#[verifier::external_body]
fn sha256(text: &str) -> (r: Vec<u8>)
    ensures
        r@ == sha256_of(text@),
        r@.len() == 32,
{
    sha2::Sha256::digest(text).to_vec()
}

/// The symbol for digit `d` in base 62 with the ordering `0-9A-Za-z`.
pub open spec fn standard_symbol(d: nat) -> char {
    if d < 10 {
        ((48 + d) as u8) as char
    } else if d < 36 {
        ((65 + (d - 10)) as u8) as char
    } else {
        ((97 + (d - 36)) as u8) as char
    }
}

/// `n` written in base 62 with the ordering `0-9A-Za-z`, most significant
/// digit first, without leading zeros.
pub open spec fn base62_standard(n: nat) -> Seq<char>
    decreases n,
{
    if n < 62 {
        seq![standard_symbol(n)]
    } else {
        base62_standard(n / 62).push(standard_symbol(n % 62))
    }
}

/// Relies on `base62::encode`: the number in base 62 with the standard digit
/// ordering (0 to 9, then A to Z, then a to z), without leading zeros.
#[verifier::external_body]
fn base62_encode(n: u64) -> (r: String)
    ensures
        r@ == base62_standard(n as nat),
{
    base62::encode(n)
}

/// The value of `bytes` read as a big-endian unsigned integer.
pub open spec fn be_value(bytes: Seq<u8>) -> nat
    decreases bytes.len(),
{
    if bytes.len() == 0 {
        0
    } else {
        be_value(bytes.drop_last()) * 256 + bytes.last() as nat
    }
}

/// `256` to the power `k`.
pub open spec fn pow256(k: nat) -> nat
    decreases k,
{
    if k == 0 {
        1
    } else {
        pow256((k - 1) as nat) * 256
    }
}

/// Reads the first eight bytes of `bytes` as a big-endian integer.
pub fn u64_from_be_prefix(bytes: &Vec<u8>) -> (r: u64)
    requires
        bytes@.len() >= 8,
    ensures
        r as nat == be_value(bytes@.subrange(0, 8)),
{
    let mut n: u64 = 0;
    let mut i: usize = 0;
    proof {
        reveal_with_fuel(pow256, 9);
    }
    assert(pow256(8) == 0x1_0000_0000_0000_0000);
    while i < 8
        invariant
            i <= 8,
            bytes@.len() >= 8,
            n as nat == be_value(bytes@.subrange(0, i as int)),
            n < pow256(i as nat),
            pow256(8) == 0x1_0000_0000_0000_0000,
        decreases 8 - i,
    {
        let ghost prefix = bytes@.subrange(0, i + 1);
        assert(prefix.drop_last() =~= bytes@.subrange(0, i as int));
        let b = bytes[i];
        assert(pow256((i + 1) as nat) == pow256(i as nat) * 256);
        proof {
            lemma_pow256_mono(i as nat, 7);
            lemma_step_bound(n as nat, b as nat, pow256(i as nat));
        }
        n = n * 256 + b as u64;
        i += 1;
    }
    n
}

proof fn lemma_pow256_mono(a: nat, b: nat)
    requires
        a <= b,
    ensures
        pow256(a) <= pow256(b),
    decreases b - a,
{
    if a < b {
        lemma_pow256_mono(a, (b - 1) as nat);
    }
}

proof fn lemma_step_bound(n: nat, b: nat, p: nat)
    requires
        n < p,
        b < 256,
    ensures
        n * 256 + b < p * 256,
{
    assert(n * 256 + b < p * 256) by (nonlinear_arith)
        requires
            n < p,
            b < 256,
    ;
}

/// The key of a URL: its SHA-256 digest's first eight bytes as a big-endian
/// integer, in base 62.
pub open spec fn key_of(url: Seq<char>) -> Seq<char> {
    base62_standard(be_value(sha256_of(url).subrange(0, 8)))
}

/// Derives the content key of `s`.
pub fn encode(s: &str) -> (r: String)
    ensures
        r@ == key_of(s@),
{
    let digest = sha256(s);
    let n = u64_from_be_prefix(&digest);
    base62_encode(n)
}

} // verus!
