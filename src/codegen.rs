//! Random short codes over the 62-symbol alphabet `0-9a-zA-Z`.
use crate::text::push_char;
use rand::Rng;
use vstd::prelude::*;

verus! {

/// Number of symbols a code is drawn from.
pub const ALPHABET_SIZE: u8 = 62;

/// Length of the codes handed out by the shorten flow.
pub const CODE_LEN: usize = 6;

/// Whether `c` is one of the 62 code symbols.
pub open spec fn is_base62(c: char) -> bool {
    ('0' <= c && c <= '9') || ('a' <= c && c <= 'z') || ('A' <= c && c <= 'Z')
}

/// Whether every character of `s` is a code symbol.
pub open spec fn all_base62(s: Seq<char>) -> bool {
    forall|i: int| 0 <= i < s.len() ==> is_base62(#[trigger] s[i])
}

/// Whether `s` has the shape of a generated code.
pub open spec fn is_code(s: Seq<char>) -> bool {
    s.len() == CODE_LEN && all_base62(s)
}

/// The symbol at position `i` of `0-9a-zA-Z`.
pub open spec fn symbol(i: nat) -> char {
    if i < 10 {
        ((48 + i) as u8) as char
    } else if i < 36 {
        ((97 + (i - 10)) as u8) as char
    } else {
        ((65 + (i - 36)) as u8) as char
    }
}

/// The symbol at position `i` of the alphabet `0-9a-zA-Z`.
pub fn base62_symbol(i: u8) -> (c: char)
    requires
        i < ALPHABET_SIZE,
    ensures
        c == symbol(i as nat),
        is_base62(c),
{
    if i < 10 {
        (48 + i) as char
    } else if i < 36 {
        (97 + (i - 10)) as char
    } else {
        (65 + (i - 36)) as char
    }
}

/// Relies on `rand::rng` and `Rng::random_range`: a value drawn uniformly from
/// `0..bound` with the thread-local generator (the range is never empty here).
#[verifier::external_body]
fn random_below(bound: u8) -> (r: u8)
    requires
        bound > 0,
    ensures
        r < bound,
{
    rand::rng().random_range(0..bound)
}

/// Draws `length` symbols independently and uniformly from the alphabet.
pub fn generate_random_base62_code(length: usize) -> (code: String)
    ensures
        code@.len() == length,
        all_base62(code@),
{
    let mut code = String::new();
    let mut k: usize = 0;
    while k < length
        invariant
            k <= length,
            code@.len() == k,
            all_base62(code@),
        decreases length - k,
    {
        let i = random_below(ALPHABET_SIZE);
        let c = base62_symbol(i);
        push_char(&mut code, c);
        k += 1;
    }
    code
}

/// A fresh candidate code of the configured length.
pub fn fresh_code() -> (code: String)
    ensures
        is_code(code@),
{
    generate_random_base62_code(CODE_LEN)
}

} // verus!
