//! Small string helpers shared by the services: appending characters and
//! decimal numbers, shortening text for display, and building share links.
use vstd::prelude::*;
use vstd::string::*;

verus! {

/// Host name under which shortened links are published.
pub const BASE_URL: &'static str = "tg.com";

/// Marker appended to text that `truncate` cut short.
pub const ELLIPSIS: &'static str = "...";

/// Relies on `String::push`: the character is appended at the end.
#[verifier::external_body]
pub(crate) fn push_char(s: &mut String, c: char)
    ensures
        final(s)@ == old(s)@.push(c),
{
    s.push(c);
}

/// Whether `a` and `b` hold the same characters.
pub fn same_text(a: &str, b: &str) -> (r: bool)
    ensures
        r == (a@ == b@),
{
    let n = a.unicode_len();
    if n != b.unicode_len() {
        return false;
    }
    let mut i: usize = 0;
    while i < n
        invariant
            n == a@.len(),
            n == b@.len(),
            i <= n,
            a@.subrange(0, i as int) == b@.subrange(0, i as int),
        decreases n - i,
    {
        if a.get_char(i) != b.get_char(i) {
            assert(a@[i as int] != b@[i as int]);
            return false;
        }
        assert(a@.subrange(0, i + 1) =~= a@.subrange(0, i as int).push(a@[i as int]));
        assert(b@.subrange(0, i + 1) =~= b@.subrange(0, i as int).push(b@[i as int]));
        i += 1;
    }
    assert(a@ =~= a@.subrange(0, n as int));
    assert(b@ =~= b@.subrange(0, n as int));
    true
}

/// The ASCII digit for a value below ten.
pub open spec fn digit_char(d: nat) -> char {
    ((48 + d) as u8) as char
}

/// The decimal text of a natural number, without sign or leading zeros.
pub open spec fn decimal(n: nat) -> Seq<char>
    decreases n,
{
    if n < 10 {
        seq![digit_char(n)]
    } else {
        decimal(n / 10).push(digit_char(n % 10))
    }
}

/// Appends the decimal text of `n` to `s`.
pub fn push_decimal(s: &mut String, n: u64)
    ensures
        final(s)@ == old(s)@ + decimal(n as nat),
    decreases n,
{
    if n >= 10 {
        push_decimal(s, n / 10);
    }
    let d: u8 = (n % 10) as u8;
    push_char(s, (48 + d) as char);
    assert(final(s)@ =~= old(s)@ + decimal(n as nat));
}

/// The decimal text of `n` as a new string.
pub fn decimal_string(n: u64) -> (r: String)
    ensures
        r@ == decimal(n as nat),
{
    let mut r = String::new();
    push_decimal(&mut r, n);
    assert(r@ =~= decimal(n as nat));
    r
}

/// `s` itself when it has at most `max_len` characters, else its first
/// `max_len` characters followed by an ellipsis.
pub open spec fn truncated(s: Seq<char>, max_len: nat) -> Seq<char> {
    if s.len() > max_len {
        s.subrange(0, max_len as int) + ELLIPSIS@
    } else {
        s
    }
}

/// Shortens `s` to at most `max_len` characters for display, marking a cut
/// with an ellipsis.
pub fn truncate(s: &str, max_len: usize) -> (r: String)
    ensures
        r@ == truncated(s@, max_len as nat),
{
    let n = s.unicode_len();
    if n > max_len {
        let head = s.substring_char(0, max_len);
        let mut r = head.to_owned();
        r.append(ELLIPSIS);
        r
    } else {
        s.to_owned()
    }
}

/// The public link for a key: `https://` + host + `/` + key.
pub open spec fn short_link(key: Seq<char>) -> Seq<char> {
    "https://"@ + BASE_URL@ + seq!['/'] + key
}

/// Builds the public link under which the short key is served.
pub fn shortened_url_from_key(key: &str) -> (r: String)
    ensures
        r@ == short_link(key@),
{
    let mut shortened = String::from_str("https://");
    shortened.append(BASE_URL);
    push_char(&mut shortened, '/');
    shortened.append(key);
    assert(shortened@ =~= short_link(key@));
    shortened
}

} // verus!
