//! Usage statistics: the cache-aside read of the global totals, the text
//! they are cached as, and the per-code report.
use crate::cache::{read_view, CacheWrite};
use crate::config::{digits_value, is_digit, signed_value, split_on};
use crate::error::{ApiError, ApiErrorV};
use crate::text::{decimal, digit_char, push_char, push_decimal};
use vstd::prelude::*;
use vstd::string::*;

verus! {

/// Cache key of the global totals.
pub const STATS_CACHE_KEY: &'static str = "stats:global";

/// Seconds the global totals stay in the cache.
pub const STATS_TTL_SECS: u64 = 300;

/// Global totals.
#[derive(Debug, Clone, Copy, PartialEq, Eq, Structural)]
pub struct StatsResponse {
    pub total_urls: i64,
    pub total_clicks: i64,
}

/// Clicks on one calendar day, the day written `YYYY-MM-DD`.
#[derive(Debug)]
pub struct DailyClick {
    pub date: String,
    pub count: i64,
}

/// Clicks on one code: the total, and per day.
#[derive(Debug)]
pub struct CodeStatsResponse {
    pub code: String,
    pub total_clicks: i64,
    pub daily_clicks: Vec<DailyClick>,
}

/// `n` in decimal, with a leading `-` when negative.
pub open spec fn signed_decimal(n: int) -> Seq<char> {
    if n < 0 {
        seq!['-'] + decimal((-n) as nat)
    } else {
        decimal(n as nat)
    }
}

/// The cached form of the totals: both numbers in decimal, `,` between.
pub open spec fn stats_text_of(total_urls: int, total_clicks: int) -> Seq<char> {
    signed_decimal(total_urls) + seq![','] + signed_decimal(total_clicks)
}

/// The totals that a cached text denotes, if it is in the cached form.
pub open spec fn stats_reading(text: Seq<char>) -> Option<(int, int)> {
    let p = split_on(text, ',');
    if p.len() != 2 {
        None
    } else {
        match (signed_value(p[0]), signed_value(p[1])) {
            (Some(a), Some(b)) => if i64::MIN <= a <= i64::MAX && i64::MIN <= b <= i64::MAX {
                Some((a, b))
            } else {
                None
            },
            _ => None,
        }
    }
}

/// Relies on `<i64 as FromStr>::from_str`: an optional sign and decimal
/// digits, with a value that fits, give that value; anything else fails.
#[verifier::external_body]
fn parse_i64(s: &str) -> (r: Result<i64, core::num::ParseIntError>)
    ensures
        match r {
            Ok(v) => signed_value(s@) == Some(v as int),
            Err(_) => signed_value(s@) matches Some(v) ==> (v < i64::MIN || v > i64::MAX),
        },
{
    s.parse::<i64>()
}

fn push_signed(s: &mut String, n: i64)
    ensures
        final(s)@ == old(s)@ + signed_decimal(n as int),
{
    if n < 0 {
        push_char(s, '-');
        let magnitude: u64 = (-(n as i128)) as u64;
        push_decimal(s, magnitude);
    } else {
        push_decimal(s, n as u64);
    }
    assert(final(s)@ =~= old(s)@ + signed_decimal(n as int));
}

/// The text the totals are cached as.
pub fn stats_text(stats: &StatsResponse) -> (r: String)
    ensures
        r@ == stats_text_of(stats.total_urls as int, stats.total_clicks as int),
{
    let mut r = String::new();
    push_signed(&mut r, stats.total_urls);
    push_char(&mut r, ',');
    push_signed(&mut r, stats.total_clicks);
    assert(r@ =~= stats_text_of(stats.total_urls as int, stats.total_clicks as int));
    r
}

/// The totals that a cached text denotes, if it is in the cached form.
pub fn parse_stats_text(text: &str) -> (r: Option<StatsResponse>)
    ensures
        match stats_reading(text@) {
            Some((a, b)) => r == Some(StatsResponse { total_urls: a as i64, total_clicks: b as i64 }),
            None => r is None,
        },
{
    let parts = split_comma(text);
    if parts.len() != 2 {
        return None;
    }
    assert(parts@.map_values(|p: String| p@)[0] == parts@[0]@);
    assert(parts@.map_values(|p: String| p@)[1] == parts@[1]@);
    let total_urls = match parse_i64(parts[0].as_str()) {
        Ok(v) => v,
        Err(_) => {
            return None;
        },
    };
    let total_clicks = match parse_i64(parts[1].as_str()) {
        Ok(v) => v,
        Err(_) => {
            return None;
        },
    };
    Some(StatsResponse { total_urls, total_clicks })
}

fn split_comma(text: &str) -> (parts: Vec<String>)
    ensures
        parts@.map_values(|p: String| p@) == split_on(text@, ','),
        parts@.len() == split_on(text@, ',').len(),
{
    let parts = crate::config::split_on_char(text, ',');
    assert(parts@.map_values(|p: String| p@).len() == parts@.len());
    parts
}

/// The totals a cache read answers with: those of a well-formed cached
/// text, else none (a miss, a failure, or a text of another form).
pub fn stats_from_cache(cached: Result<Option<String>, String>) -> (r: Option<StatsResponse>)
    ensures
        match read_view(cached) {
            Ok(Some(text)) => match stats_reading(text) {
                Some((a, b)) => r == Some(StatsResponse { total_urls: a as i64, total_clicks: b as i64 }),
                None => r is None,
            },
            _ => r is None,
        },
{
    match cached {
        Ok(Some(text)) => parse_stats_text(text.as_str()),
        _ => None,
    }
}

/// The reply to a totals request after a cache miss, from what the store
/// counted, and the cache write that keeps the counts for a while.
pub fn stats_after_count(counted: Result<(i64, i64), String>) -> (r: (Result<StatsResponse, ApiError>, Option<CacheWrite>))
    ensures
        match counted {
            Ok((u, c)) => r.0 == Ok::<StatsResponse, ApiError>(StatsResponse { total_urls: u, total_clicks: c })
                && (r.1 matches Some(w) && w.key@ == STATS_CACHE_KEY@ && w.value@ == stats_text_of(u as int, c as int)
                && w.ttl_secs == STATS_TTL_SECS),
            Err(m) => (r.0 matches Err(e) && e@ == ApiErrorV::Database(m@)) && r.1 is None,
        },
{
    match counted {
        Ok((total_urls, total_clicks)) => {
            let stats = StatsResponse { total_urls, total_clicks };
            let value = stats_text(&stats);
            let w = CacheWrite { key: String::from_str(STATS_CACHE_KEY), value, ttl_secs: STATS_TTL_SECS };
            (Ok(stats), Some(w))
        },
        Err(m) => (Err(ApiError::Database(m)), None),
    }
}

/// The per-code report from the store's total and daily counts; a failure
/// of either read is a store error, the total's first.
pub fn code_stats(
    code: String,
    total: Result<i64, String>,
    daily: Result<Vec<DailyClick>, String>,
) -> (r: Result<CodeStatsResponse, ApiError>)
    ensures
        match (total, daily) {
            (Err(m), _) => r matches Err(e) && e@ == ApiErrorV::Database(m@),
            (Ok(_), Err(m)) => r matches Err(e) && e@ == ApiErrorV::Database(m@),
            (Ok(t), Ok(d)) => r matches Ok(s) && s.code == code && s.total_clicks == t && s.daily_clicks == d,
        },
{
    let total_clicks = match total {
        Ok(t) => t,
        Err(m) => {
            return Err(ApiError::Database(m));
        },
    };
    let daily_clicks = match daily {
        Ok(d) => d,
        Err(m) => {
            return Err(ApiError::Database(m));
        },
    };
    Ok(CodeStatsResponse { code, total_clicks, daily_clicks })
}

proof fn lemma_decimal_reads_back(n: nat)
    ensures
        decimal(n).len() > 0,
        forall|i: int| 0 <= i < decimal(n).len() ==> is_digit(#[trigger] decimal(n)[i]),
        digits_value(decimal(n)) == n,
    decreases n,
{
    if n >= 10 {
        lemma_decimal_reads_back(n / 10);
        let d = decimal(n);
        assert(d.drop_last() =~= decimal(n / 10));
        assert(d.last() == digit_char(n % 10));
        assert((digit_char(n % 10) as u32) - 48 == n % 10);
        assert(digits_value(d) == digits_value(decimal(n / 10)) * 10 + n % 10);
        assert(n == (n / 10) * 10 + n % 10);
        assert forall|i: int| 0 <= i < d.len() implies is_digit(#[trigger] d[i]) by {
            if i < d.len() - 1 {
                assert(d[i] == decimal(n / 10)[i]);
            }
        }
    } else {
        let d = decimal(n);
        assert((digit_char(n) as u32) - 48 == n);
        assert(d.drop_last() =~= Seq::<char>::empty());
        assert(digits_value(d.drop_last()) == 0);
    }
}

proof fn lemma_split_without_sep(p: Seq<char>, b: Seq<char>, sep: char)
    requires
        forall|i: int| 0 <= i < b.len() ==> b[i] != sep,
    ensures
        split_on(p + b, sep) == split_on(p, sep).update(
            split_on(p, sep).len() - 1,
            split_on(p, sep).last() + b,
        ),
    decreases b.len(),
{
    crate::config::lemma_split_nonempty(p, sep);
    if b.len() == 0 {
        assert(p + b =~= p);
        assert(split_on(p, sep).last() + b =~= split_on(p, sep).last());
        assert(split_on(p, sep).update(split_on(p, sep).len() - 1, split_on(p, sep).last())
            =~= split_on(p, sep));
    } else {
        let b0 = b.drop_last();
        lemma_split_without_sep(p, b0, sep);
        assert((p + b).drop_last() =~= p + b0);
        assert((p + b).last() == b.last());
        let q = split_on(p, sep);
        assert(b.last() == b[b.len() - 1]);
        assert(b.last() != sep);
        let before = split_on(p + b0, sep);
        assert(before.len() == q.len());
        assert(before.last() == q.last() + b0);
        assert(split_on(p + b, sep) == before.update(before.len() - 1, before.last().push(b.last())));
        assert(before.last().push(b.last()) =~= q.last() + b);
        assert(split_on(p + b, sep) =~= q.update(q.len() - 1, q.last() + b));
    }
}

proof fn lemma_signed_reads_back(n: int)
    ensures
        signed_value(signed_decimal(n)) == Some(n),
        forall|i: int| 0 <= i < signed_decimal(n).len() ==> #[trigger] signed_decimal(n)[i] != ',',
{
    if n < 0 {
        lemma_decimal_reads_back((-n) as nat);
        let s = signed_decimal(n);
        assert(s.drop_first() =~= decimal((-n) as nat));
        assert forall|i: int| 0 <= i < s.len() implies #[trigger] s[i] != ',' by {
            if i > 0 {
                assert(s[i] == decimal((-n) as nat)[i - 1]);
                assert(is_digit(decimal((-n) as nat)[i - 1]));
            }
        }
    } else {
        lemma_decimal_reads_back(n as nat);
        assert(is_digit(decimal(n as nat)[0]));
        assert forall|i: int| 0 <= i < signed_decimal(n).len() implies #[trigger] signed_decimal(n)[i] != ',' by {
            assert(is_digit(decimal(n as nat)[i]));
        }
    }
}

/// The cached form of the totals reads back as the same totals.
pub proof fn law_stats_text_round_trip(total_urls: i64, total_clicks: i64)
    ensures
        stats_reading(stats_text_of(total_urls as int, total_clicks as int)) == Some(
            (total_urls as int, total_clicks as int),
        ),
{
    let a = signed_decimal(total_urls as int);
    let b = signed_decimal(total_clicks as int);
    lemma_signed_reads_back(total_urls as int);
    lemma_signed_reads_back(total_clicks as int);
    let head = a + seq![','];
    lemma_split_without_sep(Seq::empty(), a, ',');
    assert(Seq::<char>::empty() + a =~= a);
    assert(split_on(Seq::empty(), ',') == seq![Seq::<char>::empty()]);
    assert(Seq::<char>::empty() + a =~= a);
    assert(split_on(a, ',') =~= seq![a]);
    assert(head.drop_last() =~= a);
    assert(split_on(head, ',') =~= seq![a, Seq::empty()]);
    lemma_split_without_sep(head, b, ',');
    assert(Seq::<char>::empty() + b =~= b);
    assert(split_on(head + b, ',') =~= seq![a, b]);
    assert(stats_text_of(total_urls as int, total_clicks as int) =~= head + b);
}

} // verus!
