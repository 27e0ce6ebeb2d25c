//! Service configuration, and the rate-limit setting in its text form
//! `requests_per_second:burst_size:cleanup_interval_secs`.
use crate::text::push_char;
use vstd::prelude::*;

verus! {

/// Declares `core::num::ParseIntError`, the failure std's integer parsing
/// reports; its values are carried, never inspected.
#[verifier::external_type_specification]
#[verifier::external_body]
pub struct ExParseIntError(core::num::ParseIntError);

/// Why a rate-limit setting was refused.
#[derive(Debug)]
pub enum ConfigError {
    /// The text does not have exactly three `:`-separated fields.
    InvalidRateLimitFormat { env_var: String, value: String },
    /// A field is not a number of its type.
    ParseError { env_var: String, source: core::num::ParseIntError },
}

/// Token-bucket settings of one route.
#[derive(Debug, Clone, Copy)]
pub struct RateLimitConfig {
    /// Seconds it takes to replenish one request of the bucket.
    pub requests_per_second: u64,
    /// Requests that may be made at once with a full bucket.
    pub burst_size: u32,
    /// Seconds between sweeps that drop idle clients' buckets.
    pub cleanup_interval_secs: u64,
}

/// Settings of the whole service.
#[derive(Debug, Clone)]
pub struct Config {
    pub service_host: String,
    pub service_port: String,
    pub database_url: String,
    pub stale_urls_days: i32,
    pub cache_url: String,
    pub admin_username: String,
    pub admin_password: String,
    pub redirect_rate_limit_config: RateLimitConfig,
    pub shorten_rate_limit_config: RateLimitConfig,
}

/// The pieces of `s` between occurrences of `sep`, in order; one piece more
/// than there are separators.
pub open spec fn split_on(s: Seq<char>, sep: char) -> Seq<Seq<char>>
    decreases s.len(),
{
    if s.len() == 0 {
        seq![Seq::empty()]
    } else {
        let before = split_on(s.drop_last(), sep);
        if s.last() == sep {
            before.push(Seq::empty())
        } else {
            before.update(before.len() - 1, before.last().push(s.last()))
        }
    }
}

pub(crate) proof fn lemma_split_nonempty(s: Seq<char>, sep: char)
    ensures
        split_on(s, sep).len() >= 1,
    decreases s.len(),
{
    if s.len() > 0 {
        lemma_split_nonempty(s.drop_last(), sep);
    }
}

/// Whether `c` is an ASCII decimal digit.
pub open spec fn is_digit(c: char) -> bool {
    '0' <= c && c <= '9'
}

/// The number that a run of decimal digits denotes.
pub open spec fn digits_value(s: Seq<char>) -> nat
    decreases s.len(),
{
    if s.len() == 0 {
        0
    } else {
        digits_value(s.drop_last()) * 10 + ((s.last() as u32) - 48) as nat
    }
}

/// The number that `digits` denotes when it is one or more decimal digits.
pub open spec fn digits_only(digits: Seq<char>) -> Option<nat> {
    if digits.len() > 0 && forall|i: int| 0 <= i < digits.len() ==> is_digit(#[trigger] digits[i]) {
        Some(digits_value(digits))
    } else {
        None
    }
}

/// The number that `s` denotes in the form std reads unsigned integers: an
/// optional `+`, then one or more decimal digits. `None` for any other text.
pub open spec fn unsigned_value(s: Seq<char>) -> Option<nat> {
    if s.len() > 0 && s[0] == '+' {
        digits_only(s.drop_first())
    } else {
        digits_only(s)
    }
}

/// The number that `s` denotes in the form std reads signed integers: an
/// optional `+` or `-`, then one or more decimal digits.
pub open spec fn signed_value(s: Seq<char>) -> Option<int> {
    if s.len() > 0 && s[0] == '-' {
        match digits_only(s.drop_first()) {
            Some(v) => Some(-v),
            None => None,
        }
    } else {
        match unsigned_value(s) {
            Some(v) => Some(v as int),
            None => None,
        }
    }
}

/// The value of `s` where it is a number of at most `max`.
pub open spec fn bounded_value(s: Seq<char>, max: nat) -> Option<nat> {
    match unsigned_value(s) {
        Some(v) => if v <= max {
            Some(v)
        } else {
            None
        },
        None => None,
    }
}

/// Relies on `<u64 as FromStr>::from_str`: an optional `+` and decimal
/// digits, with a value that fits, give that value; anything else fails.
#[verifier::external_body]
fn parse_u64(s: &str) -> (r: Result<u64, core::num::ParseIntError>)
    ensures
        match r {
            Ok(v) => bounded_value(s@, u64::MAX as nat) == Some(v as nat),
            Err(_) => bounded_value(s@, u64::MAX as nat) is None,
        },
{
    s.parse::<u64>()
}

/// Relies on `<u32 as FromStr>::from_str`: an optional `+` and decimal
/// digits, with a value that fits, give that value; anything else fails.
#[verifier::external_body]
fn parse_u32(s: &str) -> (r: Result<u32, core::num::ParseIntError>)
    ensures
        match r {
            Ok(v) => bounded_value(s@, u32::MAX as nat) == Some(v as nat),
            Err(_) => bounded_value(s@, u32::MAX as nat) is None,
        },
{
    s.parse::<u32>()
}

/// Splits `s` at every occurrence of `sep`.
pub fn split_on_char(s: &str, sep: char) -> (parts: Vec<String>)
    ensures
        parts@.map_values(|p: String| p@) == split_on(s@, sep),
{
    let n = s.unicode_len();
    let mut parts: Vec<String> = Vec::new();
    let mut current = String::new();
    let mut i: usize = 0;
    while i < n
        invariant
            n == s@.len(),
            i <= n,
            parts@.map_values(|p: String| p@).push(current@) == split_on(s@.subrange(0, i as int), sep),
        decreases n - i,
    {
        let c = s.get_char(i);
        let ghost prefix = s@.subrange(0, i as int);
        let ghost next = s@.subrange(0, i + 1);
        assert(next.drop_last() =~= prefix);
        assert(next.last() == c);
        proof {
            lemma_split_nonempty(prefix, sep);
        }
        if c == sep {
            let done = current;
            current = String::new();
            parts.push(done);
            assert(parts@.map_values(|p: String| p@).push(current@) =~= split_on(next, sep));
        } else {
            push_char(&mut current, c);
            assert(parts@.map_values(|p: String| p@).push(current@) =~= split_on(next, sep));
        }
        i += 1;
    }
    assert(s@.subrange(0, n as int) =~= s@);
    parts.push(current);
    assert(parts@.map_values(|p: String| p@) =~= split_on(s@, sep));
    parts
}

/// Splits `s` at every `:`.
pub fn split_fields(s: &str) -> (parts: Vec<String>)
    ensures
        parts@.map_values(|p: String| p@) == split_on(s@, ':'),
{
    split_on_char(s, ':')
}

/// How a rate-limit setting reads.
pub enum RateLimitReading {
    /// Not three `:`-separated fields.
    BadFormat,
    /// Three fields, one of which is not a number of its type.
    BadNumber,
    /// Three numbers: per-request period, burst size, sweep interval.
    Fields(nat, nat, nat),
}

/// How the setting `value` reads.
pub open spec fn read_rate_limit(value: Seq<char>) -> RateLimitReading {
    let p = split_on(value, ':');
    if p.len() != 3 {
        RateLimitReading::BadFormat
    } else {
        match (
            bounded_value(p[0], u64::MAX as nat),
            bounded_value(p[1], u32::MAX as nat),
            bounded_value(p[2], u64::MAX as nat),
        ) {
            (Some(a), Some(b), Some(c)) => RateLimitReading::Fields(a, b, c),
            _ => RateLimitReading::BadNumber,
        }
    }
}

impl RateLimitConfig {
    /// Reads a setting of the form `requests_per_second:burst_size:cleanup_interval_secs`;
    /// `env_var` names where it came from, for the error.
    pub fn parse(value: &str, env_var: &str) -> (r: Result<RateLimitConfig, ConfigError>)
        ensures
            match read_rate_limit(value@) {
                RateLimitReading::BadFormat => r matches Err(ConfigError::InvalidRateLimitFormat { env_var: e, value: v })
                    && e@ == env_var@ && v@ == value@,
                RateLimitReading::BadNumber => r matches Err(ConfigError::ParseError { env_var: e, .. })
                    && e@ == env_var@,
                RateLimitReading::Fields(a, b, c) => r matches Ok(cfg) && cfg.requests_per_second == a
                    && cfg.burst_size == b && cfg.cleanup_interval_secs == c,
            },
    {
        let parts = split_fields(value);
        proof {
            assert(parts@.map_values(|p: String| p@).len() == parts@.len());
        }
        if parts.len() != 3 {
            return Err(
                ConfigError::InvalidRateLimitFormat {
                    env_var: env_var.to_owned(),
                    value: value.to_owned(),
                },
            );
        }
        assert(parts@.map_values(|p: String| p@)[0] == parts@[0]@);
        assert(parts@.map_values(|p: String| p@)[1] == parts@[1]@);
        assert(parts@.map_values(|p: String| p@)[2] == parts@[2]@);
        let requests_per_second = match parse_u64(parts[0].as_str()) {
            Ok(v) => v,
            Err(e) => {
                return Err(ConfigError::ParseError { env_var: env_var.to_owned(), source: e });
            },
        };
        let burst_size = match parse_u32(parts[1].as_str()) {
            Ok(v) => v,
            Err(e) => {
                return Err(ConfigError::ParseError { env_var: env_var.to_owned(), source: e });
            },
        };
        let cleanup_interval_secs = match parse_u64(parts[2].as_str()) {
            Ok(v) => v,
            Err(e) => {
                return Err(ConfigError::ParseError { env_var: env_var.to_owned(), source: e });
            },
        };
        Ok(RateLimitConfig { requests_per_second, burst_size, cleanup_interval_secs })
    }
}

impl RateLimitConfig {
    /// The replenish period (seconds per request) and burst size a token
    /// bucket is built from, or `None` when either is zero and no bucket can
    /// be built.
    pub fn quota_settings(&self) -> (r: Option<(u64, u32)>)
        ensures
            r is Some <==> (self.requests_per_second > 0 && self.burst_size > 0),
            r matches Some((period, burst)) ==> period == self.requests_per_second && burst
                == self.burst_size,
    {
        if self.requests_per_second > 0 && self.burst_size > 0 {
            Some((self.requests_per_second, self.burst_size))
        } else {
            None
        }
    }
}

impl Default for RateLimitConfig {
    /// Five seconds per request, bursts of ten, a sweep every minute.
    fn default() -> (r: RateLimitConfig)
        ensures
            r.requests_per_second == 5,
            r.burst_size == 10,
            r.cleanup_interval_secs == 60,
    {
        RateLimitConfig { requests_per_second: 5, burst_size: 10, cleanup_interval_secs: 60 }
    }
}

} // verus!
