//! Cache entries: the key under which a code's target is mirrored and the
//! time-to-live every write carries.
use vstd::prelude::*;
use vstd::string::*;

verus! {

/// Seconds a mirrored mapping stays in the cache.
pub const CACHE_TTL_SECS: u64 = 3600;

/// Namespace of the cache keys for short codes.
pub const CACHE_KEY_PREFIX: &'static str = "short:";

/// The cache key of a code.
pub open spec fn cache_key_of(code: Seq<char>) -> Seq<char> {
    CACHE_KEY_PREFIX@ + code
}

/// Builds the cache key of a code.
pub fn cache_key(code: &str) -> (r: String)
    ensures
        r@ == cache_key_of(code@),
{
    let mut key = String::from_str(CACHE_KEY_PREFIX);
    key.append(code);
    key
}

/// A write of `value` under `key` that expires after `ttl_secs` seconds.
pub struct CacheWrite {
    pub key: String,
    pub value: String,
    pub ttl_secs: u64,
}

/// The abstract value of a `CacheWrite`.
pub struct CacheWriteV {
    pub key: Seq<char>,
    pub value: Seq<char>,
    pub ttl_secs: nat,
}

impl View for CacheWrite {
    type V = CacheWriteV;

    open spec fn view(&self) -> CacheWriteV {
        CacheWriteV { key: self.key@, value: self.value@, ttl_secs: self.ttl_secs as nat }
    }
}

/// The write that mirrors the mapping from `code` to `url`.
pub open spec fn mirror_of(code: Seq<char>, url: Seq<char>) -> CacheWriteV {
    CacheWriteV { key: cache_key_of(code), value: url, ttl_secs: CACHE_TTL_SECS as nat }
}

/// Builds the write that mirrors the mapping from `code` to `url`.
pub fn mirror(code: &str, url: &str) -> (w: CacheWrite)
    ensures
        w@ == mirror_of(code@, url@),
{
    CacheWrite { key: cache_key(code), value: url.to_owned(), ttl_secs: CACHE_TTL_SECS }
}

/// `None` stays `None`; a text becomes its characters.
pub open spec fn opt_text(o: Option<String>) -> Option<Seq<char>> {
    match o {
        Some(s) => Some(s@),
        None => None,
    }
}

/// The abstract value of what a store or cache read handed back: the text
/// found, none, or the failure's description.
pub open spec fn read_view(r: Result<Option<String>, String>) -> Result<Option<Seq<char>>, Seq<char>> {
    match r {
        Ok(o) => Ok(opt_text(o)),
        Err(m) => Err(m@),
    }
}

} // verus!
