//! An abstract store and cache, the flows run against them, and the laws the
//! flows obey there: a shortened URL resolves back, repeated shortening is
//! idempotent, collisions are retried a bounded number of times without
//! leaving rows behind, unknown codes are not cached, refused requests touch
//! nothing, and deleted codes stop resolving once their entry is gone.
use crate::cache::{cache_key_of, mirror_of, CacheWriteV, CACHE_TTL_SECS};
use crate::error::ApiErrorV;
use crate::redirect::{
    redirect_accepts, redirect_done, redirect_fail, redirect_next, redirect_start, RedirectActionV,
    RedirectEventV,
};
use crate::shorten::{
    shorten_accepts, shorten_done, shorten_fail, shorten_next, shorten_start, InsertOutcomeV,
    ShortenActionV, ShortenEventV, ShortenPhaseV, ShortenSessionV, MAX_COLLISION_RETRIES,
};
use crate::validate::input_verdict;
use crate::admin::{delete_decision, AdminError};
use vstd::prelude::*;

verus! {

/// The durable store: each code's target URL.
pub type StoreModel = Map<Seq<char>, Seq<char>>;

/// A cached value and the instant (in seconds) at which it expires.
pub struct CacheEntryV {
    pub value: Seq<char>,
    pub expires_at: int,
}

/// The cache: entries by key.
pub type CacheModel = Map<Seq<char>, CacheEntryV>;

/// Whether the cache holds an unexpired entry under `key` at time `now`.
pub open spec fn live(cache: CacheModel, key: Seq<char>, now: int) -> bool {
    cache.contains_key(key) && now < cache[key].expires_at
}

/// Every unexpired entry for a code mirrors that code's mapping in the store.
pub open spec fn coherent(store: StoreModel, cache: CacheModel, now: int) -> bool {
    forall|code: Seq<char>|
        #[trigger] live(cache, cache_key_of(code), now) ==> store.contains_key(code)
            && store[code] == cache[cache_key_of(code)].value
}

/// What a cache read under `key` returns at time `now`.
pub open spec fn cache_read(cache: CacheModel, key: Seq<char>, now: int) -> Result<Option<Seq<char>>, Seq<char>> {
    if live(cache, key, now) {
        Ok(Some(cache[key].value))
    } else {
        Ok(None)
    }
}

/// What a store read of `code` returns.
pub open spec fn store_read(store: StoreModel, code: Seq<char>) -> Result<Option<Seq<char>>, Seq<char>> {
    if store.contains_key(code) {
        Ok(Some(store[code]))
    } else {
        Ok(None)
    }
}

/// Whether some code maps to `url`.
pub open spec fn has_code_for(store: StoreModel, url: Seq<char>) -> bool {
    exists|c: Seq<char>| store.contains_key(c) && store[c] == url
}

/// One of the codes that map to `url`, where there is one.
pub open spec fn code_for(store: StoreModel, url: Seq<char>) -> Seq<char> {
    choose|c: Seq<char>| store.contains_key(c) && store[c] == url
}

/// What a store lookup of a code for `url` returns: one of the codes that
/// map to it, if any.
pub open spec fn lookup_read(store: StoreModel, url: Seq<char>) -> Result<Option<Seq<char>>, Seq<char>> {
    if has_code_for(store, url) {
        Ok(Some(code_for(store, url)))
    } else {
        Ok(None)
    }
}

/// An atomic insert: refused when the code is taken, else the new mapping.
pub open spec fn insert_into(store: StoreModel, code: Seq<char>, url: Seq<char>) -> (StoreModel, InsertOutcomeV) {
    if store.contains_key(code) {
        (store, InsertOutcomeV::Collision)
    } else {
        (store.insert(code, url), InsertOutcomeV::Inserted)
    }
}

/// The cache after a write at time `now` that succeeded (`ok`) or failed.
pub open spec fn apply_write(cache: CacheModel, w: Option<CacheWriteV>, now: int, ok: bool) -> CacheModel {
    match w {
        Some(w) => if ok {
            cache.insert(w.key, CacheEntryV { value: w.value, expires_at: now + w.ttl_secs })
        } else {
            cache
        },
        None => cache,
    }
}

/// Runs a shorten session against `store`, handing it `codes` one per step
/// as its fresh candidates, until it replies or the codes run out.
pub open spec fn drive_shorten(
    store: StoreModel,
    s: ShortenSessionV,
    a: ShortenActionV,
    codes: Seq<Seq<char>>,
) -> (StoreModel, ShortenActionV)
    decreases codes.len(),
{
    if codes.len() == 0 {
        (store, a)
    } else {
        match a {
            ShortenActionV::FindCodeByUrl { url } => {
                let (s2, a2) = shorten_next(s, ShortenEventV::Lookup(lookup_read(store, url)), codes[0]);
                drive_shorten(store, s2, a2, codes.drop_first())
            },
            ShortenActionV::Insert { code, url } => {
                let (store2, outcome) = insert_into(store, code, url);
                let (s2, a2) = shorten_next(s, ShortenEventV::Insert(outcome), codes[0]);
                drive_shorten(store2, s2, a2, codes.drop_first())
            },
            ShortenActionV::Finish { .. } => (store, a),
        }
    }
}

/// An admitted shorten request for `url` run against `store` with the
/// candidate codes `codes`: the store afterwards and the last action.
pub open spec fn model_shorten(store: StoreModel, url: Seq<char>, codes: Seq<Seq<char>>) -> (StoreModel, ShortenActionV) {
    let (s, a) = shorten_start(url, true);
    drive_shorten(store, s, a, codes)
}

/// An admitted redirect request for `code` run against `store` and `cache`
/// at time `now`: the reply it ends with.
pub open spec fn model_resolve(store: StoreModel, cache: CacheModel, now: int, code: Seq<char>) -> RedirectActionV {
    let (s0, _) = redirect_start(code, true);
    let (s1, a1) = redirect_next(s0, RedirectEventV::Cache(cache_read(cache, cache_key_of(code), now)));
    match a1 {
        RedirectActionV::FindUrlByCode { .. } => redirect_next(s1, RedirectEventV::Store(store_read(store, code))).1,
        _ => a1,
    }
}

/// A shorten session's state agrees with the action it last issued.
pub open spec fn in_step(s: ShortenSessionV, a: ShortenActionV, url: Seq<char>) -> bool {
    &&& s.url == url
    &&& match a {
        ShortenActionV::FindCodeByUrl { url: u } => u == url && s.phase == ShortenPhaseV::AwaitingLookup,
        ShortenActionV::Insert { code, url: u } => u == url && (s.phase matches ShortenPhaseV::AwaitingInsert { code: c, .. } && c == code),
        ShortenActionV::Finish { .. } => true,
    }
}

/// What running a session leaves behind: the store unchanged, except for one
/// new row when a code is created; a reply's code maps to the URL, and an
/// existing code is the one the lookup found.
pub open spec fn run_outcome(store: StoreModel, url: Seq<char>, store2: StoreModel, a: ShortenActionV) -> bool {
    match a {
        ShortenActionV::Finish { result: Ok((code, true)), cache } => !store.contains_key(code)
            && !has_code_for(store, url) && store2 == store.insert(code, url) && cache == Some(
            mirror_of(code, url)),
        ShortenActionV::Finish { result: Ok((code, false)), cache } => store2 == store
            && store.contains_key(code) && store[code] == url && code == code_for(store, url)
            && cache == Some(mirror_of(code, url)),
        _ => store2 == store,
    }
}

proof fn lemma_drive_finished(store: StoreModel, s: ShortenSessionV, a: ShortenActionV, codes: Seq<Seq<char>>)
    requires
        a matches ShortenActionV::Finish { .. },
    ensures
        drive_shorten(store, s, a, codes) == (store, a),
{
}

proof fn lemma_drive(store: StoreModel, s: ShortenSessionV, a: ShortenActionV, codes: Seq<Seq<char>>, url: Seq<char>)
    requires
        in_step(s, a, url),
        !(a matches ShortenActionV::Finish { .. }),
        a is Insert ==> !has_code_for(store, url),
    ensures
        run_outcome(store, url, drive_shorten(store, s, a, codes).0, drive_shorten(store, s, a, codes).1),
    decreases codes.len(),
{
    if codes.len() > 0 {
        match a {
            ShortenActionV::FindCodeByUrl { .. } => {
                let ev = ShortenEventV::Lookup(lookup_read(store, url));
                let (s2, a2) = shorten_next(s, ev, codes[0]);
                if has_code_for(store, url) {
                    let c = code_for(store, url);
                    assert(store.contains_key(c) && store[c] == url);
                    lemma_drive_finished(store, s2, a2, codes.drop_first());
                } else {
                    lemma_drive(store, s2, a2, codes.drop_first(), url);
                }
            },
            ShortenActionV::Insert { code, .. } => {
                let (store2, outcome) = insert_into(store, code, url);
                let (s2, a2) = shorten_next(s, ShortenEventV::Insert(outcome), codes[0]);
                if a2 matches ShortenActionV::Finish { .. } {
                    lemma_drive_finished(store2, s2, a2, codes.drop_first());
                } else {
                    lemma_drive(store, s2, a2, codes.drop_first(), url);
                }
            },
            _ => {},
        }
    }
}

/// Shortening then resolving gives back the URL: after a request for a
/// valid `url` replies with a code (whether the cache write that follows it
/// succeeds or not), resolving that code at the same instant returns `url`,
/// provided the cache mirrored the store beforehand.
pub proof fn law_shorten_then_resolve(
    store: StoreModel,
    cache: CacheModel,
    now: int,
    url: Seq<char>,
    codes: Seq<Seq<char>>,
    cache_ok: bool,
)
    requires
        input_verdict(url) is None,
        coherent(store, cache, now),
        model_shorten(store, url, codes).1 matches ShortenActionV::Finish { result: Ok(_), .. },
    ensures
        ({
            let (store2, a) = model_shorten(store, url, codes);
            let code = a->Finish_result->Ok_0.0;
            let cache2 = apply_write(cache, a->Finish_cache, now, cache_ok);
            model_resolve(store2, cache2, now, code)->Finish_result == Ok::<Seq<char>, ApiErrorV>(url)
        }),
{
    let (s0, a0) = shorten_start(url, true);
    lemma_drive(store, s0, a0, codes, url);
    let (store2, a) = model_shorten(store, url, codes);
    let code = a->Finish_result->Ok_0.0;
    let key = cache_key_of(code);
    let cache2 = apply_write(cache, a->Finish_cache, now, cache_ok);
    assert(store2.contains_key(code) && store2[code] == url);
    if live(cache2, key, now) {
        if !(cache_ok) {
            assert(live(cache, cache_key_of(code), now));
        }
    }
}

/// Shortening the same URL twice gives the same code, and the second reply
/// says the code already existed; the second request writes nothing.
/// (Only the first request's writes happen in between.)
pub proof fn law_shorten_idempotent(
    store: StoreModel,
    url: Seq<char>,
    codes1: Seq<Seq<char>>,
    codes2: Seq<Seq<char>>,
)
    requires
        input_verdict(url) is None,
        model_shorten(store, url, codes1).1 matches ShortenActionV::Finish { result: Ok(_), .. },
        codes2.len() > 0,
    ensures
        ({
            let (store2, a1) = model_shorten(store, url, codes1);
            let (store3, a2) = model_shorten(store2, url, codes2);
            &&& store3 == store2
            &&& a2 matches ShortenActionV::Finish { result: Ok((c2, created2)), .. }
            &&& !created2
            &&& c2 == a1->Finish_result->Ok_0.0
        }),
{
    let (s0, a0) = shorten_start(url, true);
    lemma_drive(store, s0, a0, codes1, url);
    let (store2, a1) = model_shorten(store, url, codes1);
    let c1 = a1->Finish_result->Ok_0.0;
    assert(store2.contains_key(c1) && store2[c1] == url);
    assert(has_code_for(store2, url));
    let c2 = code_for(store2, url);
    let (t0, b0) = shorten_start(url, true);
    let (t1, b1) = shorten_next(t0, ShortenEventV::Lookup(lookup_read(store2, url)), codes2[0]);
    lemma_drive_finished(store2, t1, b1, codes2.drop_first());
    if !has_code_for(store, url) {
        assert(a1->Finish_result->Ok_0.1);
        assert(store2 == store.insert(c1, url));
        if c2 != c1 {
            assert(store.contains_key(c2) && store[c2] == url);
        }
    }
}

proof fn lemma_collisions(store: StoreModel, url: Seq<char>, codes: Seq<Seq<char>>, n: nat, k: nat)
    requires
        k <= n,
        n < MAX_COLLISION_RETRIES,
        codes.len() > n + 1,
        forall|i: int| 0 <= i < n ==> store.contains_key(#[trigger] codes[i]),
        !store.contains_key(codes[n as int]),
    ensures
        drive_shorten(
            store,
            ShortenSessionV { url, phase: ShortenPhaseV::AwaitingInsert { attempt: k + 1, code: codes[k as int] } },
            ShortenActionV::Insert { code: codes[k as int], url },
            codes.subrange(k + 1 as int, codes.len() as int),
        ) == (
            store.insert(codes[n as int], url),
            ShortenActionV::Finish { result: Ok((codes[n as int], true)), cache: Some(mirror_of(codes[n as int], url)) },
        ),
    decreases n - k,
{
    let rest = codes.subrange(k + 1 as int, codes.len() as int);
    assert(rest[0] == codes[k + 1 as int]);
    assert(rest.drop_first() =~= codes.subrange(k + 2 as int, codes.len() as int));
    if k < n {
        lemma_collisions(store, url, codes, n, k + 1);
    } else {
        let code = codes[n as int];
        lemma_drive_finished(
            store.insert(code, url),
            shorten_done(),
            ShortenActionV::Finish { result: Ok((code, true)), cache: Some(mirror_of(code, url)) },
            rest.drop_first(),
        );
    }
}

proof fn lemma_exhaustion(store: StoreModel, url: Seq<char>, codes: Seq<Seq<char>>, k: nat)
    requires
        k < MAX_COLLISION_RETRIES,
        codes.len() > MAX_COLLISION_RETRIES,
        forall|i: int| 0 <= i < MAX_COLLISION_RETRIES ==> store.contains_key(#[trigger] codes[i]),
    ensures
        drive_shorten(
            store,
            ShortenSessionV { url, phase: ShortenPhaseV::AwaitingInsert { attempt: k + 1, code: codes[k as int] } },
            ShortenActionV::Insert { code: codes[k as int], url },
            codes.subrange(k + 1 as int, codes.len() as int),
        ) == (store, shorten_fail(ApiErrorV::TooManyCollisions)),
    decreases MAX_COLLISION_RETRIES - k,
{
    let rest = codes.subrange(k + 1 as int, codes.len() as int);
    assert(rest[0] == codes[k + 1 as int]);
    assert(rest.drop_first() =~= codes.subrange(k + 2 as int, codes.len() as int));
    if k + 1 < MAX_COLLISION_RETRIES {
        lemma_exhaustion(store, url, codes, k + 1);
    } else {
        lemma_drive_finished(store, shorten_done(), shorten_fail(ApiErrorV::TooManyCollisions), rest.drop_first());
    }
}

/// Collisions are retried with fresh codes: when the first `n` candidates
/// are taken and the next is free, with `n` below the bound, the request
/// makes exactly `n` retries and then creates the free code; the store gains
/// that one row and nothing else.
pub proof fn law_collisions_retried(store: StoreModel, url: Seq<char>, codes: Seq<Seq<char>>, n: nat)
    requires
        input_verdict(url) is None,
        !has_code_for(store, url),
        n < MAX_COLLISION_RETRIES,
        codes.len() > n + 1,
        forall|i: int| 0 <= i < n ==> store.contains_key(#[trigger] codes[i]),
        !store.contains_key(codes[n as int]),
    ensures
        model_shorten(store, url, codes) == (
            store.insert(codes[n as int], url),
            ShortenActionV::Finish { result: Ok((codes[n as int], true)), cache: Some(mirror_of(codes[n as int], url)) },
        ),
{
    assert(codes.drop_first() =~= codes.subrange(1, codes.len() as int));
    lemma_collisions(store, url, codes, n, 0);
}

/// When every candidate up to the bound is taken, the request gives up with
/// `TooManyCollisions` after exactly that many attempts, leaving the store
/// and the cache as they were.
pub proof fn law_collisions_exhausted(store: StoreModel, url: Seq<char>, codes: Seq<Seq<char>>)
    requires
        input_verdict(url) is None,
        !has_code_for(store, url),
        codes.len() > MAX_COLLISION_RETRIES,
        forall|i: int| 0 <= i < MAX_COLLISION_RETRIES ==> store.contains_key(#[trigger] codes[i]),
    ensures
        model_shorten(store, url, codes) == (store, shorten_fail(ApiErrorV::TooManyCollisions)),
{
    assert(codes.drop_first() =~= codes.subrange(1, codes.len() as int));
    lemma_exhaustion(store, url, codes, 0);
}

/// Resolving a code that neither the store nor the cache knows answers
/// `NotFound`, writes nothing to the cache and records no click.
pub proof fn law_unknown_code(store: StoreModel, cache: CacheModel, now: int, code: Seq<char>)
    requires
        !store.contains_key(code),
        !live(cache, cache_key_of(code), now),
    ensures
        model_resolve(store, cache, now, code) == redirect_fail(ApiErrorV::NotFound),
{
}

/// A redirect of a known code succeeds whatever becomes of its click: the
/// reply is decided before the click is recorded, and the click's outcome is
/// no input of the flow.
pub proof fn law_redirect_independent_of_click(store: StoreModel, cache: CacheModel, now: int, code: Seq<char>)
    requires
        store.contains_key(code),
        coherent(store, cache, now),
    ensures
        model_resolve(store, cache, now, code) matches RedirectActionV::Finish { result: Ok(u), click: Some(c), .. }
            && u == store[code] && c == code,
{
    if live(cache, cache_key_of(code), now) {
        assert(store[code] == cache[cache_key_of(code)].value);
    }
}

/// After a code is deleted, resolving it answers `NotFound` when its cache
/// entry was invalidated. When invalidation failed, the old entry may still
/// answer, but only while it is unexpired; at or after its expiry the answer
/// is `NotFound`.
pub proof fn law_delete_then_resolve(
    store: StoreModel,
    cache: CacheModel,
    now: int,
    code: Seq<char>,
    invalidated: bool,
)
    requires
        store.contains_key(code),
    ensures
        ({
            let d = delete_decision(code, Ok(Some(store[code])));
            let store2 = store.remove(code);
            let cache2 = if invalidated {
                cache.remove(d.invalidate->Some_0)
            } else {
                cache
            };
            let r = model_resolve(store2, cache2, now, code);
            &&& d.result == Ok::<Seq<char>, AdminError>(store[code])
            &&& invalidated ==> r == redirect_fail(ApiErrorV::NotFound)
            &&& r->Finish_result is Ok ==> !invalidated && live(cache, cache_key_of(code), now)
                && r->Finish_result->Ok_0 == cache[cache_key_of(code)].value
            &&& !live(cache, cache_key_of(code), now) ==> r == redirect_fail(ApiErrorV::NotFound)
        }),
{
}

/// Every write through the cache expires: the entry it leaves lives exactly
/// its time-to-live from the moment of writing, which for a mirrored mapping
/// is the configured window.
pub proof fn law_writes_expire(cache: CacheModel, code: Seq<char>, url: Seq<char>, now: int)
    ensures
        ({
            let w = mirror_of(code, url);
            let c2 = apply_write(cache, Some(w), now, true);
            &&& c2[cache_key_of(code)].expires_at == now + CACHE_TTL_SECS
            &&& forall|t: int| #[trigger] live(c2, cache_key_of(code), t) ==> t < now + CACHE_TTL_SECS
        }),
{
}

/// A request the rate limiter refuses is answered at once with
/// `RateLimited`: no store or cache action is issued and the session waits
/// for nothing further.
pub proof fn law_refused_requests_touch_nothing(url: Seq<char>, code: Seq<char>)
    ensures
        shorten_start(url, false) == (shorten_done(), shorten_fail(ApiErrorV::RateLimited)),
        forall|e: ShortenEventV| !#[trigger] shorten_accepts(shorten_done(), e),
        redirect_start(code, false) == (redirect_done(), redirect_fail(ApiErrorV::RateLimited)),
        forall|e: RedirectEventV| !#[trigger] redirect_accepts(redirect_done(), e),
{
}

} // verus!
