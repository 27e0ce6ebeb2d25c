//! The redirect flow as a state machine: cache first, then the store. A hit
//! on either answers at once; the click is recorded on the side and its
//! outcome is never fed back, so it cannot change the reply.
use crate::cache::{cache_key, cache_key_of, mirror, mirror_of, read_view, CacheWrite, CacheWriteV};
use crate::error::{ApiError, ApiErrorV};
use vstd::prelude::*;

verus! {

/// Where a redirect request stands.
pub enum RedirectPhase {
    AwaitingCache,
    AwaitingStore,
    Finished,
}

/// One redirect request in progress.
pub struct RedirectSession {
    pub code: String,
    pub phase: RedirectPhase,
}

/// What the caller hands back after performing an action. A cache failure
/// is handed back as a miss would be, or as `Err`: both lead to the store.
pub enum RedirectEvent {
    Cache(Result<Option<String>, String>),
    Store(Result<Option<String>, String>),
}

/// What the caller is to do next.
pub enum RedirectAction {
    /// Read the cache under `key`.
    CacheGet { key: String },
    /// Look the code up in the store.
    FindUrlByCode { code: String },
    /// Reply with `result`; in the background attempt `cache` and record a
    /// click for `click`, ignoring their failures.
    Finish {
        result: Result<String, ApiError>,
        cache: Option<CacheWrite>,
        click: Option<String>,
    },
}

/// The abstract value of a `RedirectPhase`.
pub enum RedirectPhaseV {
    AwaitingCache,
    AwaitingStore,
    Finished,
}

/// The abstract value of a `RedirectSession`.
pub struct RedirectSessionV {
    pub code: Seq<char>,
    pub phase: RedirectPhaseV,
}

/// The abstract value of a `RedirectEvent`.
pub enum RedirectEventV {
    Cache(Result<Option<Seq<char>>, Seq<char>>),
    Store(Result<Option<Seq<char>>, Seq<char>>),
}

/// The abstract value of a `RedirectAction`.
pub enum RedirectActionV {
    CacheGet { key: Seq<char> },
    FindUrlByCode { code: Seq<char> },
    Finish {
        result: Result<Seq<char>, ApiErrorV>,
        cache: Option<CacheWriteV>,
        click: Option<Seq<char>>,
    },
}

impl View for RedirectPhase {
    type V = RedirectPhaseV;

    open spec fn view(&self) -> RedirectPhaseV {
        match self {
            RedirectPhase::AwaitingCache => RedirectPhaseV::AwaitingCache,
            RedirectPhase::AwaitingStore => RedirectPhaseV::AwaitingStore,
            RedirectPhase::Finished => RedirectPhaseV::Finished,
        }
    }
}

impl View for RedirectSession {
    type V = RedirectSessionV;

    open spec fn view(&self) -> RedirectSessionV {
        RedirectSessionV { code: self.code@, phase: self.phase@ }
    }
}

impl View for RedirectEvent {
    type V = RedirectEventV;

    open spec fn view(&self) -> RedirectEventV {
        match self {
            RedirectEvent::Cache(r) => RedirectEventV::Cache(read_view(*r)),
            RedirectEvent::Store(r) => RedirectEventV::Store(read_view(*r)),
        }
    }
}

impl View for RedirectAction {
    type V = RedirectActionV;

    open spec fn view(&self) -> RedirectActionV {
        match self {
            RedirectAction::CacheGet { key } => RedirectActionV::CacheGet { key: key@ },
            RedirectAction::FindUrlByCode { code } => RedirectActionV::FindUrlByCode { code: code@ },
            RedirectAction::Finish { result, cache, click } => RedirectActionV::Finish {
                result: match result {
                    Ok(u) => Ok(u@),
                    Err(e) => Err(e@),
                },
                cache: match cache {
                    Some(w) => Some(w@),
                    None => None,
                },
                click: match click {
                    Some(c) => Some(c@),
                    None => None,
                },
            },
        }
    }
}

/// A session that has replied.
pub open spec fn redirect_done() -> RedirectSessionV {
    RedirectSessionV { code: Seq::empty(), phase: RedirectPhaseV::Finished }
}

/// The reply `Err(e)`, with no cache write and no click.
pub open spec fn redirect_fail(e: ApiErrorV) -> RedirectActionV {
    RedirectActionV::Finish { result: Err(e), cache: None, click: None }
}

/// How a request for `code` begins; `admitted` is the rate limiter's
/// verdict. A refused request goes no further: its only action is the reply.
pub open spec fn redirect_start(code: Seq<char>, admitted: bool) -> (RedirectSessionV, RedirectActionV) {
    if !admitted {
        (redirect_done(), redirect_fail(ApiErrorV::RateLimited))
    } else {
        (
            RedirectSessionV { code, phase: RedirectPhaseV::AwaitingCache },
            RedirectActionV::CacheGet { key: cache_key_of(code) },
        )
    }
}

/// Whether a session in state `s` is waiting for event `e`.
pub open spec fn redirect_accepts(s: RedirectSessionV, e: RedirectEventV) -> bool {
    match (s.phase, e) {
        (RedirectPhaseV::AwaitingCache, RedirectEventV::Cache(_)) => true,
        (RedirectPhaseV::AwaitingStore, RedirectEventV::Store(_)) => true,
        _ => false,
    }
}

/// The next state and action of a session in state `s` on event `e`.
pub open spec fn redirect_next(s: RedirectSessionV, e: RedirectEventV) -> (RedirectSessionV, RedirectActionV) {
    match e {
        RedirectEventV::Cache(Ok(Some(url))) => (
            redirect_done(),
            RedirectActionV::Finish { result: Ok(url), cache: None, click: Some(s.code) },
        ),
        RedirectEventV::Cache(_) => (
            RedirectSessionV { code: s.code, phase: RedirectPhaseV::AwaitingStore },
            RedirectActionV::FindUrlByCode { code: s.code },
        ),
        RedirectEventV::Store(Ok(Some(url))) => (
            redirect_done(),
            RedirectActionV::Finish {
                result: Ok(url),
                cache: Some(mirror_of(s.code, url)),
                click: Some(s.code),
            },
        ),
        RedirectEventV::Store(Ok(None)) => (redirect_done(), redirect_fail(ApiErrorV::NotFound)),
        RedirectEventV::Store(Err(m)) => (redirect_done(), redirect_fail(ApiErrorV::Database(m))),
    }
}

impl RedirectSession {
    fn finished() -> (s: RedirectSession)
        ensures
            s@ == redirect_done(),
    {
        RedirectSession { code: String::new(), phase: RedirectPhase::Finished }
    }

    fn fail(e: ApiError) -> (a: RedirectAction)
        ensures
            a@ == redirect_fail(e@),
    {
        RedirectAction::Finish { result: Err(e), cache: None, click: None }
    }

    /// Starts a request for `code`; `admitted` is the rate limiter's verdict.
    pub fn start(code: String, admitted: bool) -> (r: (RedirectSession, RedirectAction))
        ensures
            (r.0@, r.1@) == redirect_start(code@, admitted),
    {
        if !admitted {
            return (Self::finished(), Self::fail(ApiError::RateLimited));
        }
        let key = cache_key(code.as_str());
        (RedirectSession { code, phase: RedirectPhase::AwaitingCache }, RedirectAction::CacheGet { key })
    }

    /// Whether the session is waiting for `event`.
    pub fn accepts(&self, event: &RedirectEvent) -> (r: bool)
        ensures
            r == redirect_accepts(self@, event@),
    {
        match (&self.phase, event) {
            (RedirectPhase::AwaitingCache, RedirectEvent::Cache(_)) => true,
            (RedirectPhase::AwaitingStore, RedirectEvent::Store(_)) => true,
            _ => false,
        }
    }

    /// Takes `event` in and says what to do.
    pub fn step(&mut self, event: RedirectEvent) -> (a: RedirectAction)
        requires
            redirect_accepts(old(self)@, event@),
        ensures
            (final(self)@, a@) == redirect_next(old(self)@, event@),
    {
        let code = self.code.clone();
        match event {
            RedirectEvent::Cache(Ok(Some(url))) => {
                *self = Self::finished();
                RedirectAction::Finish { result: Ok(url), cache: None, click: Some(code) }
            },
            RedirectEvent::Cache(_) => {
                self.phase = RedirectPhase::AwaitingStore;
                RedirectAction::FindUrlByCode { code }
            },
            RedirectEvent::Store(Ok(Some(url))) => {
                *self = Self::finished();
                let cache = mirror(code.as_str(), url.as_str());
                RedirectAction::Finish { result: Ok(url), cache: Some(cache), click: Some(code) }
            },
            RedirectEvent::Store(Ok(None)) => {
                *self = Self::finished();
                Self::fail(ApiError::NotFound)
            },
            RedirectEvent::Store(Err(m)) => {
                *self = Self::finished();
                Self::fail(ApiError::Database(m))
            },
        }
    }
}

} // verus!
