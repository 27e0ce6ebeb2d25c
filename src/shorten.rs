//! The shorten flow as a state machine: validate, look the URL up, then try
//! fresh codes until one is inserted or the bound on attempts is reached.
//! The caller performs each action against the store and hands back what
//! came of it; cache writes are best effort and their outcome is never fed in.
use crate::cache::{mirror, mirror_of, read_view, CacheWrite, CacheWriteV};
use crate::codegen::{fresh_code, is_code};
use crate::error::{ApiError, ApiErrorV};
use crate::validate::{input_verdict, validate_shorten_input};
use vstd::prelude::*;

verus! {

/// Most insert attempts one shorten request makes before giving up.
pub const MAX_COLLISION_RETRIES: usize = 5;

/// Where a shorten request stands.
pub enum ShortenPhase {
    /// Waiting for the store to say whether the URL already has a code.
    AwaitingLookup,
    /// Waiting for the outcome of inserting `code`, the `attempt`-th try.
    AwaitingInsert { attempt: usize, code: String },
    /// The reply has been decided.
    Finished,
}

/// One shorten request in progress.
pub struct ShortenSession {
    pub url: String,
    pub phase: ShortenPhase,
}

/// What came of an insert into the store.
pub enum InsertOutcome {
    Inserted,
    /// The code is already taken: the store's uniqueness rule refused it.
    Collision,
    /// Any other failure, described.
    Failed(String),
}

/// What the caller hands back after performing an action.
pub enum ShortenEvent {
    /// Result of looking up an existing code for the URL.
    Lookup(Result<Option<String>, String>),
    /// Result of an insert.
    Insert(InsertOutcome),
}

/// A successful reply: the code, and whether it was created by this request.
pub struct Shortened {
    pub code: String,
    pub created: bool,
}

impl Shortened {
    /// The HTTP status of the reply: 201 for a new code, 200 for an
    /// existing one.
    pub fn status(&self) -> (r: u16)
        ensures
            r == if self.created {
                201u16
            } else {
                200u16
            },
    {
        if self.created {
            201
        } else {
            200
        }
    }
}

/// The body of a shorten request.
pub struct ShortenPayload {
    /// The URL to shorten.
    pub url: String,
}

/// The body of a successful shorten reply.
pub struct ShortenResponse {
    /// The short code now mapped to the URL.
    pub code: String,
}

/// What the caller is to do next.
pub enum ShortenAction {
    /// Look up a code already mapped to `url`.
    FindCodeByUrl { url: String },
    /// Atomically insert the mapping from `code` to `url`.
    Insert { code: String, url: String },
    /// Reply with `result`; first attempt `cache`, ignoring its failure.
    Finish { result: Result<Shortened, ApiError>, cache: Option<CacheWrite> },
}

/// The abstract value of a `ShortenPhase`.
pub enum ShortenPhaseV {
    AwaitingLookup,
    AwaitingInsert { attempt: nat, code: Seq<char> },
    Finished,
}

/// The abstract value of a `ShortenSession`.
pub struct ShortenSessionV {
    pub url: Seq<char>,
    pub phase: ShortenPhaseV,
}

/// The abstract value of an `InsertOutcome`.
pub enum InsertOutcomeV {
    Inserted,
    Collision,
    Failed(Seq<char>),
}

/// The abstract value of a `ShortenEvent`.
pub enum ShortenEventV {
    Lookup(Result<Option<Seq<char>>, Seq<char>>),
    Insert(InsertOutcomeV),
}

/// The abstract value of a `ShortenAction`; a reply is its code and
/// whether it was created.
pub enum ShortenActionV {
    FindCodeByUrl { url: Seq<char> },
    Insert { code: Seq<char>, url: Seq<char> },
    Finish { result: Result<(Seq<char>, bool), ApiErrorV>, cache: Option<CacheWriteV> },
}

impl View for ShortenPhase {
    type V = ShortenPhaseV;

    open spec fn view(&self) -> ShortenPhaseV {
        match self {
            ShortenPhase::AwaitingLookup => ShortenPhaseV::AwaitingLookup,
            ShortenPhase::AwaitingInsert { attempt, code } => ShortenPhaseV::AwaitingInsert {
                attempt: *attempt as nat,
                code: code@,
            },
            ShortenPhase::Finished => ShortenPhaseV::Finished,
        }
    }
}

impl View for ShortenSession {
    type V = ShortenSessionV;

    open spec fn view(&self) -> ShortenSessionV {
        ShortenSessionV { url: self.url@, phase: self.phase@ }
    }
}

impl View for InsertOutcome {
    type V = InsertOutcomeV;

    open spec fn view(&self) -> InsertOutcomeV {
        match self {
            InsertOutcome::Inserted => InsertOutcomeV::Inserted,
            InsertOutcome::Collision => InsertOutcomeV::Collision,
            InsertOutcome::Failed(m) => InsertOutcomeV::Failed(m@),
        }
    }
}

impl View for ShortenEvent {
    type V = ShortenEventV;

    open spec fn view(&self) -> ShortenEventV {
        match self {
            ShortenEvent::Lookup(r) => ShortenEventV::Lookup(read_view(*r)),
            ShortenEvent::Insert(o) => ShortenEventV::Insert(o@),
        }
    }
}

impl View for ShortenAction {
    type V = ShortenActionV;

    open spec fn view(&self) -> ShortenActionV {
        match self {
            ShortenAction::FindCodeByUrl { url } => ShortenActionV::FindCodeByUrl { url: url@ },
            ShortenAction::Insert { code, url } => ShortenActionV::Insert { code: code@, url: url@ },
            ShortenAction::Finish { result, cache } => ShortenActionV::Finish {
                result: match result {
                    Ok(s) => Ok((s.code@, s.created)),
                    Err(e) => Err(e@),
                },
                cache: match cache {
                    Some(w) => Some(w@),
                    None => None,
                },
            },
        }
    }
}

/// A session that has replied.
pub open spec fn shorten_done() -> ShortenSessionV {
    ShortenSessionV { url: Seq::empty(), phase: ShortenPhaseV::Finished }
}

/// The reply `Err(e)`, with nothing written to the cache.
pub open spec fn shorten_fail(e: ApiErrorV) -> ShortenActionV {
    ShortenActionV::Finish { result: Err(e), cache: None }
}

/// How a request for `url` begins; `admitted` is the rate limiter's verdict.
/// A refused request goes no further: its only action is the reply.
pub open spec fn shorten_start(url: Seq<char>, admitted: bool) -> (ShortenSessionV, ShortenActionV) {
    if !admitted {
        (shorten_done(), shorten_fail(ApiErrorV::RateLimited))
    } else {
        match input_verdict(url) {
            Some(e) => (shorten_done(), shorten_fail(e)),
            None => (
                ShortenSessionV { url, phase: ShortenPhaseV::AwaitingLookup },
                ShortenActionV::FindCodeByUrl { url },
            ),
        }
    }
}

/// Whether a session in state `s` is waiting for event `e`.
pub open spec fn shorten_accepts(s: ShortenSessionV, e: ShortenEventV) -> bool {
    match (s.phase, e) {
        (ShortenPhaseV::AwaitingLookup, ShortenEventV::Lookup(_)) => true,
        (ShortenPhaseV::AwaitingInsert { .. }, ShortenEventV::Insert(_)) => true,
        _ => false,
    }
}

/// The next state and action of a session in state `s` on event `e`, where
/// `fresh` is the candidate code for an insert, if one is needed.
pub open spec fn shorten_next(s: ShortenSessionV, e: ShortenEventV, fresh: Seq<char>) -> (ShortenSessionV, ShortenActionV) {
    match e {
        ShortenEventV::Lookup(Err(m)) => (shorten_done(), shorten_fail(ApiErrorV::Database(m))),
        ShortenEventV::Lookup(Ok(Some(code))) => (
            shorten_done(),
            ShortenActionV::Finish { result: Ok((code, false)), cache: Some(mirror_of(code, s.url)) },
        ),
        ShortenEventV::Lookup(Ok(None)) => (
            ShortenSessionV {
                url: s.url,
                phase: ShortenPhaseV::AwaitingInsert { attempt: 1, code: fresh },
            },
            ShortenActionV::Insert { code: fresh, url: s.url },
        ),
        ShortenEventV::Insert(o) => {
            let attempt = s.phase->AwaitingInsert_attempt;
            let code = s.phase->AwaitingInsert_code;
            match o {
                InsertOutcomeV::Inserted => (
                    shorten_done(),
                    ShortenActionV::Finish {
                        result: Ok((code, true)),
                        cache: Some(mirror_of(code, s.url)),
                    },
                ),
                InsertOutcomeV::Collision => if attempt < MAX_COLLISION_RETRIES {
                    (
                        ShortenSessionV {
                            url: s.url,
                            phase: ShortenPhaseV::AwaitingInsert { attempt: attempt + 1, code: fresh },
                        },
                        ShortenActionV::Insert { code: fresh, url: s.url },
                    )
                } else {
                    (shorten_done(), shorten_fail(ApiErrorV::TooManyCollisions))
                },
                InsertOutcomeV::Failed(m) => (shorten_done(), shorten_fail(ApiErrorV::Database(m))),
            }
        },
    }
}

impl ShortenSession {
    fn finished() -> (s: ShortenSession)
        ensures
            s@ == shorten_done(),
    {
        ShortenSession { url: String::new(), phase: ShortenPhase::Finished }
    }

    fn fail(e: ApiError) -> (a: ShortenAction)
        ensures
            a@ == shorten_fail(e@),
    {
        ShortenAction::Finish { result: Err(e), cache: None }
    }

    /// Starts a request for `url`; `admitted` is the rate limiter's verdict.
    pub fn start(url: String, admitted: bool) -> (r: (ShortenSession, ShortenAction))
        ensures
            (r.0@, r.1@) == shorten_start(url@, admitted),
    {
        if !admitted {
            return (Self::finished(), Self::fail(ApiError::RateLimited));
        }
        match validate_shorten_input(url.as_str()) {
            Err(e) => (Self::finished(), Self::fail(e)),
            Ok(()) => {
                let lookup = url.clone();
                (
                    ShortenSession { url, phase: ShortenPhase::AwaitingLookup },
                    ShortenAction::FindCodeByUrl { url: lookup },
                )
            },
        }
    }

    /// Whether the session is waiting for `event`.
    pub fn accepts(&self, event: &ShortenEvent) -> (r: bool)
        ensures
            r == shorten_accepts(self@, event@),
    {
        match (&self.phase, event) {
            (ShortenPhase::AwaitingLookup, ShortenEvent::Lookup(_)) => true,
            (ShortenPhase::AwaitingInsert { .. }, ShortenEvent::Insert(_)) => true,
            _ => false,
        }
    }

    /// Takes `event` in, with `fresh` as the candidate code should an insert
    /// be next, and says what to do.
    pub fn step(&mut self, event: ShortenEvent, fresh: String) -> (a: ShortenAction)
        requires
            shorten_accepts(old(self)@, event@),
        ensures
            (final(self)@, a@) == shorten_next(old(self)@, event@, fresh@),
    {
        let url = self.url.clone();
        match event {
            ShortenEvent::Lookup(Err(m)) => {
                *self = Self::finished();
                Self::fail(ApiError::Database(m))
            },
            ShortenEvent::Lookup(Ok(Some(code))) => {
                *self = Self::finished();
                let cache = mirror(code.as_str(), url.as_str());
                ShortenAction::Finish {
                    result: Ok(Shortened { code, created: false }),
                    cache: Some(cache),
                }
            },
            ShortenEvent::Lookup(Ok(None)) => {
                let code = fresh.clone();
                self.phase = ShortenPhase::AwaitingInsert { attempt: 1, code: fresh };
                ShortenAction::Insert { code, url }
            },
            ShortenEvent::Insert(outcome) => {
                let (attempt, code) = match &self.phase {
                    ShortenPhase::AwaitingInsert { attempt, code } => (*attempt, code.clone()),
                    _ => (0, String::new()),
                };
                match outcome {
                    InsertOutcome::Inserted => {
                        *self = Self::finished();
                        let cache = mirror(code.as_str(), url.as_str());
                        ShortenAction::Finish {
                            result: Ok(Shortened { code, created: true }),
                            cache: Some(cache),
                        }
                    },
                    InsertOutcome::Collision => {
                        if attempt < MAX_COLLISION_RETRIES {
                            let next = fresh.clone();
                            self.phase = ShortenPhase::AwaitingInsert {
                                attempt: attempt + 1,
                                code: fresh,
                            };
                            ShortenAction::Insert { code: next, url }
                        } else {
                            *self = Self::finished();
                            Self::fail(ApiError::TooManyCollisions)
                        }
                    },
                    InsertOutcome::Failed(m) => {
                        *self = Self::finished();
                        Self::fail(ApiError::Database(m))
                    },
                }
            },
        }
    }

    /// Takes `event` in and says what to do, drawing a fresh random code for
    /// the insert that may come next.
    pub fn advance(&mut self, event: ShortenEvent) -> (a: ShortenAction)
        requires
            shorten_accepts(old(self)@, event@),
        ensures
            exists|c: Seq<char>|
                is_code(c) && (final(self)@, a@) == #[trigger] shorten_next(old(self)@, event@, c),
    {
        let fresh = fresh_code();
        self.step(event, fresh)
    }
}

} // verus!
