//! Administrative operations: the credential check, and what to answer and
//! which cache entries to drop once the store has listed or deleted mappings.
use crate::cache::{cache_key, cache_key_of, opt_text};
use crate::text::{decimal, push_decimal, same_text};
use vstd::prelude::*;
use vstd::string::*;

verus! {

/// Why an administrative request failed.
#[derive(Debug, Clone, Copy, PartialEq, Eq, Structural)]
pub enum AdminError {
    /// The credentials do not match the configured ones.
    Unauthorized,
    /// No mapping exists for the code.
    NotFound,
    /// The store failed.
    Internal,
}

impl AdminError {
    /// The HTTP status the error is answered with.
    pub fn status(&self) -> (r: u16)
        ensures
            r == match *self {
                AdminError::Unauthorized => 401u16,
                AdminError::NotFound => 404u16,
                AdminError::Internal => 500u16,
            },
    {
        match self {
            AdminError::Unauthorized => 401,
            AdminError::NotFound => 404,
            AdminError::Internal => 500,
        }
    }
}

/// Accepts the request exactly when both the user name and the password
/// equal the configured ones.
pub fn authenticate(
    input_username: &str,
    input_password: &str,
    admin_username: &str,
    admin_password: &str,
) -> (r: Result<(), AdminError>)
    ensures
        r is Ok <==> (input_username@ == admin_username@ && input_password@ == admin_password@),
        r is Err ==> r == Err::<(), AdminError>(AdminError::Unauthorized),
{
    let user_ok = same_text(input_username, admin_username);
    let password_ok = same_text(input_password, admin_password);
    if user_ok && password_ok {
        Ok(())
    } else {
        Err(AdminError::Unauthorized)
    }
}

/// The answer to a listing: the store's rows, or an internal error.
pub fn after_list(rows: Result<Vec<(String, String)>, String>) -> (r: Result<Vec<(String, String)>, AdminError>)
    ensures
        match rows {
            Ok(v) => r == Ok::<Vec<(String, String)>, AdminError>(v),
            Err(_) => r == Err::<Vec<(String, String)>, AdminError>(AdminError::Internal),
        },
{
    match rows {
        Ok(v) => Ok(v),
        Err(_) => Err(AdminError::Internal),
    }
}

/// The answer to deleting one code, and the cache key to invalidate.
pub struct DeleteOutcome {
    pub result: Result<String, AdminError>,
    pub invalidate: Option<String>,
}

/// The abstract value of a `DeleteOutcome`.
pub struct DeleteOutcomeV {
    pub result: Result<Seq<char>, AdminError>,
    pub invalidate: Option<Seq<char>>,
}

impl View for DeleteOutcome {
    type V = DeleteOutcomeV;

    open spec fn view(&self) -> DeleteOutcomeV {
        DeleteOutcomeV {
            result: match self.result {
                Ok(u) => Ok(u@),
                Err(e) => Err(e),
            },
            invalidate: opt_text(self.invalidate),
        }
    }
}

/// What deleting `code` answers, given what the store's delete returned:
/// the removed URL and the code's cache key to invalidate; `NotFound` when
/// nothing was removed; an internal error when the store failed.
pub open spec fn delete_decision(code: Seq<char>, removed: Result<Option<Seq<char>>, Seq<char>>) -> DeleteOutcomeV {
    match removed {
        Ok(Some(url)) => DeleteOutcomeV { result: Ok(url), invalidate: Some(cache_key_of(code)) },
        Ok(None) => DeleteOutcomeV { result: Err(AdminError::NotFound), invalidate: None },
        Err(_) => DeleteOutcomeV { result: Err(AdminError::Internal), invalidate: None },
    }
}

/// Decides the answer to deleting `code` from what the store returned.
pub fn after_delete(code: &str, removed: Result<Option<String>, String>) -> (r: DeleteOutcome)
    ensures
        r@ == delete_decision(code@, crate::cache::read_view(removed)),
{
    match removed {
        Ok(Some(url)) => DeleteOutcome { result: Ok(url), invalidate: Some(cache_key(code)) },
        Ok(None) => DeleteOutcome { result: Err(AdminError::NotFound), invalidate: None },
        Err(_) => DeleteOutcome { result: Err(AdminError::Internal), invalidate: None },
    }
}

/// The answer to deleting every mapping, and whether to flush the cache.
pub struct DeleteAllOutcome {
    pub result: Result<String, AdminError>,
    pub flush: bool,
}

/// The report of a bulk delete that removed `n` rows.
pub open spec fn deleted_report(n: nat) -> Seq<char> {
    "Deleted "@ + decimal(n) + " rows"@
}

/// Decides the answer to deleting every mapping from what the store
/// returned: the number of rows removed, or a failure.
pub fn after_delete_all(removed: Result<u64, String>) -> (r: DeleteAllOutcome)
    ensures
        match removed {
            Ok(n) => r.flush && (r.result matches Ok(m) && m@ == deleted_report(n as nat)),
            Err(_) => !r.flush && r.result == Err::<String, AdminError>(AdminError::Internal),
        },
{
    match removed {
        Ok(n) => {
            let mut m = String::from_str("Deleted ");
            push_decimal(&mut m, n);
            m.append(" rows");
            DeleteAllOutcome { result: Ok(m), flush: true }
        },
        Err(_) => DeleteAllOutcome { result: Err(AdminError::Internal), flush: false },
    }
}

} // verus!
