use vstd::prelude::*;
use crate::bridge::{failure_reason, failure_text, BridgeFailure};

verus! {

/// A failed Huawei account operation, carrying the platform's reason text.
#[derive(Clone, Debug)]
pub struct AccountError {
    pub reason: String,
}

impl AccountError {
    /// The error for a reason reported by the platform (N-API) layer.
    pub fn from_napi_reason(reason: &str) -> (e: AccountError)
        ensures
            e.reason@ == reason@,
    {
        AccountError { reason: reason.to_string() }
    }
}

/// The error reported when the account facade could not be had.
pub fn account_unavailable(f: &BridgeFailure) -> (e: AccountError)
    ensures
        e.reason@ == failure_text(*f),
{
    let reason = failure_reason(f);
    AccountError::from_napi_reason(reason.as_str())
}

/// The outcome of a login, silent login or logout: the platform's answer,
/// with a failure turned into an [`AccountError`] carrying its reason.
pub fn account_outcome<T>(reply: Result<T, String>) -> (r: Result<T, AccountError>)
    ensures
        match reply {
            Ok(v) => r matches Ok(w) && w == v,
            Err(reason) => r matches Err(e) && e.reason@ == reason@,
        },
{
    match reply {
        Ok(v) => Ok(v),
        Err(reason) => Err(AccountError::from_napi_reason(reason.as_str())),
    }
}

} // verus!
