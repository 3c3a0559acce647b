use vstd::prelude::*;

verus! {

/// Why a platform bridge facade (account, updater, process) could not be had.
#[derive(Clone, Debug)]
pub enum BridgeFailure {
    /// The lock around the global OpenHarmony app instance is poisoned.
    AppLockPoisoned,
    /// The global OpenHarmony app instance is not installed yet.
    AppNotInitialized,
    /// The app refused to hand out the facade, with this reason.
    Unavailable(String),
}

/// The reason text reported for a bridge failure.
pub open spec fn failure_text(f: BridgeFailure) -> Seq<char> {
    match f {
        BridgeFailure::AppLockPoisoned => "OHOS APP mutex poisoned"@,
        BridgeFailure::AppNotInitialized => "OHOS APP not initialized"@,
        BridgeFailure::Unavailable(reason) => reason@,
    }
}

/// The reason text reported for a bridge failure: a fixed text when the app
/// instance is unusable, the app's own reason otherwise.
pub fn failure_reason(f: &BridgeFailure) -> (r: String)
    ensures
        r@ == failure_text(*f),
{
    match f {
        BridgeFailure::AppLockPoisoned => String::from_str("OHOS APP mutex poisoned"),
        BridgeFailure::AppNotInitialized => String::from_str("OHOS APP not initialized"),
        BridgeFailure::Unavailable(reason) => reason.clone(),
    }
}

} // verus!
