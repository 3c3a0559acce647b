use ohos_plugins::account::{account_outcome, account_unavailable, AccountError};
use ohos_plugins::bridge::{failure_reason, BridgeFailure};
use ohos_plugins::process::{restart_action, RestartAction, RestartOutcome};
use ohos_plugins::screenshot::{capture_webview, pick_color, Builder, Error};

#[test]
fn restart_decisions() {
    assert_eq!(restart_action(&RestartOutcome::Returned(0)), RestartAction::AwaitTermination);
    assert_eq!(restart_action(&RestartOutcome::Returned(3)), RestartAction::Exit(0));
    assert_eq!(restart_action(&RestartOutcome::Returned(-1)), RestartAction::Exit(0));
    assert_eq!(restart_action(&RestartOutcome::Failed("x".to_string())), RestartAction::Exit(0));
    assert_eq!(restart_action(&RestartOutcome::BridgeUnavailable), RestartAction::Exit(0));
}

#[test]
fn screenshot_unsupported() {
    assert_eq!(capture_webview().unwrap_err(), Error::Unsupported);
    assert_eq!(pick_color(3, 4).unwrap_err(), Error::Unsupported);
    assert_eq!(Builder::new(), Builder);
}

#[test]
fn account_errors() {
    let e = AccountError::from_napi_reason("user cancelled");
    assert_eq!(e.reason, "user cancelled");
    assert_eq!(account_unavailable(&BridgeFailure::AppNotInitialized).reason, "OHOS APP not initialized");
    assert_eq!(account_outcome::<u32>(Ok(7)).unwrap(), 7);
    assert_eq!(account_outcome::<()>(Err("denied".to_string())).unwrap_err().reason, "denied");
}

#[test]
fn bridge_reasons() {
    assert_eq!(failure_reason(&BridgeFailure::AppLockPoisoned), "OHOS APP mutex poisoned");
    assert_eq!(failure_reason(&BridgeFailure::Unavailable("r".to_string())), "r");
}
