use ohos_plugins::bridge::BridgeFailure;
use ohos_plugins::updater::{
    check_app_gallery_update, no_update_info, reported_version, show_app_gallery_update_dialog,
    updater_unavailable, Error, UpdateCheck, UpdateCheckReply,
};

fn reply(current: &str, version: Option<&str>) -> UpdateCheckReply {
    UpdateCheckReply { current_version: current.to_string(), version: version.map(|v| v.to_string()) }
}

fn available(r: Result<UpdateCheck, Error>) -> ohos_plugins::updater::AppGalleryUpdateInfo {
    match r {
        Ok(UpdateCheck::Available(info)) => info,
        other => panic!("unexpected {:?}", other),
    }
}

#[test]
fn version_filtering() {
    assert_eq!(reported_version(Some("2.0.0".to_string())), Some("2.0.0".to_string()));
    assert_eq!(reported_version(Some("unknown".to_string())), None);
    assert_eq!(reported_version(Some(String::new())), None);
    assert_eq!(reported_version(None), None);
    assert_eq!(reported_version(Some("Unknown".to_string())), Some("Unknown".to_string()));
}

#[test]
fn no_update_uses_package_version() {
    assert!(matches!(check_app_gallery_update(Ok(None)), Ok(UpdateCheck::NoUpdate)));
    let info = no_update_info("1.2.3".to_string());
    assert!(!info.available);
    assert_eq!(info.current_version, "1.2.3");
    assert_eq!(info.version, None);
}

#[test]
fn update_available() {
    let info = available(check_app_gallery_update(Ok(Some(reply("1.0.0", Some("1.1.0"))))));
    assert!(info.available);
    assert_eq!(info.current_version, "1.0.0");
    assert_eq!(info.version, Some("1.1.0".to_string()));
    let info = available(check_app_gallery_update(Ok(Some(reply("1.0.0", Some("unknown"))))));
    assert!(info.available);
    assert_eq!(info.version, None);
}

#[test]
fn check_failure_is_network_error() {
    match check_app_gallery_update(Err("timeout".to_string())) {
        Err(Error::Network(m)) => assert_eq!(m, "timeout"),
        other => panic!("unexpected {:?}", other),
    }
}

#[test]
fn dialog_results() {
    assert!(show_app_gallery_update_dialog(Ok(())).is_ok());
    match show_app_gallery_update_dialog(Err("cancelled".to_string())) {
        Err(Error::Network(m)) => assert_eq!(m, "cancelled"),
        other => panic!("unexpected {:?}", other),
    }
}

#[test]
fn bridge_failures() {
    let Error::Network(m) = updater_unavailable(&BridgeFailure::AppLockPoisoned);
    assert_eq!(m, "OHOS APP mutex poisoned");
    let Error::Network(m) = updater_unavailable(&BridgeFailure::AppNotInitialized);
    assert_eq!(m, "OHOS APP not initialized");
    let Error::Network(m) = updater_unavailable(&BridgeFailure::Unavailable("no bridge".to_string()));
    assert_eq!(m, "no bridge");
}
