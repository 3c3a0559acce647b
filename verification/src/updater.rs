use vstd::prelude::*;
use crate::bridge::{failure_reason, failure_text, BridgeFailure};

verus! {

/// Errors of the AppGallery update commands.
#[derive(Clone, Debug)]
pub enum Error {
    /// The update service could not be reached or failed, with its reason.
    Network(String),
}

/// What an AppGallery update check found: whether an update is available, the
/// installed version, and the new version where AppGallery reports a usable one.
#[derive(Clone, Debug)]
pub struct AppGalleryUpdateInfo {
    pub available: bool,
    pub current_version: String,
    pub version: Option<String>,
}

/// The updater bridge's report of an available update.
#[derive(Clone, Debug)]
pub struct UpdateCheckReply {
    pub current_version: String,
    /// The new version; on older platform versions it is absent or the
    /// placeholder `unknown`.
    pub version: Option<String>,
}

/// The new version worth reporting: absent where the bridge gave none, an
/// empty one, or the placeholder `unknown`.
pub open spec fn usable_version(v: Option<String>) -> Option<Seq<char>> {
    match v {
        Some(s) => if s@.len() > 0 && s@ != "unknown"@ {
            Some(s@)
        } else {
            None
        },
        None => None,
    }
}

/// The view of an optional string.
pub open spec fn opt_view(v: Option<String>) -> Option<Seq<char>> {
    match v {
        Some(s) => Some(s@),
        None => None,
    }
}

/// Keeps the reported new version only where it is usable.
pub fn reported_version(version: Option<String>) -> (r: Option<String>)
    ensures
        opt_view(r) == usable_version(version),
{
    match version {
        Some(v) => {
            let unknown = String::from_str("unknown");
            if v.as_str().is_empty() || v == unknown {
                None
            } else {
                Some(v)
            }
        },
        None => None,
    }
}

/// The error reported when the updater bridge could not be had.
pub fn updater_unavailable(f: &BridgeFailure) -> (e: Error)
    ensures
        e matches Error::Network(reason) && reason@ == failure_text(*f),
{
    Error::Network(failure_reason(f))
}

/// What an AppGallery update check found, before the installed version is
/// known in the no-update case.
#[derive(Clone, Debug)]
pub enum UpdateCheck {
    /// AppGallery reports no update; the installed version is then the
    /// package's own (see [`no_update_info`]).
    NoUpdate,
    /// AppGallery reports an update, with both versions.
    Available(AppGalleryUpdateInfo),
}

/// The result of an AppGallery update check, from the bridge's answer alone.
/// With an update, the versions come from AppGallery; with none, only then is
/// the package's version read, by the caller, for [`no_update_info`]; a failed
/// check is a network error carrying its reason.
pub fn check_app_gallery_update(reply: Result<Option<UpdateCheckReply>, String>) -> (r: Result<
    UpdateCheck,
    Error,
>)
    ensures
        match reply {
            Ok(None) => r matches Ok(UpdateCheck::NoUpdate),
            Ok(Some(u)) => r matches Ok(UpdateCheck::Available(info)) && info.available
                && info.current_version@ == u.current_version@ && opt_view(info.version)
                == usable_version(u.version),
            Err(reason) => r matches Err(Error::Network(m)) && m@ == reason@,
        },
{
    match reply {
        Ok(None) => Ok(UpdateCheck::NoUpdate),
        Ok(Some(u)) => Ok(
            UpdateCheck::Available(
                AppGalleryUpdateInfo {
                    available: true,
                    current_version: u.current_version,
                    version: reported_version(u.version),
                },
            ),
        ),
        Err(reason) => Err(Error::Network(reason)),
    }
}

/// The check result when AppGallery reports no update: not available, the
/// installed version being the package's own, no new version.
pub fn no_update_info(package_version: String) -> (info: AppGalleryUpdateInfo)
    ensures
        !info.available,
        info.current_version@ == package_version@,
        info.version is None,
{
    AppGalleryUpdateInfo { available: false, current_version: package_version, version: None }
}

/// The result of showing the AppGallery update dialog. `Ok` means the dialog
/// ran, not that an update was installed: the user decides that.
pub fn show_app_gallery_update_dialog(reply: Result<(), String>) -> (r: Result<(), Error>)
    ensures
        match reply {
            Ok(()) => r is Ok,
            Err(reason) => r matches Err(Error::Network(m)) && m@ == reason@,
        },
{
    match reply {
        Ok(()) => Ok(()),
        Err(reason) => Err(Error::Network(reason)),
    }
}

} // verus!
