use vstd::prelude::*;
use crate::window_state::flags::{Platform, StateFlags, MAXIMIZED_BIT, POSITION_BIT, SIZE_BIT};
use crate::window_state::save::{contains_label, seq_has};

verus! {

/// The application lifecycle events the plugin reacts to.
#[derive(Clone, Copy, Debug, PartialEq, Eq, Structural)]
pub enum RunEventKind {
    Ready,
    Exit,
    Other,
}

/// What the plugin does on a lifecycle event.
#[derive(Clone, Copy, Debug, PartialEq, Eq, Structural)]
pub enum EventAction {
    /// Restore the state of the windows that pass [`should_restore_on_ready`].
    RestoreWindows,
    /// Save the state of all windows.
    SaveState,
    Nothing,
}

/// The plugin's lifecycle handler. On OpenHarmony the windows are restored
/// when the app is ready (the main window exists before the plugin is
/// registered, so the per-window hook never fires for it), and nothing is
/// saved on exit: saving is left to the explicit save command, which an exit
/// save would overwrite. On the desktop platforms the state is saved on exit.
pub fn on_event(platform: Platform, event: RunEventKind) -> (a: EventAction)
    ensures
        a == (match (platform, event) {
            (Platform::Ohos, RunEventKind::Ready) => EventAction::RestoreWindows,
            (Platform::Desktop, RunEventKind::Exit) => EventAction::SaveState,
            _ => EventAction::Nothing,
        }),
{
    match (platform, event) {
        (Platform::Ohos, RunEventKind::Ready) => EventAction::RestoreWindows,
        (Platform::Desktop, RunEventKind::Exit) => EventAction::SaveState,
        _ => EventAction::Nothing,
    }
}

/// Whether the filter callback is asked about a window (by its mapped label)
/// when the app is ready: only when the window is not on the denylist, which
/// excludes it before any callback runs.
pub fn filter_needed(label: &String, denylist: &Vec<String>) -> (r: bool)
    ensures
        r == !seq_has(denylist@, label@),
{
    !contains_label(denylist, label)
}

/// Whether a window (by its mapped label) is restored when the app is ready:
/// not on the denylist, accepted by the filter callback if one is set
/// (`filter_verdict` is its answer, asked only where [`filter_needed`] says so),
/// and not excluded from the initial restore.
pub fn should_restore_on_ready(
    label: &String,
    denylist: &Vec<String>,
    filter_verdict: Option<bool>,
    skip_initial_state: &Vec<String>,
) -> (r: bool)
    ensures
        r == (!seq_has(denylist@, label@) && filter_verdict != Some(false) && !seq_has(
            skip_initial_state@,
            label@,
        )),
{
    if contains_label(denylist, label) {
        return false;
    }
    if let Some(allowed) = filter_verdict {
        if !allowed {
            return false;
        }
    }
    !contains_label(skip_initial_state, label)
}

/// Whether a state update asks the window whether it is maximized. On
/// OpenHarmony it never does: the query is a synchronous call that blocks the
/// main thread during window transitions.
pub fn maximized_query_needed(platform: Platform, flags: StateFlags) -> (r: bool)
    ensures
        r == (platform == Platform::Desktop && flags.meets(MAXIMIZED_BIT | POSITION_BIT | SIZE_BIT)),
{
    match platform {
        Platform::Ohos => false,
        Platform::Desktop => flags.intersects(MAXIMIZED_BIT | POSITION_BIT | SIZE_BIT),
    }
}

/// The maximized state a state update records; `window_maximized` is the
/// window's answer where [`maximized_query_needed`] asked it (else `false`).
pub fn update_state_is_maximized(platform: Platform, flags: StateFlags, window_maximized: bool) -> (r:
    bool)
    ensures
        r == (platform == Platform::Desktop && flags.meets(MAXIMIZED_BIT | POSITION_BIT | SIZE_BIT)
            && window_maximized),
{
    maximized_query_needed(platform, flags) && window_maximized
}

/// Whether a state update asks the window whether it is minimized (never on
/// OpenHarmony, for the same reason as the maximized query).
pub fn minimized_query_needed(platform: Platform, flags: StateFlags) -> (r: bool)
    ensures
        r == (platform == Platform::Desktop && flags.meets(POSITION_BIT | SIZE_BIT)),
{
    match platform {
        Platform::Ohos => false,
        Platform::Desktop => flags.intersects(POSITION_BIT | SIZE_BIT),
    }
}

/// The minimized state a state update records; `window_minimized` is the
/// window's answer where [`minimized_query_needed`] asked it (else `false`).
pub fn update_state_is_minimized(platform: Platform, flags: StateFlags, window_minimized: bool) -> (r:
    bool)
    ensures
        r == (platform == Platform::Desktop && flags.meets(POSITION_BIT | SIZE_BIT)
            && window_minimized),
{
    minimized_query_needed(platform, flags) && window_minimized
}

/// Whether a moved window counts as minimized (its move is then not cached).
/// On OpenHarmony the query is skipped (a minimized window does not move);
/// elsewhere it is the window's answer, `false` where the query failed.
pub fn moved_is_minimized(platform: Platform, window_minimized: Option<bool>) -> (r: bool)
    ensures
        r == (platform == Platform::Desktop && window_minimized == Some(true)),
{
    match platform {
        Platform::Ohos => false,
        Platform::Desktop => match window_minimized {
            Some(m) => m,
            None => false,
        },
    }
}

/// What a resized desktop window reported; `None` where a query failed.
#[derive(Clone, Copy, Debug, PartialEq, Eq, Structural)]
pub struct ResizeProbe {
    pub is_macos: bool,
    pub decorated: Option<bool>,
    pub resizable: Option<bool>,
    pub maximized: Option<bool>,
    pub minimized: Option<bool>,
}

/// Whether a desktop window counts as maximized after a resize: on macOS an
/// undecorated or fixed-size window never does.
pub open spec fn counts_as_maximized(p: ResizeProbe) -> bool {
    if p.is_macos && (p.decorated != Some(true) || p.resizable != Some(true)) {
        false
    } else {
        p.maximized == Some(true)
    }
}

/// Whether a resize is saved into the cache: on OpenHarmony always; elsewhere
/// unless the window is minimized or counts as maximized.
pub open spec fn resize_saved(platform: Platform, probe: ResizeProbe) -> bool {
    platform == Platform::Ohos || (probe.minimized != Some(true) && !counts_as_maximized(probe))
}

/// Whether a resize is saved into the cache. On OpenHarmony always (the
/// blocking state queries are skipped: a minimized window is not resized, and
/// a maximized one is restored from the maximized flag); elsewhere unless the
/// window is minimized or counts as maximized.
pub fn resized_should_save(platform: Platform, probe: ResizeProbe) -> (r: bool)
    ensures
        r == resize_saved(platform, probe),
        r == (platform == Platform::Ohos || (probe.minimized != Some(true) && !counts_as_maximized(
            probe,
        ))),
{
    match platform {
        Platform::Ohos => true,
        Platform::Desktop => {
            let decorated = match probe.decorated {
                Some(d) => d,
                None => false,
            };
            let resizable = match probe.resizable {
                Some(r) => r,
                None => false,
            };
            let maximized = if probe.is_macos && (!decorated || !resizable) {
                false
            } else {
                match probe.maximized {
                    Some(m) => m,
                    None => false,
                }
            };
            let minimized = match probe.minimized {
                Some(m) => m,
                None => false,
            };
            !minimized && !maximized
        },
    }
}

} // verus!
