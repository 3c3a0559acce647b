use vstd::prelude::*;
use crate::window_state::flags::{
    Platform, StateFlags, DECORATIONS_BIT, FULLSCREEN_BIT, MAXIMIZED_BIT, POSITION_BIT, SIZE_BIT,
    VISIBLE_BIT,
};
use crate::window_state::state::{default_state, WindowState, WindowStateMap};

verus! {

/// The cache once the state saved on disk for `label`, if the file holds one,
/// has been written back into it.
pub open spec fn cache_with_file(
    cache: Map<Seq<char>, WindowState>,
    file: Option<Map<Seq<char>, WindowState>>,
    label: Seq<char>,
) -> Map<Seq<char>, WindowState> {
    match file {
        Some(f) => if f.contains_key(label) {
            cache.insert(label, f[label])
        } else {
            cache
        },
        None => cache,
    }
}

/// The state worth restoring for `label`: the cached one, unless there is none
/// or it is the untouched default.
pub open spec fn restorable(cache: Map<Seq<char>, WindowState>, label: Seq<char>) -> Option<
    WindowState,
> {
    if cache.contains_key(label) && cache[label] != default_state() {
        Some(cache[label])
    } else {
        None
    }
}

/// The cache after a restore looked `label` up: a window with nothing worth
/// restoring is seeded with the default state.
pub open spec fn cache_after_lookup(cache: Map<Seq<char>, WindowState>, label: Seq<char>) -> Map<
    Seq<char>,
    WindowState,
> {
    if restorable(cache, label) is Some {
        cache
    } else {
        cache.insert(label, default_state())
    }
}

/// The cache's view of an optional file of saved states.
pub open spec fn file_view(file: Option<WindowStateMap>) -> Option<Map<Seq<char>, WindowState>> {
    match file {
        Some(f) => Some(f@),
        None => None,
    }
}

/// The state worth restoring for `label` in `cache`.
fn lookup_restorable(cache: &WindowStateMap, label: &String) -> (r: Option<WindowState>)
    ensures
        r == restorable(cache@, label@),
{
    let d = WindowState::default();
    match cache.get(label) {
        Some(s) => if s == d {
            None
        } else {
            Some(s)
        },
        None => None,
    }
}

/// The OpenHarmony restore, first step, run under the cache lock: the state
/// saved on disk for `label` (read beforehand, without the lock) replaces the
/// cached one, since on this platform the window-creation event has already
/// overwritten the cache with a default position; then the state worth
/// restoring is taken, and a window with none is seeded with the default.
pub fn snapshot_for_restore(
    cache: &mut WindowStateMap,
    file: &Option<WindowStateMap>,
    label: &String,
) -> (saved: Option<WindowState>)
    ensures
        saved == restorable(cache_with_file(old(cache)@, file_view(*file), label@), label@),
        final(cache)@ == cache_after_lookup(
            cache_with_file(old(cache)@, file_view(*file), label@),
            label@,
        ),
{
    match file {
        Some(f) => match f.get(label) {
            Some(s) => {
                cache.insert(label.clone(), s);
            },
            None => {},
        },
        None => {},
    }
    let saved = lookup_restorable(cache, label);
    if saved.is_none() {
        cache.insert(label.clone(), WindowState::default());
    }
    saved
}

/// The desktop restore, first step: the cached state worth restoring for
/// `label`, if any. The cache is left as it is.
pub fn saved_for_restore(cache: &WindowStateMap, label: &String) -> (saved: Option<WindowState>)
    ensures
        saved == restorable(cache@, label@),
{
    lookup_restorable(cache, label)
}

/// What a desktop window reported when it had no saved state: each part read
/// only where the restore flags select it (`None` where it was not read).
#[derive(Clone, Copy, Debug)]
pub struct LiveWindowState {
    pub inner_size: Option<(u32, u32)>,
    pub outer_position: Option<(i32, i32)>,
    pub maximized: Option<bool>,
    pub visible: Option<bool>,
    pub decorated: Option<bool>,
    pub fullscreen: Option<bool>,
}

/// The size carried by a size query's answer.
pub open spec fn answered_size(v: Option<(u32, u32)>) -> (u32, u32) {
    v->0
}

/// The position carried by a position query's answer.
pub open spec fn answered_position(v: Option<(i32, i32)>) -> (i32, i32) {
    v->0
}

/// The state recorded for a desktop window that had none: the default,
/// with each part selected by `flags` taken from the live window.
pub open spec fn initial_state(flags: StateFlags, live: LiveWindowState) -> WindowState {
    let d = default_state();
    WindowState {
        width: if flags.has(SIZE_BIT) && live.inner_size is Some {
            answered_size(live.inner_size).0
        } else {
            d.width
        },
        height: if flags.has(SIZE_BIT) && live.inner_size is Some {
            answered_size(live.inner_size).1
        } else {
            d.height
        },
        x: if flags.has(POSITION_BIT) && live.outer_position is Some {
            answered_position(live.outer_position).0
        } else {
            d.x
        },
        y: if flags.has(POSITION_BIT) && live.outer_position is Some {
            answered_position(live.outer_position).1
        } else {
            d.y
        },
        prev_x: d.prev_x,
        prev_y: d.prev_y,
        maximized: if flags.has(MAXIMIZED_BIT) && live.maximized is Some {
            live.maximized->0
        } else {
            d.maximized
        },
        visible: if flags.has(VISIBLE_BIT) && live.visible is Some {
            live.visible->0
        } else {
            d.visible
        },
        decorated: if flags.has(DECORATIONS_BIT) && live.decorated is Some {
            live.decorated->0
        } else {
            d.decorated
        },
        fullscreen: if flags.has(FULLSCREEN_BIT) && live.fullscreen is Some {
            live.fullscreen->0
        } else {
            d.fullscreen
        },
    }
}

/// The desktop restore of a window with nothing saved: records what the live
/// window reports, for the parts selected by `flags`.
pub fn record_initial_state(
    cache: &mut WindowStateMap,
    label: String,
    flags: StateFlags,
    live: &LiveWindowState,
)
    ensures
        final(cache)@ == old(cache)@.insert(label@, initial_state(flags, *live)),
{
    let mut metadata = WindowState::default();
    if flags.contains(SIZE_BIT) {
        if let Some((w, h)) = live.inner_size {
            metadata.width = w;
            metadata.height = h;
        }
    }
    if flags.contains(POSITION_BIT) {
        if let Some((x, y)) = live.outer_position {
            metadata.x = x;
            metadata.y = y;
        }
    }
    if flags.contains(MAXIMIZED_BIT) {
        if let Some(m) = live.maximized {
            metadata.maximized = m;
        }
    }
    if flags.contains(VISIBLE_BIT) {
        if let Some(v) = live.visible {
            metadata.visible = v;
        }
    }
    if flags.contains(DECORATIONS_BIT) {
        if let Some(d) = live.decorated {
            metadata.decorated = d;
        }
    }
    if flags.contains(FULLSCREEN_BIT) {
        if let Some(f) = live.fullscreen {
            metadata.fullscreen = f;
        }
    }
    cache.insert(label, metadata);
}

/// A position to restore: the window is moved to (`x`, `y`) on every monitor
/// that the saved rectangle (`probe_*`) intersects.
#[derive(Clone, Copy, Debug, PartialEq, Eq, Structural)]
pub struct PositionRestore {
    pub probe_x: i32,
    pub probe_y: i32,
    pub probe_width: u32,
    pub probe_height: u32,
    pub x: i32,
    pub y: i32,
}

/// What a restore does to a window, in this order: set the decorations, move
/// it, resize it, maximize it, set fullscreen, then show and focus it.
#[derive(Clone, Copy, Debug)]
pub struct RestorePlan {
    pub decorations: Option<bool>,
    pub position: Option<PositionRestore>,
    pub size: Option<(u32, u32)>,
    pub maximize: bool,
    pub fullscreen: Option<bool>,
    pub show_and_focus: bool,
}

/// The position a window is moved back to: where it was before it was
/// maximized if it was saved maximized, else where it was saved.
pub open spec fn restore_target(s: WindowState) -> PositionRestore {
    PositionRestore {
        probe_x: s.x,
        probe_y: s.y,
        probe_width: s.width,
        probe_height: s.height,
        x: if s.maximized {
            s.prev_x
        } else {
            s.x
        },
        y: if s.maximized {
            s.prev_y
        } else {
            s.y
        },
    }
}

/// What a restore applies. Position and size are restored on every platform;
/// decorations, maximized and fullscreen only on the desktop platforms (on
/// OpenHarmony the app surface is the window itself). A window is shown and
/// focused when `flags` select visibility and it was not saved hidden.
pub open spec fn plan_for(platform: Platform, flags: StateFlags, saved: Option<WindowState>) -> RestorePlan {
    match saved {
        Some(s) => RestorePlan {
            decorations: if platform == Platform::Desktop && flags.has(DECORATIONS_BIT) {
                Some(s.decorated)
            } else {
                None
            },
            position: if flags.has(POSITION_BIT) {
                Some(restore_target(s))
            } else {
                None
            },
            size: if flags.has(SIZE_BIT) {
                Some((s.width, s.height))
            } else {
                None
            },
            maximize: platform == Platform::Desktop && flags.has(MAXIMIZED_BIT) && s.maximized,
            fullscreen: if platform == Platform::Desktop && flags.has(FULLSCREEN_BIT) {
                Some(s.fullscreen)
            } else {
                None
            },
            show_and_focus: flags.has(VISIBLE_BIT) && s.visible,
        },
        None => RestorePlan {
            decorations: None,
            position: None,
            size: None,
            maximize: false,
            fullscreen: None,
            show_and_focus: flags.has(VISIBLE_BIT),
        },
    }
}

/// The steps a restore takes for a window whose state worth restoring is
/// `saved`.
pub fn restore_plan(platform: Platform, flags: StateFlags, saved: Option<WindowState>) -> (plan:
    RestorePlan)
    ensures
        plan == plan_for(platform, flags, saved),
{
    let desktop = match platform {
        Platform::Desktop => true,
        Platform::Ohos => false,
    };
    let mut should_show = true;
    let mut plan = RestorePlan {
        decorations: None,
        position: None,
        size: None,
        maximize: false,
        fullscreen: None,
        show_and_focus: false,
    };
    if let Some(s) = saved {
        if desktop && flags.contains(DECORATIONS_BIT) {
            plan.decorations = Some(s.decorated);
        }
        if flags.contains(POSITION_BIT) {
            plan.position = Some(
                PositionRestore {
                    probe_x: s.x,
                    probe_y: s.y,
                    probe_width: s.width,
                    probe_height: s.height,
                    x: if s.maximized {
                        s.prev_x
                    } else {
                        s.x
                    },
                    y: if s.maximized {
                        s.prev_y
                    } else {
                        s.y
                    },
                },
            );
        }
        if flags.contains(SIZE_BIT) {
            plan.size = Some((s.width, s.height));
        }
        if desktop && flags.contains(MAXIMIZED_BIT) && s.maximized {
            plan.maximize = true;
        }
        if desktop && flags.contains(FULLSCREEN_BIT) {
            plan.fullscreen = Some(s.fullscreen);
        }
        should_show = s.visible;
    }
    plan.show_and_focus = flags.contains(VISIBLE_BIT) && should_show;
    plan
}

} // verus!
