use vstd::prelude::*;
use crate::window_state::events::{resize_saved, ResizeProbe};
use crate::window_state::flags::{
    Platform, StateFlags, DECORATIONS_BIT, FULLSCREEN_BIT, MAXIMIZED_BIT, POSITION_BIT, SIZE_BIT,
    VISIBLE_BIT,
};
use crate::window_state::restore::{
    cache_after_lookup, cache_with_file, initial_state, plan_for, restorable, restore_target,
    LiveWindowState,
};
use crate::window_state::save::{
    cached_places, first_fresh, refreshed, refreshed_cache, seq_has, FreshGeometry,
};
use crate::window_state::state::{default_state, WindowState};

verus! {

/// A save neither adds a window to the cache nor drops one.
pub proof fn lemma_save_keeps_windows(m: Map<Seq<char>, WindowState>, fresh: Seq<FreshGeometry>)
    ensures
        refreshed_cache(m, fresh).dom() == m.dom(),
{
    assert(refreshed_cache(m, fresh).dom() =~= m.dom());
}

/// A save changes only the position and the size of a window: its previous
/// position, maximized, visible, decorated and fullscreen parts stay.
pub proof fn lemma_save_changes_only_geometry(
    m: Map<Seq<char>, WindowState>,
    fresh: Seq<FreshGeometry>,
    label: Seq<char>,
)
    requires
        m.contains_key(label),
    ensures
        ({
            let before = m[label];
            let after = refreshed_cache(m, fresh)[label];
            &&& after.prev_x == before.prev_x
            &&& after.prev_y == before.prev_y
            &&& after.maximized == before.maximized
            &&& after.visible == before.visible
            &&& after.decorated == before.decorated
            &&& after.fullscreen == before.fullscreen
        }),
{
}

/// Saving the same fresh geometry twice leaves the cache as saving it once.
pub proof fn lemma_save_idempotent(m: Map<Seq<char>, WindowState>, fresh: Seq<FreshGeometry>)
    ensures
        refreshed_cache(refreshed_cache(m, fresh), fresh) == refreshed_cache(m, fresh),
{
    let once = refreshed_cache(m, fresh);
    let twice = refreshed_cache(once, fresh);
    assert forall|k: Seq<char>| #[trigger] twice.contains_key(k) implies twice[k] == once[k] by {
        let g = first_fresh(fresh, k);
        assert(refreshed(refreshed(m[k], g), g) == refreshed(m[k], g));
    }
    assert(twice =~= once);
}

/// After a restore looked a window up, the cache holds it.
pub proof fn lemma_restore_keeps_window(
    cache: Map<Seq<char>, WindowState>,
    file: Option<Map<Seq<char>, WindowState>>,
    label: Seq<char>,
)
    ensures
        cache_after_lookup(cache_with_file(cache, file, label), label).contains_key(label),
{
}

/// What a restore hands back is never the default state, and it is what the
/// cache then holds for the window.
pub proof fn lemma_restore_gives_cached_state(
    cache: Map<Seq<char>, WindowState>,
    file: Option<Map<Seq<char>, WindowState>>,
    label: Seq<char>,
)
    ensures
        ({
            let merged = cache_with_file(cache, file, label);
            let after = cache_after_lookup(merged, label);
            match restorable(merged, label) {
                Some(s) => s != default_state() && after[label] == s,
                None => after[label] == default_state(),
            }
        }),
{
}

/// The state a save wrote to disk is the one a restore reads back: where the
/// file holds a non-default state for the window, the restore hands back that
/// state, whatever the cache held before.
pub proof fn lemma_restore_reads_saved_state(
    cache: Map<Seq<char>, WindowState>,
    file: Map<Seq<char>, WindowState>,
    label: Seq<char>,
)
    requires
        file.contains_key(label),
        file[label] != default_state(),
    ensures
        restorable(cache_with_file(cache, Some(file), label), label) == Some(file[label]),
        cache_after_lookup(cache_with_file(cache, Some(file), label), label)[label] == file[label],
{
}

/// Restoring twice from the same file is restoring once: the second restore
/// hands back the same state and leaves the cache as the first one left it.
pub proof fn lemma_restore_idempotent(
    cache: Map<Seq<char>, WindowState>,
    file: Option<Map<Seq<char>, WindowState>>,
    label: Seq<char>,
)
    ensures
        ({
            let merged = cache_with_file(cache, file, label);
            let first = cache_after_lookup(merged, label);
            let merged_again = cache_with_file(first, file, label);
            &&& restorable(merged_again, label) == restorable(merged, label)
            &&& cache_after_lookup(merged_again, label) == first
        }),
{
    let merged = cache_with_file(cache, file, label);
    let first = cache_after_lookup(merged, label);
    let merged_again = cache_with_file(first, file, label);
    assert(merged_again =~= first);
    assert(cache_after_lookup(merged_again, label) =~= first);
}

/// A restored window goes back to the saved geometry: where the flags select
/// position and size, the plan moves it to where it was saved (to where it was
/// before maximizing, if it was saved maximized) and gives it the saved size.
pub proof fn lemma_restore_applies_saved_geometry(platform: Platform, flags: StateFlags, s: WindowState)
    requires
        flags.has(POSITION_BIT),
        flags.has(SIZE_BIT),
    ensures
        plan_for(platform, flags, Some(s)).size == Some((s.width, s.height)),
        plan_for(platform, flags, Some(s)).position == Some(restore_target(s)),
        restore_target(s).x == (if s.maximized {
            s.prev_x
        } else {
            s.x
        }),
        restore_target(s).y == (if s.maximized {
            s.prev_y
        } else {
            s.y
        }),
{
}

/// A restore maximizes a window exactly when it runs on a desktop platform, the
/// flags select the maximized state and the window was saved maximized; a
/// window with nothing saved is never maximized.
pub proof fn lemma_restore_maximizes_only_saved_maximized(
    platform: Platform,
    flags: StateFlags,
    saved: Option<WindowState>,
)
    ensures
        plan_for(platform, flags, saved).maximize <==> (platform == Platform::Desktop && flags.has(
            MAXIMIZED_BIT,
        ) && saved is Some && saved->0.maximized),
{
}

/// A restore sets decorations and fullscreen only on the desktop platforms,
/// only where the flags select them, and to the saved values; it shows the
/// window only where visibility is selected and the window was not saved
/// hidden.
pub proof fn lemma_restore_other_parts(platform: Platform, flags: StateFlags, s: WindowState)
    ensures
        plan_for(platform, flags, Some(s)).decorations is Some <==> (platform == Platform::Desktop
            && flags.has(DECORATIONS_BIT)),
        plan_for(platform, flags, Some(s)).decorations matches Some(d) ==> d == s.decorated,
        plan_for(platform, flags, Some(s)).fullscreen is Some <==> (platform == Platform::Desktop
            && flags.has(FULLSCREEN_BIT)),
        plan_for(platform, flags, Some(s)).fullscreen matches Some(f) ==> f == s.fullscreen,
        plan_for(platform, flags, Some(s)).show_and_focus <==> (flags.has(VISIBLE_BIT)
            && s.visible),
        plan_for(platform, flags, Some(s)).position is Some <==> flags.has(POSITION_BIT),
        plan_for(platform, flags, Some(s)).size is Some <==> flags.has(SIZE_BIT),
{
}

/// A desktop window with nothing saved is recorded with what it reported: the
/// answered position, size, maximized, visible, decorated and fullscreen
/// states for each part the flags select; every other part keeps the default.
pub proof fn lemma_initial_state_takes_live_answers(flags: StateFlags, live: LiveWindowState)
    ensures
        ({
            let r = initial_state(flags, live);
            let d = default_state();
            &&& (match live.outer_position {
                Some((px, py)) => if flags.has(POSITION_BIT) {
                    r.x == px && r.y == py
                } else {
                    r.x == d.x && r.y == d.y
                },
                None => r.x == d.x && r.y == d.y,
            })
            &&& (match live.inner_size {
                Some((w, h)) => if flags.has(SIZE_BIT) {
                    r.width == w && r.height == h
                } else {
                    r.width == d.width && r.height == d.height
                },
                None => r.width == d.width && r.height == d.height,
            })
            &&& (match live.maximized {
                Some(m) => r.maximized == (if flags.has(MAXIMIZED_BIT) {
                    m
                } else {
                    d.maximized
                }),
                None => r.maximized == d.maximized,
            })
            &&& (match live.visible {
                Some(v) => r.visible == (if flags.has(VISIBLE_BIT) {
                    v
                } else {
                    d.visible
                }),
                None => r.visible == d.visible,
            })
            &&& (match live.decorated {
                Some(v) => r.decorated == (if flags.has(DECORATIONS_BIT) {
                    v
                } else {
                    d.decorated
                }),
                None => r.decorated == d.decorated,
            })
            &&& (match live.fullscreen {
                Some(v) => r.fullscreen == (if flags.has(FULLSCREEN_BIT) {
                    v
                } else {
                    d.fullscreen
                }),
                None => r.fullscreen == d.fullscreen,
            })
            &&& r.prev_x == d.prev_x && r.prev_y == d.prev_y
        }),
{
}

/// On OpenHarmony every resize is saved. On the desktop platforms a minimized
/// window's resize never is; one that is not minimized is saved unless it
/// counts as maximized, and on macOS an undecorated or fixed-size window never
/// counts as maximized, whatever its maximized query answered.
pub proof fn lemma_resize_saving(probe: ResizeProbe)
    ensures
        resize_saved(Platform::Ohos, probe),
        probe.minimized == Some(true) ==> !resize_saved(Platform::Desktop, probe),
        probe.is_macos && (probe.decorated != Some(true) || probe.resizable != Some(true))
            && probe.minimized != Some(true) ==> resize_saved(Platform::Desktop, probe),
        probe.is_macos && probe.decorated == Some(true) && probe.resizable == Some(true) ==> (
        resize_saved(Platform::Desktop, probe) <==> (probe.minimized != Some(true)
            && probe.maximized != Some(true))),
        !probe.is_macos ==> (resize_saved(Platform::Desktop, probe) <==> (probe.minimized != Some(
            true) && probe.maximized != Some(true))),
{
}

/// The places a save re-reads are exactly the live windows whose mapped label
/// the cache holds, each once and in the order of the windows.
pub proof fn lemma_cached_places_exact(cached: Seq<String>, labels: Seq<String>, n: int)
    requires
        0 <= n <= labels.len(),
        labels.len() <= usize::MAX,
    ensures
        forall|i: int|
            0 <= i < n ==> (seq_has(cached, #[trigger] labels[i]@) <==> cached_places(
                cached,
                labels,
                n,
            ).contains(i as usize)),
        forall|j: int|
            0 <= j < cached_places(cached, labels, n).len() ==> #[trigger] cached_places(
                cached,
                labels,
                n,
            )[j] < n,
        forall|j: int, k: int|
            0 <= j < k < cached_places(cached, labels, n).len() ==> #[trigger] cached_places(
                cached,
                labels,
                n,
            )[j] < #[trigger] cached_places(cached, labels, n)[k],
    decreases n,
{
    if n > 0 {
        lemma_cached_places_exact(cached, labels, n - 1);
        let prev = cached_places(cached, labels, n - 1);
        let cur = cached_places(cached, labels, n);
        let last = (n - 1) as usize;
        assert(last as int == n - 1);
        if seq_has(cached, labels[n - 1]@) {
            assert(cur == prev.push(last));
            assert forall|j: int, k: int| 0 <= j < k < cur.len() implies #[trigger] cur[j]
                < #[trigger] cur[k] by {
                if k < prev.len() {
                    assert(cur[j] == prev[j] && cur[k] == prev[k]);
                } else {
                    assert(cur[j] == prev[j]);
                }
            }
        } else {
            assert(cur == prev);
        }
        assert forall|i: int| 0 <= i < n implies (seq_has(cached, #[trigger] labels[i]@)
            <==> cur.contains(i as usize)) by {
            if i < n - 1 {
                if seq_has(cached, labels[i]@) {
                    assert(prev.contains(i as usize));
                    let j = choose|j: int| 0 <= j < prev.len() && prev[j] == i as usize;
                    assert(cur[j] == i as usize);
                }
                if cur.contains(i as usize) {
                    let j = choose|j: int| 0 <= j < cur.len() && cur[j] == i as usize;
                    if j < prev.len() {
                        assert(prev[j] == i as usize);
                        assert(prev.contains(i as usize));
                    } else {
                        assert(cur[j] == last);
                    }
                }
            } else {
                assert(i == n - 1);
                if seq_has(cached, labels[i]@) {
                    assert(cur[cur.len() - 1] == i as usize);
                }
                if cur.contains(i as usize) {
                    let j = choose|j: int| 0 <= j < cur.len() && cur[j] == i as usize;
                    if j < prev.len() {
                        assert(prev[j] < n - 1);
                        assert(cur[j] == prev[j]);
                    }
                }
            }
        }
    }
}

/// The fresh geometry a save uses for a label is the first one collected under
/// that label; there is none exactly when no geometry carries the label.
pub proof fn lemma_first_fresh_is_first(fresh: Seq<FreshGeometry>, k: Seq<char>)
    ensures
        first_fresh(fresh, k) is None <==> (forall|j: int|
            0 <= j < fresh.len() ==> #[trigger] fresh[j].label@ != k),
        first_fresh(fresh, k) matches Some(g) ==> exists|i: int|
            0 <= i < fresh.len() && fresh[i] == g && g.label@ == k && forall|j: int|
                0 <= j < i ==> #[trigger] fresh[j].label@ != k,
    decreases fresh.len(),
{
    if fresh.len() > 0 {
        let rest = fresh.drop_first();
        lemma_first_fresh_is_first(rest, k);
        if fresh[0].label@ != k {
            assert forall|j: int| 0 <= j < rest.len() implies #[trigger] rest[j] == fresh[j + 1] by {
            }
            if first_fresh(rest, k) is None {
                assert forall|j: int| 0 <= j < fresh.len() implies #[trigger] fresh[j].label@ != k by {
                    if j > 0 {
                        assert(rest[j - 1] == fresh[j]);
                    }
                }
            } else {
                let g = first_fresh(rest, k)->0;
                let i = choose|i: int|
                    0 <= i < rest.len() && rest[i] == g && g.label@ == k && forall|j: int|
                        0 <= j < i ==> #[trigger] rest[j].label@ != k;
                assert(fresh[i + 1] == g);
                assert forall|j: int| 0 <= j < i + 1 implies #[trigger] fresh[j].label@ != k by {
                    if j > 0 {
                        assert(rest[j - 1] == fresh[j]);
                    }
                }
                assert(!(forall|j: int| 0 <= j < fresh.len() ==> #[trigger] fresh[j].label@ != k))
                    by {
                    assert(fresh[i + 1].label@ == k);
                }
            }
        } else {
            assert(!(forall|j: int| 0 <= j < fresh.len() ==> #[trigger] fresh[j].label@ != k)) by {
                assert(fresh[0].label@ == k);
            }
        }
    }
}

/// Refreshing a state with fresh geometry takes the geometry's position where
/// one was read and its size where one was read, whatever the state held
/// before; the other parts stay.
pub proof fn lemma_refresh_takes_fresh_geometry(s: WindowState, g: FreshGeometry)
    ensures
        ({
            let r = refreshed(s, Some(g));
            &&& (match g.position {
                Some((x, y)) => r.x == x && r.y == y,
                None => r.x == s.x && r.y == s.y,
            })
            &&& (match g.size {
                Some((w, h)) => r.width == w && r.height == h,
                None => r.width == s.width && r.height == s.height,
            })
            &&& r.prev_x == s.prev_x && r.prev_y == s.prev_y
            &&& r.maximized == s.maximized && r.visible == s.visible
            &&& r.decorated == s.decorated && r.fullscreen == s.fullscreen
        }),
        refreshed(s, None) == s,
{
}

/// A save writes into each cached window the position and size of the first
/// fresh geometry collected under its label, whatever state the window had
/// (the default one included), and leaves a window with no fresh geometry as
/// it was.
pub proof fn lemma_save_writes_fresh_geometry(
    m: Map<Seq<char>, WindowState>,
    fresh: Seq<FreshGeometry>,
    k: Seq<char>,
    i: int,
)
    requires
        m.contains_key(k),
        0 <= i < fresh.len(),
        fresh[i].label@ == k,
        forall|j: int| 0 <= j < i ==> #[trigger] fresh[j].label@ != k,
    ensures
        ({
            let r = refreshed_cache(m, fresh)[k];
            &&& (match fresh[i].position {
                Some((x, y)) => r.x == x && r.y == y,
                None => r.x == m[k].x && r.y == m[k].y,
            })
            &&& (match fresh[i].size {
                Some((w, h)) => r.width == w && r.height == h,
                None => r.width == m[k].width && r.height == m[k].height,
            })
        }),
{
    lemma_first_fresh_is_first(fresh, k);
    let g = first_fresh(fresh, k)->0;
    let i2 = choose|i2: int|
        0 <= i2 < fresh.len() && fresh[i2] == g && g.label@ == k && forall|j: int|
            0 <= j < i2 ==> #[trigger] fresh[j].label@ != k;
    if i2 < i {
        assert(fresh[i2].label@ != k);
    } else if i < i2 {
        assert(fresh[i].label@ != k);
    }
    assert(g == fresh[i]);
    lemma_refresh_takes_fresh_geometry(m[k], fresh[i]);
}

/// A save leaves a cached window with no fresh geometry under its label as it
/// was.
pub proof fn lemma_save_keeps_unprobed_window(
    m: Map<Seq<char>, WindowState>,
    fresh: Seq<FreshGeometry>,
    k: Seq<char>,
)
    requires
        m.contains_key(k),
        forall|j: int| 0 <= j < fresh.len() ==> #[trigger] fresh[j].label@ != k,
    ensures
        refreshed_cache(m, fresh)[k] == m[k],
{
    lemma_first_fresh_is_first(fresh, k);
}

} // verus!
