use ohos_plugins::window_state::events::{
    maximized_query_needed, minimized_query_needed, moved_is_minimized, on_event,
    filter_needed, resized_should_save, should_restore_on_ready, update_state_is_maximized,
    update_state_is_minimized, EventAction, ResizeProbe, RunEventKind,
};
use ohos_plugins::window_state::flags::{
    Platform, StateFlags, DECORATIONS_BIT, FULLSCREEN_BIT, MAXIMIZED_BIT, POSITION_BIT, SIZE_BIT,
    VISIBLE_BIT,
};
use ohos_plugins::window_state::restore::{
    record_initial_state, restore_plan, saved_for_restore, snapshot_for_restore, LiveWindowState,
};
use ohos_plugins::window_state::save::{cached_windows, window_for_label, FreshGeometry};
use ohos_plugins::window_state::state::{WindowState, WindowStateMap};

fn s(v: &str) -> String {
    v.to_string()
}

fn sample() -> WindowState {
    WindowState {
        width: 800,
        height: 600,
        x: 10,
        y: 20,
        prev_x: 1,
        prev_y: 2,
        maximized: false,
        visible: true,
        decorated: false,
        fullscreen: true,
    }
}

#[test]
fn default_state_is_visible_and_decorated() {
    let d = WindowState::default();
    assert_eq!((d.width, d.height, d.x, d.y, d.prev_x, d.prev_y), (0, 0, 0, 0, 0, 0));
    assert!(d.visible && d.decorated && !d.maximized && !d.fullscreen);
}

#[test]
fn flags_contain_and_intersect() {
    let all = StateFlags::all();
    assert_eq!(all.bits, 0x3f);
    assert!(all.contains(SIZE_BIT | POSITION_BIT));
    let f = StateFlags::from_bits_truncate(SIZE_BIT | 0x100);
    assert_eq!(f.bits, SIZE_BIT);
    assert!(!f.contains(POSITION_BIT));
    assert!(f.intersects(POSITION_BIT | SIZE_BIT));
    assert!(!StateFlags::empty().intersects(0x3f));
}

#[test]
fn map_insert_get_replace() {
    let mut m = WindowStateMap::new();
    assert_eq!(m.get(&s("main")), None);
    m.insert(s("main"), sample());
    m.insert(s("other"), WindowState::default());
    assert!(m.contains(&s("main")));
    assert_eq!(m.get(&s("main")), Some(sample()));
    let mut moved = sample();
    moved.x = 99;
    m.insert(s("main"), moved);
    assert_eq!(m.get(&s("main")), Some(moved));
    let mut labels = m.labels();
    labels.sort();
    assert_eq!(labels, vec![s("main"), s("other")]);
}

#[test]
fn cached_windows_keeps_order_of_known_labels() {
    let cached = vec![s("main"), s("settings")];
    let windows = vec![s("splash"), s("settings"), s("main"), s("main")];
    assert_eq!(cached_windows(&cached, &windows), vec![1, 2, 3]);
    assert_eq!(cached_windows(&vec![], &windows), Vec::<usize>::new());
}

#[test]
fn fresh_geometry_drops_empty_sizes() {
    let g = FreshGeometry::from_queries(s("main"), Some((5, 6)), Some((0, 10)));
    assert_eq!(g.size, None);
    assert_eq!(g.position, Some((5, 6)));
    let g = FreshGeometry::from_queries(s("main"), None, Some((640, 480)));
    assert_eq!(g.size, Some((640, 480)));
    assert_eq!(g.position, None);
}

#[test]
fn save_refreshes_geometry_only() {
    let mut m = WindowStateMap::new();
    m.insert(s("main"), sample());
    m.insert(s("idle"), sample());
    let fresh = vec![
        FreshGeometry::from_queries(s("main"), Some((100, 200)), Some((1024, 768))),
        FreshGeometry::from_queries(s("main"), Some((7, 7)), Some((7, 7))),
        FreshGeometry::from_queries(s("gone"), Some((1, 1)), None),
    ];
    m.refresh_geometry(&fresh);
    let main = m.get(&s("main")).unwrap();
    assert_eq!((main.x, main.y, main.width, main.height), (100, 200, 1024, 768));
    assert_eq!((main.prev_x, main.prev_y), (1, 2));
    assert!(main.fullscreen && !main.decorated && main.visible && !main.maximized);
    assert_eq!(m.get(&s("idle")), Some(sample()));
    assert!(!m.contains(&s("gone")));
    assert_eq!(m.labels().len(), 2);
}

#[test]
fn save_refresh_with_position_only() {
    let mut m = WindowStateMap::new();
    m.insert(s("main"), sample());
    let fresh = vec![FreshGeometry::from_queries(s("main"), Some((3, 4)), Some((0, 0)))];
    m.refresh_geometry(&fresh);
    let main = m.get(&s("main")).unwrap();
    assert_eq!((main.x, main.y, main.width, main.height), (3, 4, 800, 600));
}

#[test]
fn save_is_idempotent() {
    let mut m = WindowStateMap::new();
    m.insert(s("main"), sample());
    let fresh = vec![FreshGeometry::from_queries(s("main"), Some((9, 9)), Some((50, 60)))];
    m.refresh_geometry(&fresh);
    let once = m.get(&s("main"));
    m.refresh_geometry(&fresh);
    assert_eq!(m.get(&s("main")), once);
}

#[test]
fn restore_reads_file_over_cache() {
    let mut cache = WindowStateMap::new();
    let mut created = WindowState::default();
    created.x = 0;
    created.width = 300;
    cache.insert(s("main"), created);
    let mut file = WindowStateMap::new();
    file.insert(s("main"), sample());
    let saved = snapshot_for_restore(&mut cache, &Some(file), &s("main"));
    assert_eq!(saved, Some(sample()));
    assert_eq!(cache.get(&s("main")), Some(sample()));
}

#[test]
fn restore_without_saved_state_seeds_default() {
    let mut cache = WindowStateMap::new();
    let saved = snapshot_for_restore(&mut cache, &None, &s("main"));
    assert_eq!(saved, None);
    assert_eq!(cache.get(&s("main")), Some(WindowState::default()));
}

#[test]
fn restore_of_default_state_restores_nothing() {
    let mut cache = WindowStateMap::new();
    let mut file = WindowStateMap::new();
    file.insert(s("main"), WindowState::default());
    let saved = snapshot_for_restore(&mut cache, &Some(file), &s("main"));
    assert_eq!(saved, None);
    assert!(cache.contains(&s("main")));
}

#[test]
fn restore_uses_cache_when_file_lacks_window() {
    let mut cache = WindowStateMap::new();
    cache.insert(s("main"), sample());
    let mut file = WindowStateMap::new();
    file.insert(s("other"), WindowState::default());
    let saved = snapshot_for_restore(&mut cache, &Some(file), &s("main"));
    assert_eq!(saved, Some(sample()));
}

#[test]
fn restore_is_idempotent() {
    let mut cache = WindowStateMap::new();
    let mut file = WindowStateMap::new();
    file.insert(s("main"), sample());
    let file = Some(file);
    let first = snapshot_for_restore(&mut cache, &file, &s("main"));
    let after_first = cache.get(&s("main"));
    let second = snapshot_for_restore(&mut cache, &file, &s("main"));
    assert_eq!(first, second);
    assert_eq!(cache.get(&s("main")), after_first);
}

#[test]
fn desktop_lookup_and_initial_state() {
    let mut cache = WindowStateMap::new();
    assert_eq!(saved_for_restore(&cache, &s("main")), None);
    let live = LiveWindowState {
        inner_size: Some((640, 480)),
        outer_position: Some((11, 12)),
        maximized: Some(true),
        visible: Some(false),
        decorated: Some(false),
        fullscreen: Some(true),
    };
    record_initial_state(&mut cache, s("main"), StateFlags::from_bits_truncate(SIZE_BIT | VISIBLE_BIT), &live);
    let st = cache.get(&s("main")).unwrap();
    assert_eq!((st.width, st.height), (640, 480));
    assert_eq!((st.x, st.y), (0, 0));
    assert!(!st.visible);
    assert!(!st.maximized && st.decorated && !st.fullscreen);
    assert_eq!(saved_for_restore(&cache, &s("main")), Some(st));
}

#[test]
fn ohos_plan_restores_geometry_only() {
    let mut st = sample();
    st.maximized = true;
    let plan = restore_plan(Platform::Ohos, StateFlags::all(), Some(st));
    assert_eq!(plan.decorations, None);
    assert_eq!(plan.fullscreen, None);
    assert!(!plan.maximize);
    assert_eq!(plan.size, Some((800, 600)));
    let p = plan.position.unwrap();
    assert_eq!((p.probe_x, p.probe_y, p.probe_width, p.probe_height), (10, 20, 800, 600));
    assert_eq!((p.x, p.y), (1, 2));
    assert!(plan.show_and_focus);
}

#[test]
fn desktop_plan_restores_everything_selected() {
    let mut st = sample();
    st.maximized = true;
    st.visible = false;
    let plan = restore_plan(Platform::Desktop, StateFlags::all(), Some(st));
    assert_eq!(plan.decorations, Some(false));
    assert_eq!(plan.fullscreen, Some(true));
    assert!(plan.maximize);
    assert!(!plan.show_and_focus);
    let plan = restore_plan(Platform::Desktop, StateFlags::from_bits_truncate(DECORATIONS_BIT), Some(sample()));
    assert_eq!(plan.decorations, Some(false));
    assert!(plan.position.is_none() && plan.size.is_none() && plan.fullscreen.is_none());
    assert!(!plan.maximize && !plan.show_and_focus);
}

#[test]
fn plan_without_saved_state_only_shows() {
    let plan = restore_plan(Platform::Ohos, StateFlags::all(), None);
    assert!(plan.position.is_none() && plan.size.is_none());
    assert!(plan.show_and_focus);
    let plan = restore_plan(Platform::Desktop, StateFlags::from_bits_truncate(SIZE_BIT | FULLSCREEN_BIT | MAXIMIZED_BIT), None);
    assert!(!plan.show_and_focus);
    assert!(plan.fullscreen.is_none() && !plan.maximize);
}

#[test]
fn lifecycle_events() {
    assert_eq!(on_event(Platform::Ohos, RunEventKind::Ready), EventAction::RestoreWindows);
    assert_eq!(on_event(Platform::Ohos, RunEventKind::Exit), EventAction::Nothing);
    assert_eq!(on_event(Platform::Desktop, RunEventKind::Exit), EventAction::SaveState);
    assert_eq!(on_event(Platform::Desktop, RunEventKind::Ready), EventAction::Nothing);
    assert_eq!(on_event(Platform::Ohos, RunEventKind::Other), EventAction::Nothing);
}

#[test]
fn ready_restore_gating() {
    let deny = vec![s("splash")];
    let skip = vec![s("tool")];
    assert!(should_restore_on_ready(&s("main"), &deny, None, &skip));
    assert!(should_restore_on_ready(&s("main"), &deny, Some(true), &skip));
    assert!(!should_restore_on_ready(&s("main"), &deny, Some(false), &skip));
    assert!(!should_restore_on_ready(&s("splash"), &deny, Some(true), &skip));
    assert!(!should_restore_on_ready(&s("tool"), &deny, None, &skip));
}

#[test]
fn filter_asked_only_for_allowed_windows() {
    let deny = vec![s("splash")];
    assert!(!filter_needed(&s("splash"), &deny));
    assert!(filter_needed(&s("main"), &deny));
    assert!(filter_needed(&s("main"), &vec![]));
}

#[test]
fn state_queries_skipped_on_ohos() {
    let all = StateFlags::all();
    assert!(!maximized_query_needed(Platform::Ohos, all));
    assert!(!minimized_query_needed(Platform::Ohos, all));
    assert!(!update_state_is_maximized(Platform::Ohos, all, true));
    assert!(!update_state_is_minimized(Platform::Ohos, all, true));
    assert!(!moved_is_minimized(Platform::Ohos, Some(true)));
}

#[test]
fn state_queries_on_desktop() {
    let vis = StateFlags::from_bits_truncate(VISIBLE_BIT);
    let max = StateFlags::from_bits_truncate(MAXIMIZED_BIT);
    assert!(!maximized_query_needed(Platform::Desktop, vis));
    assert!(maximized_query_needed(Platform::Desktop, max));
    assert!(update_state_is_maximized(Platform::Desktop, max, true));
    assert!(!update_state_is_maximized(Platform::Desktop, vis, true));
    assert!(!minimized_query_needed(Platform::Desktop, max));
    assert!(update_state_is_minimized(Platform::Desktop, StateFlags::from_bits_truncate(POSITION_BIT), true));
    assert!(moved_is_minimized(Platform::Desktop, Some(true)));
    assert!(!moved_is_minimized(Platform::Desktop, None));
}

#[test]
fn resize_saving() {
    let probe = ResizeProbe { is_macos: false, decorated: Some(true), resizable: Some(true), maximized: Some(true), minimized: Some(false) };
    assert!(resized_should_save(Platform::Ohos, probe));
    assert!(!resized_should_save(Platform::Desktop, probe));
    let mac = ResizeProbe { is_macos: true, decorated: Some(false), ..probe };
    assert!(resized_should_save(Platform::Desktop, mac));
    let minimized = ResizeProbe { maximized: Some(false), minimized: Some(true), ..probe };
    assert!(!resized_should_save(Platform::Desktop, minimized));
    let failed = ResizeProbe { maximized: None, minimized: None, ..probe };
    assert!(resized_should_save(Platform::Desktop, failed));
}

#[test]
fn desktop_window_lookup() {
    let mapped = vec![s("a"), s("main"), s("main")];
    assert_eq!(window_for_label(&mapped, &s("main")), Some(1));
    assert_eq!(window_for_label(&mapped, &s("zzz")), None);
}
