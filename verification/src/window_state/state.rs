use vstd::prelude::*;
use crate::window_state::save::{
    find_fresh, first_fresh, refresh_state, refreshed, refreshed_cache, FreshGeometry,
};

verus! {

/// The persisted state of one window.
#[derive(Clone, Copy, Debug, PartialEq, Eq, Structural)]
pub struct WindowState {
    pub width: u32,
    pub height: u32,
    pub x: i32,
    pub y: i32,
    /// Position before the window was maximized.
    pub prev_x: i32,
    pub prev_y: i32,
    pub maximized: bool,
    pub visible: bool,
    pub decorated: bool,
    pub fullscreen: bool,
}

/// The state a window has before anything was recorded for it: zero geometry,
/// visible, decorated, neither maximized nor fullscreen.
pub open spec fn default_state() -> WindowState {
    WindowState {
        width: 0,
        height: 0,
        x: 0,
        y: 0,
        prev_x: 0,
        prev_y: 0,
        maximized: false,
        visible: true,
        decorated: true,
        fullscreen: false,
    }
}

impl Default for WindowState {
    fn default() -> (s: Self)
        ensures
            s == default_state(),
    {
        WindowState {
            width: 0,
            height: 0,
            x: 0,
            y: 0,
            prev_x: 0,
            prev_y: 0,
            maximized: false,
            visible: true,
            decorated: true,
            fullscreen: false,
        }
    }
}

/// Whether no two entries carry the same label.
pub open spec fn labels_distinct(entries: Seq<(String, WindowState)>) -> bool {
    forall|i: int, j: int|
        0 <= i < entries.len() && 0 <= j < entries.len() && i != j ==> #[trigger] entries[i].0@
            != #[trigger] entries[j].0@
}

/// Whether some entry carries the label `k`.
pub open spec fn has_label(entries: Seq<(String, WindowState)>, k: Seq<char>) -> bool {
    exists|i: int| 0 <= i < entries.len() && #[trigger] entries[i].0@ == k
}

/// The state of the entry that carries the label `k`.
pub open spec fn state_of(entries: Seq<(String, WindowState)>, k: Seq<char>) -> WindowState {
    entries[choose|i: int| 0 <= i < entries.len() && #[trigger] entries[i].0@ == k].1
}

/// The map from labels to states that a sequence of entries stands for.
pub open spec fn entries_map(entries: Seq<(String, WindowState)>) -> Map<Seq<char>, WindowState> {
    Map::new(|k: Seq<char>| has_label(entries, k), |k: Seq<char>| state_of(entries, k))
}

/// With distinct labels, the entry at `i` is the one the map reads for its label.
pub proof fn lemma_entry_in_map(entries: Seq<(String, WindowState)>, i: int)
    requires
        labels_distinct(entries),
        0 <= i < entries.len(),
    ensures
        entries_map(entries).contains_key(entries[i].0@),
        entries_map(entries)[entries[i].0@] == entries[i].1,
{
    let k = entries[i].0@;
    assert(has_label(entries, k));
    let j: int = choose|j: int| 0 <= j < entries.len() && #[trigger] entries[j].0@ == k;
    assert(j == i);
}

/// Two entry sequences with the same labels at the same places stand for maps
/// with the same labels, each read at that place.
pub proof fn lemma_same_labels(
    a: Seq<(String, WindowState)>,
    b: Seq<(String, WindowState)>,
    k: Seq<char>,
)
    requires
        labels_distinct(a),
        a.len() == b.len(),
        forall|i: int| 0 <= i < a.len() ==> #[trigger] b[i].0@ == a[i].0@,
    ensures
        labels_distinct(b),
        entries_map(a).contains_key(k) == entries_map(b).contains_key(k),
        entries_map(a).contains_key(k) ==> exists|i: int|
            0 <= i < a.len() && a[i].0@ == k && entries_map(a)[k] == a[i].1 && entries_map(b)[k]
                == b[i].1,
{
    assert forall|i: int, j: int|
        0 <= i < b.len() && 0 <= j < b.len() && i != j implies #[trigger] b[i].0@
        != #[trigger] b[j].0@ by {
        assert(a[i].0@ != a[j].0@);
    }
    if has_label(a, k) {
        let i: int = choose|i: int| 0 <= i < a.len() && #[trigger] a[i].0@ == k;
        lemma_entry_in_map(a, i);
        lemma_entry_in_map(b, i);
    }
    if has_label(b, k) {
        let i: int = choose|i: int| 0 <= i < b.len() && #[trigger] b[i].0@ == k;
        assert(a[i].0@ == k);
    }
}

/// Writing the entry (`k`, `v`) at place `i` of distinct-labelled entries,
/// either over the entry already labelled `k` or, where there is none, at the
/// end, keeps the labels distinct and inserts `k` into the map.
pub proof fn lemma_write_entry(
    before: Seq<(String, WindowState)>,
    after: Seq<(String, WindowState)>,
    k: Seq<char>,
    v: WindowState,
    i: int,
)
    requires
        labels_distinct(before),
        0 <= i <= before.len(),
        i < before.len() ==> before[i].0@ == k && after.len() == before.len(),
        i == before.len() ==> !has_label(before, k) && after.len() == before.len() + 1,
        after[i].0@ == k,
        after[i].1 == v,
        forall|j: int| 0 <= j < before.len() && j != i ==> #[trigger] after[j] == before[j],
    ensures
        labels_distinct(after),
        entries_map(after) == entries_map(before).insert(k, v),
{
    assert forall|a: int, b: int|
        0 <= a < after.len() && 0 <= b < after.len() && a != b implies #[trigger] after[a].0@
        != #[trigger] after[b].0@ by {
        if a != i && b != i {
            assert(before[a].0@ != before[b].0@);
        } else if a == i {
            if i < before.len() {
                assert(before[b].0@ != before[i].0@);
            } else {
                assert(before[b].0@ != k);
            }
        } else {
            if i < before.len() {
                assert(before[a].0@ != before[i].0@);
            } else {
                assert(before[a].0@ != k);
            }
        }
    }
    assert forall|q: Seq<char>|
        #![trigger entries_map(after).contains_key(q)]
        entries_map(after).contains_key(q) == entries_map(before).insert(k, v).contains_key(q) && (
        entries_map(after).contains_key(q) ==> entries_map(after)[q] == entries_map(before).insert(
            k,
            v,
        )[q]) by {
        if q == k {
            lemma_entry_in_map(after, i);
        } else {
            if has_label(before, q) {
                let j: int = choose|j: int| 0 <= j < before.len() && #[trigger] before[j].0@ == q;
                lemma_entry_in_map(before, j);
                lemma_entry_in_map(after, j);
            }
            if has_label(after, q) {
                let j: int = choose|j: int| 0 <= j < after.len() && #[trigger] after[j].0@ == q;
                assert(j != i);
                assert(before[j].0@ == q);
            }
        }
    }
    assert(entries_map(after) =~= entries_map(before).insert(k, v));
}

/// The place of the entry labelled `label` in `entries`, if there is one.
fn position_of(entries: &Vec<(String, WindowState)>, label: &String) -> (r: Option<usize>)
    ensures
        match r {
            Some(i) => i < entries@.len() && entries@[i as int].0@ == label@,
            None => !has_label(entries@, label@),
        },
{
    let mut i: usize = 0;
    while i < entries.len()
        invariant
            i <= entries@.len(),
            forall|j: int| 0 <= j < i ==> #[trigger] entries@[j].0@ != label@,
        decreases entries@.len() - i,
    {
        if entries[i].0 == *label {
            return Some(i);
        }
        i = i + 1;
    }
    None
}


/// The window-state cache: the last known state of each window it follows, keyed
/// by label.
pub struct WindowStateMap {
    entries: Vec<(String, WindowState)>,
}

impl View for WindowStateMap {
    type V = Map<Seq<char>, WindowState>;

    closed spec fn view(&self) -> Map<Seq<char>, WindowState> {
        entries_map(self.entries@)
    }
}

impl WindowStateMap {
    #[verifier::type_invariant]
    closed spec fn wf(self) -> bool {
        labels_distinct(self.entries@)
    }

    /// An empty cache.
    pub fn new() -> (m: Self)
        ensures
            m@ == Map::<Seq<char>, WindowState>::empty(),
    {
        let m = WindowStateMap { entries: Vec::new() };
        assert(m@ =~= Map::<Seq<char>, WindowState>::empty());
        m
    }

    /// Whether the cache tracks the window labelled `label`.
    pub fn contains(&self, label: &String) -> (r: bool)
        ensures
            r == self@.contains_key(label@),
    {
        proof {
            use_type_invariant(self);
        }
        match position_of(&self.entries, label) {
            Some(i) => {
                proof {
                    lemma_entry_in_map(self.entries@, i as int);
                }
                true
            },
            None => false,
        }
    }

    /// The state recorded for the window labelled `label`.
    pub fn get(&self, label: &String) -> (r: Option<WindowState>)
        ensures
            r == (if self@.contains_key(label@) {
                Some(self@[label@])
            } else {
                None
            }),
    {
        proof {
            use_type_invariant(self);
        }
        match position_of(&self.entries, label) {
            Some(i) => {
                proof {
                    lemma_entry_in_map(self.entries@, i as int);
                }
                Some(self.entries[i].1)
            },
            None => None,
        }
    }

    /// Records `state` for the window labelled `label`, replacing what was there.
    pub fn insert(&mut self, label: String, state: WindowState)
        ensures
            final(self)@ == old(self)@.insert(label@, state),
    {
        proof {
            use_type_invariant(&*self);
        }
        let ghost k = label@;
        let ghost before = self.entries@;
        let mut entries: Vec<(String, WindowState)> = Vec::new();
        std::mem::swap(&mut entries, &mut self.entries);
        assert(entries@ == before);
        let ghost i: int;
        match position_of(&entries, &label) {
            Some(p) => {
                proof {
                    i = p as int;
                }
                entries.set(p, (label, state));
            },
            None => {
                proof {
                    i = before.len() as int;
                }
                entries.push((label, state));
            },
        }
        proof {
            lemma_write_entry(before, entries@, k, state, i);
        }
        self.entries = entries;
    }

    /// Writes freshly read geometry over the cached windows: each cached
    /// window takes the position and size of the first fresh geometry collected
    /// under its label; windows without one, and every other part of a state,
    /// stay as they were. No window is added or dropped.
    pub fn refresh_geometry(&mut self, fresh: &Vec<FreshGeometry>)
        ensures
            final(self)@ == refreshed_cache(old(self)@, fresh@),
    {
        proof {
            use_type_invariant(&*self);
        }
        let ghost before = self.entries@;
        let mut entries: Vec<(String, WindowState)> = Vec::new();
        std::mem::swap(&mut entries, &mut self.entries);
        let mut i: usize = 0;
        while i < entries.len()
            invariant
                i <= entries@.len(),
                entries@.len() == before.len(),
                labels_distinct(before),
                forall|j: int| 0 <= j < entries@.len() ==> #[trigger] entries@[j].0@ == before[j].0@,
                forall|j: int|
                    0 <= j < i ==> #[trigger] entries@[j].1 == refreshed(
                        before[j].1,
                        first_fresh(fresh@, before[j].0@),
                    ),
                forall|j: int| i <= j < entries@.len() ==> #[trigger] entries@[j].1 == before[j].1,
            decreases entries@.len() - i,
        {
            let label = entries[i].0.clone();
            let state = entries[i].1;
            match find_fresh(fresh, &label) {
                Some(g) => {
                    let updated = refresh_state(state, &fresh[g]);
                    entries.set(i, (label, updated));
                },
                None => {},
            }
            i = i + 1;
        }
        proof {
            let after = entries@;
            assert forall|k: Seq<char>|
                #![trigger entries_map(after).contains_key(k)]
                entries_map(after).contains_key(k) == refreshed_cache(
                    entries_map(before),
                    fresh@,
                ).contains_key(k) && (entries_map(after).contains_key(k) ==> entries_map(after)[k]
                    == refreshed_cache(entries_map(before), fresh@)[k]) by {
                lemma_same_labels(before, after, k);
            }
            assert(entries_map(after) =~= refreshed_cache(entries_map(before), fresh@));
        }
        self.entries = entries;
    }

    /// The labels of all cached windows.
    pub fn labels(&self) -> (r: Vec<String>)
        ensures
            forall|i: int| 0 <= i < r@.len() ==> self@.contains_key(#[trigger] r@[i]@),
            forall|k: Seq<char>|
                self@.contains_key(k) ==> exists|i: int| 0 <= i < r@.len() && #[trigger] r@[i]@ == k,
            forall|i: int, j: int|
                0 <= i < r@.len() && 0 <= j < r@.len() && i != j ==> #[trigger] r@[i]@
                    != #[trigger] r@[j]@,
    {
        proof {
            use_type_invariant(self);
        }
        let mut r: Vec<String> = Vec::new();
        let mut i: usize = 0;
        while i < self.entries.len()
            invariant
                i <= self.entries@.len(),
                r@.len() == i,
                labels_distinct(self.entries@),
                forall|j: int| 0 <= j < i ==> #[trigger] r@[j]@ == self.entries@[j].0@,
            decreases self.entries@.len() - i,
        {
            r.push(self.entries[i].0.clone());
            i = i + 1;
        }
        proof {
            assert forall|j: int| 0 <= j < r@.len() implies self@.contains_key(#[trigger] r@[j]@) by {
                lemma_entry_in_map(self.entries@, j);
            }
            assert forall|k: Seq<char>| self@.contains_key(k) implies exists|j: int|
                0 <= j < r@.len() && #[trigger] r@[j]@ == k by {
                let j: int = choose|j: int|
                    0 <= j < self.entries@.len() && #[trigger] self.entries@[j].0@ == k;
                assert(r@[j]@ == k);
            }
        }
        r
    }
}

} // verus!
