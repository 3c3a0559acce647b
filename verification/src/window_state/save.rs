use vstd::prelude::*;
use crate::window_state::state::WindowState;

verus! {

/// Geometry read from a live window while no cache lock is held: its label
/// (after the plugin's label mapping), its outer position if the query
/// answered, and its inner size if the query answered with a non-empty size.
#[derive(Clone, Debug)]
pub struct FreshGeometry {
    pub label: String,
    pub position: Option<(i32, i32)>,
    pub size: Option<(u32, u32)>,
}

/// Whether `labels` holds a label equal to `k`.
pub open spec fn seq_has(labels: Seq<String>, k: Seq<char>) -> bool {
    exists|i: int| 0 <= i < labels.len() && #[trigger] labels[i]@ == k
}

/// The places, in order, of the first `n` windows whose label the cache holds.
pub open spec fn cached_places(cached: Seq<String>, labels: Seq<String>, n: int) -> Seq<usize>
    decreases n,
{
    if n <= 0 {
        Seq::empty()
    } else if seq_has(cached, labels[n - 1]@) {
        cached_places(cached, labels, n - 1).push((n - 1) as usize)
    } else {
        cached_places(cached, labels, n - 1)
    }
}

/// Whether `labels` holds a label equal to `label`.
pub fn contains_label(labels: &Vec<String>, label: &String) -> (r: bool)
    ensures
        r == seq_has(labels@, label@),
{
    let mut i: usize = 0;
    while i < labels.len()
        invariant
            i <= labels@.len(),
            forall|j: int| 0 <= j < i ==> #[trigger] labels@[j]@ != label@,
        decreases labels@.len() - i,
    {
        if labels[i] == *label {
            return true;
        }
        i = i + 1;
    }
    false
}

/// The places, in order, of the windows (given by their mapped labels) whose
/// geometry a save refreshes: those the cache tracks.
pub fn cached_windows(cached: &Vec<String>, labels: &Vec<String>) -> (r: Vec<usize>)
    ensures
        r@ == cached_places(cached@, labels@, labels@.len() as int),
        forall|i: int|
            0 <= i < labels@.len() ==> (seq_has(cached@, #[trigger] labels@[i]@) <==> r@.contains(
                i as usize,
            )),
        forall|j: int, k: int| 0 <= j < k < r@.len() ==> #[trigger] r@[j] < #[trigger] r@[k],
        forall|j: int| 0 <= j < r@.len() ==> #[trigger] r@[j] < labels@.len(),
{
    let mut r: Vec<usize> = Vec::new();
    let mut i: usize = 0;
    while i < labels.len()
        invariant
            i <= labels@.len(),
            r@ == cached_places(cached@, labels@, i as int),
        decreases labels@.len() - i,
    {
        if contains_label(cached, &labels[i]) {
            r.push(i);
        }
        i = i + 1;
    }
    proof {
        crate::window_state::laws::lemma_cached_places_exact(
            cached@,
            labels@,
            labels@.len() as int,
        );
    }
    r
}

/// The size a save keeps from a live query: only a non-empty one.
pub open spec fn usable_size(size: Option<(u32, u32)>) -> Option<(u32, u32)> {
    match size {
        Some((w, h)) => if w > 0 && h > 0 {
            Some((w, h))
        } else {
            None
        },
        None => None,
    }
}

impl FreshGeometry {
    /// The fresh geometry of a cached window from what its position and size
    /// queries answered (`None` where a query failed).
    pub fn from_queries(label: String, position: Option<(i32, i32)>, size: Option<(u32, u32)>) -> (g:
        FreshGeometry)
        ensures
            g.label@ == label@,
            g.position == position,
            g.size == usable_size(size),
    {
        let size = match size {
            Some((w, h)) => if w > 0 && h > 0 {
                Some((w, h))
            } else {
                None
            },
            None => None,
        };
        FreshGeometry { label, position, size }
    }
}

/// The first fresh geometry collected for the label `k`.
pub open spec fn first_fresh(fresh: Seq<FreshGeometry>, k: Seq<char>) -> Option<FreshGeometry>
    decreases fresh.len(),
{
    if fresh.len() == 0 {
        None
    } else if fresh[0].label@ == k {
        Some(fresh[0])
    } else {
        first_fresh(fresh.drop_first(), k)
    }
}

/// A recorded state with the geometry of `g` written over it: the position
/// where one was read, the size where one was read, nothing else.
pub open spec fn refreshed(s: WindowState, g: Option<FreshGeometry>) -> WindowState {
    match g {
        None => s,
        Some(g) => {
            let moved = match g.position {
                Some((x, y)) => WindowState { x, y, ..s },
                None => s,
            };
            match g.size {
                Some((w, h)) => WindowState { width: w, height: h, ..moved },
                None => moved,
            }
        },
    }
}

/// The cache after a save wrote the fresh geometry over it: the same windows,
/// each refreshed by the first geometry collected for its label.
pub open spec fn refreshed_cache(m: Map<Seq<char>, WindowState>, fresh: Seq<FreshGeometry>) -> Map<
    Seq<char>,
    WindowState,
> {
    Map::new(|k: Seq<char>| m.contains_key(k), |k: Seq<char>| refreshed(m[k], first_fresh(fresh, k)))
}

/// Where the first `i` geometries carry other labels, the first one for `k` is
/// found among the rest.
pub proof fn lemma_first_fresh_skip(fresh: Seq<FreshGeometry>, k: Seq<char>, i: int)
    requires
        0 <= i <= fresh.len(),
        forall|j: int| 0 <= j < i ==> #[trigger] fresh[j].label@ != k,
    ensures
        first_fresh(fresh, k) == first_fresh(fresh.subrange(i, fresh.len() as int), k),
    decreases i,
{
    if i > 0 {
        let rest = fresh.drop_first();
        assert forall|j: int| 0 <= j < i - 1 implies #[trigger] rest[j].label@ != k by {
            assert(rest[j] == fresh[j + 1]);
        }
        lemma_first_fresh_skip(rest, k, i - 1);
        assert(rest.subrange(i - 1, rest.len() as int) =~= fresh.subrange(i, fresh.len() as int));
    } else {
        assert(fresh.subrange(0, fresh.len() as int) =~= fresh);
    }
}

/// The first fresh geometry collected for `label`.
pub fn find_fresh(fresh: &Vec<FreshGeometry>, label: &String) -> (r: Option<usize>)
    ensures
        match r {
            Some(i) => i < fresh@.len() && first_fresh(fresh@, label@) == Some(fresh@[i as int]),
            None => first_fresh(fresh@, label@) is None,
        },
{
    let mut i: usize = 0;
    while i < fresh.len()
        invariant
            i <= fresh@.len(),
            forall|j: int| 0 <= j < i ==> #[trigger] fresh@[j].label@ != label@,
        decreases fresh@.len() - i,
    {
        if fresh[i].label == *label {
            proof {
                lemma_first_fresh_skip(fresh@, label@, i as int);
            }
            return Some(i);
        }
        i = i + 1;
    }
    proof {
        lemma_first_fresh_skip(fresh@, label@, i as int);
    }
    None
}

/// The state refreshed by one fresh geometry.
pub fn refresh_state(s: WindowState, g: &FreshGeometry) -> (r: WindowState)
    ensures
        r == refreshed(s, Some(*g)),
{
    let mut r = s;
    if let Some((x, y)) = g.position {
        r.x = x;
        r.y = y;
    }
    if let Some((w, h)) = g.size {
        r.width = w;
        r.height = h;
    }
    r
}

/// On the desktop platforms, the window a save reads the state of the cached
/// window `label` from: the first window whose (mapped) label equals it.
pub fn window_for_label(mapped: &Vec<String>, label: &String) -> (r: Option<usize>)
    ensures
        match r {
            Some(i) => i < mapped@.len() && mapped@[i as int]@ == label@ && forall|j: int|
                0 <= j < i ==> #[trigger] mapped@[j]@ != label@,
            None => !seq_has(mapped@, label@),
        },
{
    let mut i: usize = 0;
    while i < mapped.len()
        invariant
            i <= mapped@.len(),
            forall|j: int| 0 <= j < i ==> #[trigger] mapped@[j]@ != label@,
        decreases mapped@.len() - i,
    {
        if mapped[i] == *label {
            return Some(i);
        }
        i = i + 1;
    }
    None
}

} // verus!
