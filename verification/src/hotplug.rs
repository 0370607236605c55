//! Displays that come and go: disconnecting keeps a display's settings in
//! the cache of disconnected displays, reconnecting at the same position
//! gives them back; and the decisions the event loop takes about redrawing
//! and benchmark progress.
use vstd::prelude::*;
use crate::app::{adopt_detected, config_of, AppState};
use crate::display_config::{
    effective_profile, DisplayCategory, DisplayConfig, FilterMode, MonitorId,
};
use crate::store::{cache_after_store, find_key, without_key, DisconnectedCache};

verus! {

broadcast use vstd::seq_lib::group_to_multiset_ensures;

/// The settings of a display connected at position `pos_key` with the
/// detected category and PPI, when the cache of disconnected displays finds
/// `cached` for that position: cached settings come back as they were, with
/// the detected category and PPI in place of an unknown category; without
/// them the display gets the settings stored for the position in an earlier
/// run, or `default`, adjusted as `adopt_detected` says.
pub open spec fn reconnected(
    cached: Option<DisplayConfig>,
    stored_settings: Seq<DisplayConfig>,
    default: DisplayConfig,
    pos_key: String,
    category: DisplayCategory,
    ppi: u32,
) -> DisplayConfig {
    match cached {
        Some(c) => if c.display_category == DisplayCategory::Unknown {
            DisplayConfig { display_category: category, ppi, ..c }
        } else {
            c
        },
        None => adopt_detected(
            DisplayConfig {
                position_key: pos_key,
                ..match find_key(stored_settings, pos_key@) {
                    Some(c) => c,
                    None => default,
                }
            },
            category,
            ppi,
        ),
    }
}

/// The connected displays after display `id` is connected at `pos_key`:
/// a display that is already connected keeps its settings when the cache
/// gives settings for the position (its unknown category becomes the
/// detected one with its PPI); otherwise it gets the `reconnected`
/// settings.
pub open spec fn connected_displays(
    m: Map<u64, DisplayConfig>,
    id: MonitorId,
    cached: Option<DisplayConfig>,
    stored_settings: Seq<DisplayConfig>,
    default: DisplayConfig,
    pos_key: String,
    category: DisplayCategory,
    ppi: u32,
) -> Map<u64, DisplayConfig> {
    if m.contains_key(id.0) && cached is Some {
        let e = m[id.0];
        m.insert(
            id.0,
            if e.display_category == DisplayCategory::Unknown {
                DisplayConfig { display_category: category, ppi, ..e }
            } else {
                e
            },
        )
    } else {
        m.insert(id.0, reconnected(cached, stored_settings, default, pos_key, category, ppi))
    }
}

impl AppState {
    /// Disconnects display `id` and keeps its settings in `cache`.
    pub fn disconnect_display(&mut self, id: &MonitorId, cache: &mut DisconnectedCache)
        ensures
            final(self).same_except_displays(old(self)),
            final(self).global_enabled == old(self).global_enabled,
            final(self).displays@ == old(self).displays@.remove(id.0),
            final(cache)@ == match config_of(old(self).displays@, *id) {
                Some(c) => cache_after_store(old(cache)@, c),
                None => old(cache)@,
            },
    {
        match self.remove_display(id) {
            Some(config) => cache.store(config),
            None => {},
        }
    }

    /// Connects display `id` found at position `pos_key` with the detected
    /// category and PPI: the settings it had when it was disconnected at
    /// that position come back from `cache`; a display not in the cache is
    /// added with the settings of an earlier run or the default ones.
    pub fn connect_display(
        &mut self,
        id: MonitorId,
        pos_key: String,
        category: DisplayCategory,
        ppi: u32,
        cache: &mut DisconnectedCache,
    )
        ensures
            final(self).same_except_displays(old(self)),
            final(self).global_enabled == old(self).global_enabled,
            final(cache)@ == without_key(old(cache)@, pos_key@),
            final(self).displays@ == connected_displays(
                old(self).displays@,
                id,
                find_key(old(cache)@, pos_key@),
                old(self).stored_settings(),
                old(self).default_config,
                pos_key,
                category,
                ppi,
            ),
    {
        let ghost before = *old(self);
        match cache.restore(pos_key.as_str()) {
            Some(config) => {
                self.add_display(id, Some(config));
                if self.display_category(&id) == DisplayCategory::Unknown {
                    self.set_display_category(&id, category, ppi);
                }
                proof {
                    assert(self.displays@ =~= connected_displays(
                        before.displays@,
                        id,
                        find_key(old(cache)@, pos_key@),
                        before.stored_settings(),
                        before.default_config,
                        pos_key,
                        category,
                        ppi,
                    ));
                }
            },
            None => {
                self.add_display_with_pos_and_profile(id, pos_key, category, ppi);
            },
        }
    }

    /// Whether some overlay among `ids` needs continuous redrawing: it is
    /// shown, its mode is not the plain black layer, and its pattern
    /// scrolls or flips phase (faster than 0.001 per second).
    pub fn needs_animation(&self, ids: &Vec<MonitorId>) -> (b: bool)
        ensures
            b == exists|i: int|
                0 <= i < ids@.len() && #[trigger] animated(*self, ids@[i]),
    {
        let mut i: usize = 0;
        while i < ids.len()
            invariant
                i <= ids@.len(),
                forall|j: int| 0 <= j < i ==> !#[trigger] animated(*self, ids@[j]),
            decreases ids@.len() - i,
        {
            let id = ids[i];
            if self.is_visible(&id) && self.filter_mode(&id) != FilterMode::BlackLayer {
                match self.displays.get(&id.0) {
                    Some(c) => {
                        let p = c.get_effective_profile();
                        if p.scroll_speed_mm_per_sec > 10 || p.phase_flip_hz > 10 {
                            assert(animated(*self, ids@[i as int]));
                            return true;
                        }
                    },
                    None => {},
                }
            }
            i = i + 1;
        }
        false
    }

    /// Records the progress of the running benchmark (in ten-thousandths)
    /// and tells whether to rebuild the menu (at the start and at each new
    /// tenth) and whether to notify (at each new quarter).
    pub fn set_benchmark_progress(&mut self, progress: u32) -> (r: (bool, bool))
        ensures
            final(self).benchmark_progress == Some(progress),
            final(self).same_except_progress(old(self)),
            r == ({
                let before = match old(self).benchmark_progress {
                    Some(p) => p,
                    None => 0,
                };
                (progress / 1000 > before / 1000 || progress == 0, progress / 2500 > before / 2500)
            }),
    {
        let before = match self.benchmark_progress {
            Some(p) => p,
            None => 0,
        };
        self.benchmark_progress = Some(progress);
        (progress / 1000 > before / 1000 || progress == 0, progress / 2500 > before / 2500)
    }

    /// All fields but the benchmark progress are those of `other`.
    pub open spec fn same_except_progress(&self, other: &AppState) -> bool {
        &&& self.global_enabled == other.global_enabled
        &&& self.displays@ == other.displays@
        &&& self.default_config == other.default_config
        &&& self.auto_start == other.auto_start
        &&& self.ai_detection_enabled == other.ai_detection_enabled
        &&& self.ai_vigilance_mode == other.ai_vigilance_mode
        &&& self.ai_peeper_detected == other.ai_peeper_detected
        &&& self.stealth_snapshot == other.stealth_snapshot
        &&& self.presets@ == other.presets@
        &&& self.stored_settings() == other.stored_settings()
    }

    /// Ends the benchmark: no progress is shown any more.
    pub fn finish_benchmark(&mut self)
        ensures
            final(self).benchmark_progress is None,
            final(self).same_except_progress(old(self)),
    {
        self.benchmark_progress = None;
    }
}

/// The overlay of display `id` needs continuous redrawing.
pub open spec fn animated(s: AppState, id: MonitorId) -> bool {
    &&& s.global_enabled
    &&& s.displays@.contains_key(id.0)
    &&& s.displays@[id.0].enabled
    &&& s.displays@[id.0].filter_mode != FilterMode::BlackLayer
    &&& ({
        let p = effective_profile(s.displays@[id.0]);
        p.scroll_speed_mm_per_sec > 10 || p.phase_flip_hz > 10
    })
}

/// The predicate "not among `ids`".
pub open spec fn not_among(ids: Seq<MonitorId>) -> spec_fn(MonitorId) -> bool {
    |x: MonitorId| !ids.contains(x)
}

/// Whether `id` is among `ids`.
fn contains_id(ids: &Vec<MonitorId>, id: MonitorId) -> (b: bool)
    ensures
        b == ids@.contains(id),
{
    let mut i: usize = 0;
    while i < ids.len()
        invariant
            i <= ids@.len(),
            forall|j: int| 0 <= j < i ==> ids@[j] != id,
        decreases ids@.len() - i,
    {
        if ids[i] == id {
            assert(ids@[i as int] == id);
            return true;
        }
        i = i + 1;
    }
    false
}

/// The ids of `a` that are not among `b`, in order.
fn ids_missing_from(a: &Vec<MonitorId>, b: &Vec<MonitorId>) -> (r: Vec<MonitorId>)
    ensures
        r@ == a@.filter(not_among(b@)),
{
    let mut out: Vec<MonitorId> = Vec::new();
    let mut i: usize = 0;
    while i < a.len()
        invariant
            i <= a@.len(),
            out@ == a@.take(i as int).filter(not_among(b@)),
        decreases a@.len() - i,
    {
        proof {
            assert(a@.take(i + 1) =~= a@.take(i as int).push(a@[i as int]));
            a@.take(i as int).lemma_filter_push(a@[i as int], not_among(b@));
        }
        if !contains_id(b, a[i]) {
            out.push(a[i]);
        }
        i = i + 1;
    }
    assert(a@.take(i as int) =~= a@);
    out
}

/// How many times `x` occurs among `ids`.
fn count_id(ids: &Vec<MonitorId>, x: MonitorId) -> (n: usize)
    ensures
        n == ids@.to_multiset().count(x),
{
    let mut n: usize = 0;
    let mut i: usize = 0;
    while i < ids.len()
        invariant
            i <= ids@.len(),
            n <= i,
            n == ids@.take(i as int).to_multiset().count(x),
        decreases ids@.len() - i,
    {
        assert(ids@.take(i + 1) =~= ids@.take(i as int).push(ids@[i as int]));
        if ids[i] == x {
            n = n + 1;
        }
        i = i + 1;
    }
    assert(ids@.take(i as int) =~= ids@);
    n
}

/// Whether `a` and `b` hold the same ids, each as many times.
fn same_ids(a: &Vec<MonitorId>, b: &Vec<MonitorId>) -> (r: bool)
    ensures
        r == (a@.to_multiset() == b@.to_multiset()),
{
    let mut i: usize = 0;
    while i < a.len()
        invariant
            i <= a@.len(),
            forall|j: int| 0 <= j < i ==> a@.to_multiset().count(#[trigger] a@[j]) == b@.to_multiset().count(a@[j]),
        decreases a@.len() - i,
    {
        if count_id(a, a[i]) != count_id(b, a[i]) {
            return false;
        }
        i = i + 1;
    }
    let mut k: usize = 0;
    while k < b.len()
        invariant
            k <= b@.len(),
            forall|j: int| 0 <= j < a@.len() ==> a@.to_multiset().count(#[trigger] a@[j]) == b@.to_multiset().count(a@[j]),
            forall|j: int| 0 <= j < k ==> a@.to_multiset().count(#[trigger] b@[j]) == b@.to_multiset().count(b@[j]),
        decreases b@.len() - k,
    {
        if count_id(a, b[k]) != count_id(b, b[k]) {
            return false;
        }
        k = k + 1;
    }
    assert forall|x: MonitorId| a@.to_multiset().count(x) == b@.to_multiset().count(x) by {
        if a@.contains(x) {
            let j = choose|j: int| 0 <= j < a@.len() && a@[j] == x;
            assert(a@.to_multiset().count(a@[j]) == b@.to_multiset().count(a@[j]));
        } else if b@.contains(x) {
            let j = choose|j: int| 0 <= j < b@.len() && b@[j] == x;
            assert(a@.to_multiset().count(b@[j]) == b@.to_multiset().count(b@[j]));
        }
    }
    assert(a@.to_multiset() =~= b@.to_multiset());
    true
}

/// What changed between the displays that have overlays (`existing`) and
/// those connected now (`current`): whether the two lists hold different
/// ids (compared as sorted lists, so each id as many times), and the ids
/// that went away and the ids that came, each in its list's order.
pub fn display_changes(existing: &Vec<MonitorId>, current: &Vec<MonitorId>) -> (r: (bool, Vec<MonitorId>, Vec<MonitorId>))
    ensures
        r.0 == (existing@.to_multiset() != current@.to_multiset()),
        r.1@ == existing@.filter(not_among(current@)),
        r.2@ == current@.filter(not_among(existing@)),
{
    let changed = !same_ids(existing, current);
    let removed = ids_missing_from(existing, current);
    let added = ids_missing_from(current, existing);
    (changed, removed, added)
}

} // verus!
