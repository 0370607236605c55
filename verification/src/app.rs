//! Application state: the global switch, the settings of each connected
//! display, presets, AI detection flags and the stealth-mode snapshot of the
//! OS settings.
//!
//! Operations that may start or end stealth mode return a `StealthAction`:
//! the OS work (reading and changing dark mode and brightness) belongs to the
//! caller, which performs the action it is handed.
use vstd::prelude::*;
use std::collections::HashMap;
use crate::display_config::{
    alpha_byte, is_default_config, recommended_alpha_value, recommended_intensity_of,
    recommended_mode, settings_of, with_settings, DisplayCategory, DisplayConfig, DisplayProfile,
    FilterMode, FilterSettings, MonitorId, PanelType, Preset,
};
use crate::ai_detection::AIDetectionCommand;
use crate::menu::AiMode;
use crate::store::{find_key, keys_unique, lemma_find_stored, stored, without_key, ConfigStore};

verus! {

broadcast use vstd::std_specs::hash::group_hash_axioms;

/// Brightness (0.25) that stealth mode sets.
pub const STEALTH_BRIGHTNESS: u32 = 2500;

/// Alpha byte of every overlay while someone looking over the shoulder is
/// detected (80%).
pub const PEEPER_ALPHA: u8 = 204;

/// The OS settings in force before stealth mode changed them.
#[derive(Debug, Clone, Copy, PartialEq, Eq, Structural)]
pub struct OSSettingsSnapshot {
    pub was_dark_mode: bool,
    pub original_brightness: u32,
}

/// What the caller has to do to the OS after a stealth-mode check.
#[derive(Debug, Clone, Copy, PartialEq, Eq, Structural)]
pub enum StealthAction {
    /// Nothing changes.
    Keep,
    /// Enter stealth mode: read the current dark mode and brightness, hand
    /// them to `AppState::record_stealth_snapshot`, then turn dark mode on
    /// and set the brightness to `STEALTH_BRIGHTNESS`.
    Activate,
    /// Leave stealth mode: put back dark mode and brightness as recorded.
    Restore(OSSettingsSnapshot),
}

/// Settings shown on a display while the benchmark measures it, and put
/// back when it ends.
#[derive(Debug, Clone, Copy, PartialEq, Eq, Structural)]
pub struct TestSettings {
    pub filter_mode: FilterMode,
    pub alpha: u32,
    pub override_period_mm: Option<u32>,
    pub override_cover_ratio: Option<u32>,
    pub override_scroll_speed: Option<u32>,
}

impl TestSettings {
    /// The test settings that put back `s`.
    pub fn from_settings(s: &FilterSettings) -> (t: Self)
        ensures
            t.filter_mode == s.filter_mode,
            t.alpha == s.alpha,
            t.override_period_mm == s.override_period_mm,
            t.override_cover_ratio == s.override_cover_ratio,
            t.override_scroll_speed == s.override_scroll_speed,
    {
        TestSettings {
            filter_mode: s.filter_mode,
            alpha: s.alpha,
            override_period_mm: s.override_period_mm,
            override_cover_ratio: s.override_cover_ratio,
            override_scroll_speed: s.override_scroll_speed,
        }
    }
}

/// A display's settings with test settings shown on it; the alpha is
/// clamped to 0..=1.
pub open spec fn with_test_settings(c: DisplayConfig, t: TestSettings) -> DisplayConfig {
    DisplayConfig {
        filter_mode: t.filter_mode,
        alpha: clamp(t.alpha, 0, 10000),
        override_period_mm: t.override_period_mm,
        override_cover_ratio: t.override_cover_ratio,
        override_scroll_speed: t.override_scroll_speed,
        ..c
    }
}

/// Settings kept between runs.
pub struct AppConfig {
    pub global_enabled: bool,
    pub default_alpha: u32,
    pub default_filter_mode: FilterMode,
    pub auto_start: bool,
    pub ai_detection_enabled: bool,
    /// Settings of displays seen before, by position key.
    pub display_settings: ConfigStore,
}

impl Default for AppConfig {
    fn default() -> (c: Self)
        ensures
            c.global_enabled,
            c.default_alpha == 3000,
            c.default_filter_mode == FilterMode::BlackLayer,
            !c.auto_start,
            !c.ai_detection_enabled,
            c.display_settings@ == Seq::<DisplayConfig>::empty(),
    {
        AppConfig {
            global_enabled: true,
            default_alpha: 3000,
            default_filter_mode: FilterMode::BlackLayer,
            auto_start: false,
            ai_detection_enabled: false,
            display_settings: ConfigStore::new(),
        }
    }
}

/// The state of the application.
pub struct AppState {
    /// Switch for all filters at once; when off no filter is shown.
    pub global_enabled: bool,
    /// Settings of each connected display, by monitor id.
    pub displays: HashMap<u64, DisplayConfig>,
    /// Settings given to a display that has none of its own.
    pub default_config: DisplayConfig,
    pub auto_start: bool,
    pub ai_detection_enabled: bool,
    pub ai_vigilance_mode: bool,
    pub ai_peeper_detected: bool,
    /// OS settings to put back when stealth mode ends; present while it is on.
    pub stealth_snapshot: Option<OSSettingsSnapshot>,
    /// Progress of a running benchmark (0 to `UNIT`), if one runs.
    pub benchmark_progress: Option<u32>,
    pub presets: Vec<Preset>,
    /// Settings of displays seen in earlier runs, by position key.
    pub stored_display_settings: ConfigStore,
}

/// The settings of display `id`, if it is connected.
pub open spec fn config_of(m: Map<u64, DisplayConfig>, id: MonitorId) -> Option<DisplayConfig> {
    if m.contains_key(id.0) {
        Some(m[id.0])
    } else {
        None
    }
}

/// `m` with the settings of display `id` replaced by `c`, if it is connected.
pub open spec fn update_display(m: Map<u64, DisplayConfig>, id: MonitorId, c: DisplayConfig) -> Map<
    u64,
    DisplayConfig,
> {
    if m.contains_key(id.0) {
        m.insert(id.0, c)
    } else {
        m
    }
}

/// The filter of display `id` is shown in `s`: the global switch is on and
/// the display is connected with its filter enabled.
pub open spec fn shown(s: AppState, id: MonitorId) -> bool {
    s.global_enabled && s.displays@.contains_key(id.0) && s.displays@[id.0].enabled
}

/// `after` is `before` with the global switch flipped; the stealth snapshot
/// may change with the stealth check that follows, nothing else does.
pub open spec fn global_toggled(before: AppState, after: AppState) -> bool {
    &&& after.global_enabled == !before.global_enabled
    &&& after.displays@ == before.displays@
    &&& after.default_config == before.default_config
    &&& after.auto_start == before.auto_start
    &&& after.ai_detection_enabled == before.ai_detection_enabled
    &&& after.ai_vigilance_mode == before.ai_vigilance_mode
    &&& after.ai_peeper_detected == before.ai_peeper_detected
    &&& after.benchmark_progress == before.benchmark_progress
    &&& after.presets@ == before.presets@
    &&& after.stored_settings() == before.stored_settings()
}

/// The displays `m` with the filter of display `id` flipped, if it is
/// connected.
pub open spec fn display_toggled(m: Map<u64, DisplayConfig>, id: MonitorId) -> Map<u64, DisplayConfig> {
    update_display(m, id, DisplayConfig { enabled: !m[id.0].enabled, ..m[id.0] })
}

/// Some enabled display uses stealth dark mode.
pub open spec fn any_stealth_display(m: Map<u64, DisplayConfig>) -> bool {
    exists|k: u64|
        #![trigger m[k]]
        m.contains_key(k) && m[k].enabled && m[k].filter_mode == FilterMode::StealthDark
}

/// `v` clamped to `lo..=hi`.
pub open spec fn clamp(v: u32, lo: u32, hi: u32) -> u32 {
    if v < lo {
        lo
    } else if v > hi {
        hi
    } else {
        v
    }
}

/// A display's settings after its panel type is set: when its mode is the
/// black layer, or its panel was unknown, the mode becomes the one
/// recommended for the new panel.
pub open spec fn with_panel(c: DisplayConfig, panel_type: PanelType) -> DisplayConfig {
    if c.filter_mode == FilterMode::BlackLayer || c.panel_type == PanelType::Unknown {
        DisplayConfig { panel_type, filter_mode: recommended_mode(panel_type), ..c }
    } else {
        DisplayConfig { panel_type, ..c }
    }
}

/// A display's settings reset to the recommendation for its category and
/// panel: no overrides, recommended mode, intensity and alpha.
pub open spec fn reset_config(c: DisplayConfig) -> DisplayConfig {
    DisplayConfig {
        override_period_mm: None,
        override_cover_ratio: None,
        override_scroll_speed: None,
        filter_mode: recommended_mode(c.panel_type),
        filter_intensity: recommended_intensity_of(c.display_category),
        alpha: recommended_alpha_value(),
        ..c
    }
}

/// Settings of a display that has just been found: the detected category
/// and PPI replace an unknown category, and a black-layer mode becomes the
/// mode recommended for the panel.
pub open spec fn adopt_detected(c: DisplayConfig, category: DisplayCategory, ppi: u32) -> DisplayConfig {
    let c2 = if c.display_category == DisplayCategory::Unknown {
        DisplayConfig { display_category: category, ppi, ..c }
    } else {
        c
    };
    if c2.filter_mode == FilterMode::BlackLayer {
        DisplayConfig { filter_mode: recommended_mode(c2.panel_type), ..c2 }
    } else {
        c2
    }
}

/// Index of the first preset named `name`, if any.
pub open spec fn first_preset(s: Seq<Preset>, name: Seq<char>, i: int) -> bool {
    0 <= i < s.len() && s[i].name@ == name && forall|j: int| 0 <= j < i ==> #[trigger] s[j].name@ != name
}

/// The displays after the first preset named `name` is applied to display
/// `id`: its filter settings become the preset's; nothing changes when no
/// preset has that name or the display is not connected.
pub open spec fn preset_applied(
    m: Map<u64, DisplayConfig>,
    presets: Seq<Preset>,
    name: Seq<char>,
    id: MonitorId,
) -> Map<u64, DisplayConfig> {
    if has_preset(presets, name) {
        let i = choose|i: int| first_preset(presets, name, i);
        update_display(m, id, with_settings(m[id.0], presets[i].settings))
    } else {
        m
    }
}

/// The displays after the first preset named `name` is applied to every
/// one of them; nothing changes when no preset has that name.
pub open spec fn preset_applied_to_all(
    m: Map<u64, DisplayConfig>,
    presets: Seq<Preset>,
    name: Seq<char>,
) -> Map<u64, DisplayConfig> {
    if has_preset(presets, name) {
        let i = choose|i: int| first_preset(presets, name, i);
        Map::new(|k: u64| m.contains_key(k), |k: u64| with_settings(m[k], presets[i].settings))
    } else {
        m
    }
}

/// Some preset is named `name`.
pub open spec fn has_preset(s: Seq<Preset>, name: Seq<char>) -> bool {
    exists|i: int| 0 <= i < s.len() && #[trigger] s[i].name@ == name
}

/// The presets after `p` is saved: the first preset with its name is
/// replaced by `p`; when there is none, `p` is added at the end.
pub open spec fn saved_presets(s: Seq<Preset>, p: Preset) -> Seq<Preset> {
    if has_preset(s, p.name@) {
        s.update(choose|i: int| first_preset(s, p.name@, i), p)
    } else {
        s.push(p)
    }
}

/// The predicate "the name differs from `name`".
pub open spec fn name_differs(name: Seq<char>) -> spec_fn(Preset) -> bool {
    |p: Preset| p.name@ != name
}

/// The stealth-mode decision: `wanted` tells whether stealth mode should be
/// on, `before` and `after` are the recorded OS settings before and after
/// the decision, and `action` what the caller has to do.
pub open spec fn stealth_outcome(
    wanted: bool,
    before: Option<OSSettingsSnapshot>,
    after: Option<OSSettingsSnapshot>,
    action: StealthAction,
) -> bool {
    match action {
        StealthAction::Activate => wanted && before is None && after is None,
        StealthAction::Restore(s) => !wanted && before == Some(s) && after is None,
        StealthAction::Keep => (wanted <==> before is Some) && after == before,
    }
}

/// Some connected display has position key `k`, and `k` is not empty.
pub open spec fn displayed_key(m: Map<u64, DisplayConfig>, k: Seq<char>) -> bool {
    k.len() > 0 && exists|id: u64| #[trigger] m.contains_key(id) && m[id].position_key@ == k
}

/// `result` holds the stored settings updated with the settings of every
/// connected display that has a position key: looking up a key finds the
/// settings of a connected display with that key, if there is one, and the
/// stored settings otherwise.
pub open spec fn merged_settings(
    stored_settings: Seq<DisplayConfig>,
    m: Map<u64, DisplayConfig>,
    result: Seq<DisplayConfig>,
) -> bool {
    &&& keys_unique(result)
    &&& forall|k: Seq<char>|
        #![trigger find_key(result, k)]
        if displayed_key(m, k) {
            exists|id: u64|
                #[trigger] m.contains_key(id) && m[id].position_key@ == k && find_key(result, k)
                    == Some(m[id])
        } else {
            find_key(result, k) == find_key(stored_settings, k)
        }
}

impl AppState {
    /// The settings of displays seen in earlier runs, by position key.
    pub open spec fn stored_settings(&self) -> Seq<DisplayConfig> {
        self.stored_display_settings@
    }

    /// Stealth mode should be on: the global switch is on and some enabled
    /// display uses stealth dark mode.
    pub open spec fn stealth_wanted(&self) -> bool {
        self.global_enabled && any_stealth_display(self.displays@)
    }

    /// All fields but `displays` are those of `other`.
    pub open spec fn same_except_displays(&self, other: &AppState) -> bool {
        &&& self.global_enabled == other.global_enabled
        &&& self.default_config == other.default_config
        &&& self.auto_start == other.auto_start
        &&& self.ai_detection_enabled == other.ai_detection_enabled
        &&& self.ai_vigilance_mode == other.ai_vigilance_mode
        &&& self.ai_peeper_detected == other.ai_peeper_detected
        &&& self.stealth_snapshot == other.stealth_snapshot
        &&& self.benchmark_progress == other.benchmark_progress
        &&& self.presets@ == other.presets@
        &&& self.stored_settings() == other.stored_settings()
    }

    /// All fields but `displays` and `stealth_snapshot` are those of `other`.
    pub open spec fn same_except_displays_and_stealth(&self, other: &AppState) -> bool {
        &&& self.global_enabled == other.global_enabled
        &&& self.default_config == other.default_config
        &&& self.auto_start == other.auto_start
        &&& self.ai_detection_enabled == other.ai_detection_enabled
        &&& self.ai_vigilance_mode == other.ai_vigilance_mode
        &&& self.ai_peeper_detected == other.ai_peeper_detected
        &&& self.benchmark_progress == other.benchmark_progress
        &&& self.presets@ == other.presets@
        &&& self.stored_settings() == other.stored_settings()
    }

    /// The outcome of a stealth-mode check on `self` (the state before it):
    /// `after` is `self` with the snapshot taken out when stealth mode ends,
    /// and `action` tells the caller what to do.
    pub open spec fn stealth_checked(&self, after: &AppState, action: StealthAction) -> bool {
        &&& after.same_except_displays_and_stealth(self)
        &&& after.displays@ == self.displays@
        &&& stealth_outcome(self.stealth_wanted(), self.stealth_snapshot, after.stealth_snapshot, action)
    }

    /// A state built from the settings of an earlier run; no display is
    /// connected yet.
    pub fn new(config: AppConfig) -> (s: Self)
        ensures
            s.global_enabled == config.global_enabled,
            s.displays@ == Map::<u64, DisplayConfig>::empty(),
            s.default_config.alpha == config.default_alpha,
            s.default_config.filter_mode == config.default_filter_mode,
            is_default_config(DisplayConfig {
                alpha: 3000,
                filter_mode: FilterMode::BlackLayer,
                ..s.default_config
            }),
            s.auto_start == config.auto_start,
            s.ai_detection_enabled == config.ai_detection_enabled,
            !s.ai_vigilance_mode,
            !s.ai_peeper_detected,
            s.stealth_snapshot is None,
            s.benchmark_progress is None,
            s.presets@ == Seq::<Preset>::empty(),
            s.stored_settings() == config.display_settings@,
    {
        let mut default_config = DisplayConfig::default();
        default_config.alpha = config.default_alpha;
        default_config.filter_mode = config.default_filter_mode;
        AppState {
            global_enabled: config.global_enabled,
            displays: HashMap::new(),
            default_config,
            auto_start: config.auto_start,
            ai_detection_enabled: config.ai_detection_enabled,
            ai_vigilance_mode: false,
            ai_peeper_detected: false,
            stealth_snapshot: None,
            benchmark_progress: None,
            presets: Vec::new(),
            stored_display_settings: config.display_settings,
        }
    }

    /// Turns AI detection on or off and returns the new setting; turning it
    /// off clears the detection flag.
    pub fn toggle_ai_detection(&mut self) -> (enabled: bool)
        ensures
            enabled == !old(self).ai_detection_enabled,
            final(self).ai_detection_enabled == enabled,
            final(self).ai_peeper_detected == (enabled && old(self).ai_peeper_detected),
            final(self).global_enabled == old(self).global_enabled,
            final(self).displays@ == old(self).displays@,
            final(self).default_config == old(self).default_config,
            final(self).auto_start == old(self).auto_start,
            final(self).ai_vigilance_mode == old(self).ai_vigilance_mode,
            final(self).stealth_snapshot == old(self).stealth_snapshot,
            final(self).benchmark_progress == old(self).benchmark_progress,
            final(self).presets@ == old(self).presets@,
            final(self).stored_settings() == old(self).stored_settings(),
    {
        self.ai_detection_enabled = !self.ai_detection_enabled;
        if !self.ai_detection_enabled {
            self.ai_peeper_detected = false;
        }
        self.ai_detection_enabled
    }

    /// Chooses how the camera watch behaves and returns the command for the
    /// detection worker: off stops it and clears the detection; vigilance
    /// and enhanced start it.
    pub fn set_ai_mode(&mut self, mode: AiMode) -> (cmd: AIDetectionCommand)
        ensures
            final(self).ai_detection_enabled == (mode != AiMode::Off),
            final(self).ai_vigilance_mode == (mode == AiMode::Vigilance),
            final(self).ai_peeper_detected == (mode != AiMode::Off && old(self).ai_peeper_detected),
            cmd == if mode == AiMode::Off {
                AIDetectionCommand::Stop
            } else {
                AIDetectionCommand::Start
            },
            final(self).global_enabled == old(self).global_enabled,
            final(self).displays@ == old(self).displays@,
            final(self).default_config == old(self).default_config,
            final(self).auto_start == old(self).auto_start,
            final(self).stealth_snapshot == old(self).stealth_snapshot,
            final(self).benchmark_progress == old(self).benchmark_progress,
            final(self).presets@ == old(self).presets@,
            final(self).stored_settings() == old(self).stored_settings(),
    {
        match mode {
            AiMode::Off => {
                self.ai_detection_enabled = false;
                self.ai_vigilance_mode = false;
                self.ai_peeper_detected = false;
                AIDetectionCommand::Stop
            },
            AiMode::Vigilance => {
                self.ai_detection_enabled = true;
                self.ai_vigilance_mode = true;
                AIDetectionCommand::Start
            },
            AiMode::Enhanced => {
                self.ai_detection_enabled = true;
                self.ai_vigilance_mode = false;
                AIDetectionCommand::Start
            },
        }
    }

    /// Records whether someone looking over the shoulder is detected.
    pub fn set_peeper_detected(&mut self, detected: bool)
        ensures
            final(self).ai_peeper_detected == detected,
            final(self).ai_detection_enabled == old(self).ai_detection_enabled,
            final(self).displays@ == old(self).displays@,
            final(self).global_enabled == old(self).global_enabled,
            final(self).default_config == old(self).default_config,
            final(self).auto_start == old(self).auto_start,
            final(self).ai_vigilance_mode == old(self).ai_vigilance_mode,
            final(self).stealth_snapshot == old(self).stealth_snapshot,
            final(self).benchmark_progress == old(self).benchmark_progress,
            final(self).presets@ == old(self).presets@,
            final(self).stored_settings() == old(self).stored_settings(),
    {
        self.ai_peeper_detected = detected;
    }

    /// Whether some enabled display uses stealth dark mode.
    fn any_stealth(&self) -> (b: bool)
        ensures
            b == any_stealth_display(self.displays@),
    {
        let mut found = false;
        let ghost mut witness: u64 = 0;
        for k in it: self.displays.keys()
            invariant
                it.seq().unref().to_set() == self.displays@.dom(),
                found ==> self.displays@.contains_key(witness) && self.displays@[witness].enabled
                    && self.displays@[witness].filter_mode == FilterMode::StealthDark,
                !found ==> forall|j: int|
                    0 <= j < it.index() ==> !(#[trigger] self.displays@[*it.seq()[j]].enabled
                        && self.displays@[*it.seq()[j]].filter_mode == FilterMode::StealthDark),
            ensures
                !found ==> forall|x: u64|
                    self.displays@.contains_key(x) ==> !(#[trigger] self.displays@[x].enabled
                        && self.displays@[x].filter_mode == FilterMode::StealthDark),
        {
            proof {
                assert(it.seq().unref()[it.index()] == *k);
                assert(it.seq().unref().to_set().contains(*k));
            }
            let c = self.displays.get(k).unwrap();
            if c.enabled && c.filter_mode == FilterMode::StealthDark {
                proof {
                    witness = *k;
                }
                found = true;
            }
        }
        proof {
            if !found {
                assert forall|x: u64| #![trigger self.displays@[x]] self.displays@.contains_key(x)
                    implies !(self.displays@[x].enabled && self.displays@[x].filter_mode
                    == FilterMode::StealthDark) by {}
            }
        }
        found
    }

    /// Decides whether stealth mode starts or ends: it is wanted while the
    /// global switch is on and some enabled display uses stealth dark mode.
    /// When it ends, the recorded snapshot is taken out and returned in the
    /// action.
    pub fn check_stealth_transition(&mut self) -> (action: StealthAction)
        ensures
            old(self).stealth_checked(final(self), action),
    {
        let wanted = self.global_enabled && self.any_stealth();
        if wanted && self.stealth_snapshot.is_none() {
            StealthAction::Activate
        } else if !wanted && self.stealth_snapshot.is_some() {
            match self.stealth_snapshot.take() {
                Some(s) => StealthAction::Restore(s),
                None => StealthAction::Keep,
            }
        } else {
            StealthAction::Keep
        }
    }

    /// Records the OS settings read when stealth mode starts.
    pub fn record_stealth_snapshot(&mut self, snapshot: OSSettingsSnapshot)
        ensures
            final(self).stealth_snapshot == Some(snapshot),
            final(self).same_except_displays_and_stealth(old(self)),
            final(self).displays@ == old(self).displays@,
    {
        self.stealth_snapshot = Some(snapshot);
    }

    /// Ends stealth mode: takes out the recorded OS settings, which the caller
    /// puts back.
    pub fn restore_os_settings(&mut self) -> (snapshot: Option<OSSettingsSnapshot>)
        ensures
            snapshot == old(self).stealth_snapshot,
            final(self).stealth_snapshot is None,
            final(self).same_except_displays_and_stealth(old(self)),
            final(self).displays@ == old(self).displays@,
    {
        self.stealth_snapshot.take()
    }

    /// Sets the filter mode of display `id` (if connected), then checks
    /// stealth mode.
    pub fn set_filter_mode(&mut self, id: &MonitorId, mode: FilterMode) -> (action: StealthAction)
        ensures
            final(self).same_except_displays_and_stealth(old(self)),
            final(self).displays@ == update_display(
                old(self).displays@,
                *id,
                DisplayConfig { filter_mode: mode, ..old(self).displays@[id.0] },
            ),
            stealth_outcome(
                final(self).stealth_wanted(),
                old(self).stealth_snapshot,
                final(self).stealth_snapshot,
                action,
            ),
    {
        let ghost before = *old(self);
        if let Some(mut config) = self.displays.remove(&id.0) {
            config.filter_mode = mode;
            self.displays.insert(id.0, config);
        }
        assert(self.displays@ =~= update_display(
            before.displays@,
            *id,
            DisplayConfig { filter_mode: mode, ..before.displays@[id.0] },
        ));
        self.check_stealth_transition()
    }

    /// Flips the global switch and returns its new value, then checks
    /// stealth mode.
    pub fn toggle_global(&mut self) -> (r: (bool, StealthAction))
        ensures
            r.0 == final(self).global_enabled,
            global_toggled(*old(self), *final(self)),
            stealth_outcome(
                final(self).stealth_wanted(),
                old(self).stealth_snapshot,
                final(self).stealth_snapshot,
                r.1,
            ),
    {
        self.global_enabled = !self.global_enabled;
        let action = self.check_stealth_transition();
        (self.global_enabled, action)
    }

    /// Flips the filter of display `id`, then checks stealth mode; returns
    /// the display's new setting (false when it is not connected).
    pub fn toggle_display(&mut self, id: &MonitorId) -> (r: (bool, StealthAction))
        ensures
            r.0 == (old(self).displays@.contains_key(id.0) && !old(self).displays@[id.0].enabled),
            final(self).same_except_displays_and_stealth(old(self)),
            final(self).displays@ == display_toggled(old(self).displays@, *id),
            stealth_outcome(
                final(self).stealth_wanted(),
                old(self).stealth_snapshot,
                final(self).stealth_snapshot,
                r.1,
            ),
    {
        let ghost before = *old(self);
        let enabled = if let Some(mut config) = self.displays.remove(&id.0) {
            config.enabled = !config.enabled;
            let e = config.enabled;
            self.displays.insert(id.0, config);
            e
        } else {
            false
        };
        assert(self.displays@ =~= update_display(
            before.displays@,
            *id,
            DisplayConfig { enabled: enabled, ..before.displays@[id.0] },
        ));
        let action = self.check_stealth_transition();
        (enabled, action)
    }

    /// Flips start at login and returns the new setting.
    pub fn toggle_auto_start(&mut self) -> (enabled: bool)
        ensures
            enabled == !old(self).auto_start,
            final(self).auto_start == enabled,
            final(self).global_enabled == old(self).global_enabled,
            final(self).displays@ == old(self).displays@,
            final(self).default_config == old(self).default_config,
            final(self).ai_detection_enabled == old(self).ai_detection_enabled,
            final(self).ai_vigilance_mode == old(self).ai_vigilance_mode,
            final(self).ai_peeper_detected == old(self).ai_peeper_detected,
            final(self).stealth_snapshot == old(self).stealth_snapshot,
            final(self).benchmark_progress == old(self).benchmark_progress,
            final(self).presets@ == old(self).presets@,
            final(self).stored_settings() == old(self).stored_settings(),
    {
        self.auto_start = !self.auto_start;
        self.auto_start
    }

    /// Sets the alpha of display `id`, clamped to 0..=1.
    pub fn set_display_alpha(&mut self, id: &MonitorId, alpha: u32)
        ensures
            final(self).same_except_displays(old(self)),
            final(self).displays@ == update_display(
                old(self).displays@,
                *id,
                DisplayConfig { alpha: clamp(alpha, 0, 10000), ..old(self).displays@[id.0] },
            ),
    {
        let ghost before = *old(self);
        if let Some(mut config) = self.displays.remove(&id.0) {
            config.alpha = if alpha > 10000 {
                10000
            } else {
                alpha
            };
            self.displays.insert(id.0, config);
        }
        assert(self.displays@ =~= update_display(
            before.displays@,
            *id,
            DisplayConfig { alpha: clamp(alpha, 0, 10000), ..before.displays@[id.0] },
        ));
    }

    /// Whether the filter of display `id` is shown: the global switch is on,
    /// the display is connected and its filter is enabled.
    pub fn is_visible(&self, id: &MonitorId) -> (b: bool)
        ensures
            b == shown(*self, *id),
    {
        if !self.global_enabled {
            return false;
        }
        match self.displays.get(&id.0) {
            Some(c) => c.enabled,
            None => false,
        }
    }

    /// Filter mode of display `id`; the black layer when it is not connected.
    pub fn filter_mode(&self, id: &MonitorId) -> (m: FilterMode)
        ensures
            m == match config_of(self.displays@, *id) {
                Some(c) => c.filter_mode,
                None => FilterMode::BlackLayer,
            },
    {
        match self.displays.get(&id.0) {
            Some(c) => c.filter_mode,
            None => FilterMode::BlackLayer,
        }
    }

    /// Filter intensity of display `id`; 1.0 when it is not connected.
    pub fn filter_intensity(&self, id: &MonitorId) -> (v: u32)
        ensures
            v == match config_of(self.displays@, *id) {
                Some(c) => c.filter_intensity,
                None => 10000,
            },
    {
        match self.displays.get(&id.0) {
            Some(c) => c.filter_intensity,
            None => 10000,
        }
    }

    /// Sets the filter intensity of display `id`, clamped to 0.1..=5.0.
    pub fn set_filter_intensity(&mut self, id: &MonitorId, intensity: u32)
        ensures
            final(self).same_except_displays(old(self)),
            final(self).displays@ == update_display(
                old(self).displays@,
                *id,
                DisplayConfig {
                    filter_intensity: clamp(intensity, 1000, 50000),
                    ..old(self).displays@[id.0]
                },
            ),
    {
        let ghost before = *old(self);
        if let Some(mut config) = self.displays.remove(&id.0) {
            config.filter_intensity = if intensity < 1000 {
                1000
            } else if intensity > 50000 {
                50000
            } else {
                intensity
            };
            self.displays.insert(id.0, config);
        }
        assert(self.displays@ =~= update_display(
            before.displays@,
            *id,
            DisplayConfig {
                filter_intensity: clamp(intensity, 1000, 50000),
                ..before.displays@[id.0]
            },
        ));
    }

    /// Panel type of display `id`; unknown when it is not connected.
    pub fn panel_type(&self, id: &MonitorId) -> (p: PanelType)
        ensures
            p == match config_of(self.displays@, *id) {
                Some(c) => c.panel_type,
                None => PanelType::Unknown,
            },
    {
        match self.displays.get(&id.0) {
            Some(c) => c.panel_type,
            None => PanelType::Unknown,
        }
    }

    /// Sets the panel type of display `id`; a black-layer mode, or any mode
    /// on a panel that was unknown, becomes the mode recommended for the new
    /// panel.
    pub fn set_panel_type(&mut self, id: &MonitorId, panel_type: PanelType)
        ensures
            final(self).same_except_displays(old(self)),
            final(self).displays@ == update_display(
                old(self).displays@,
                *id,
                with_panel(old(self).displays@[id.0], panel_type),
            ),
    {
        let ghost before = *old(self);
        if let Some(mut config) = self.displays.remove(&id.0) {
            let old_panel = config.panel_type;
            config.panel_type = panel_type;
            if config.filter_mode == FilterMode::BlackLayer || old_panel == PanelType::Unknown {
                let profile = DisplayProfile::from_config(config.display_category, panel_type);
                config.filter_mode = profile.recommended_filter_mode(panel_type);
            }
            self.displays.insert(id.0, config);
        }
        assert(self.displays@ =~= update_display(
            before.displays@,
            *id,
            with_panel(before.displays@[id.0], panel_type),
        ));
    }

    /// Sets or clears the stripe period override of display `id`.
    pub fn set_override_period(&mut self, id: &MonitorId, value: Option<u32>)
        ensures
            final(self).same_except_displays(old(self)),
            final(self).displays@ == update_display(
                old(self).displays@,
                *id,
                DisplayConfig { override_period_mm: value, ..old(self).displays@[id.0] },
            ),
    {
        let ghost before = *old(self);
        if let Some(mut config) = self.displays.remove(&id.0) {
            config.override_period_mm = value;
            self.displays.insert(id.0, config);
        }
        assert(self.displays@ =~= update_display(
            before.displays@,
            *id,
            DisplayConfig { override_period_mm: value, ..before.displays@[id.0] },
        ));
    }

    /// Sets or clears the cover ratio override of display `id`.
    pub fn set_override_cover_ratio(&mut self, id: &MonitorId, value: Option<u32>)
        ensures
            final(self).same_except_displays(old(self)),
            final(self).displays@ == update_display(
                old(self).displays@,
                *id,
                DisplayConfig { override_cover_ratio: value, ..old(self).displays@[id.0] },
            ),
    {
        let ghost before = *old(self);
        if let Some(mut config) = self.displays.remove(&id.0) {
            config.override_cover_ratio = value;
            self.displays.insert(id.0, config);
        }
        assert(self.displays@ =~= update_display(
            before.displays@,
            *id,
            DisplayConfig { override_cover_ratio: value, ..before.displays@[id.0] },
        ));
    }

    /// Sets or clears the scroll speed override of display `id`.
    pub fn set_override_scroll_speed(&mut self, id: &MonitorId, value: Option<u32>)
        ensures
            final(self).same_except_displays(old(self)),
            final(self).displays@ == update_display(
                old(self).displays@,
                *id,
                DisplayConfig { override_scroll_speed: value, ..old(self).displays@[id.0] },
            ),
    {
        let ghost before = *old(self);
        if let Some(mut config) = self.displays.remove(&id.0) {
            config.override_scroll_speed = value;
            self.displays.insert(id.0, config);
        }
        assert(self.displays@ =~= update_display(
            before.displays@,
            *id,
            DisplayConfig { override_scroll_speed: value, ..before.displays@[id.0] },
        ));
    }

    /// Shows test settings on display `id` (if connected): its mode, alpha
    /// and overrides take the given values; then checks stealth mode.
    pub fn apply_test_settings(&mut self, id: &MonitorId, t: &TestSettings) -> (action: StealthAction)
        ensures
            final(self).same_except_displays_and_stealth(old(self)),
            final(self).displays@ == update_display(
                old(self).displays@,
                *id,
                with_test_settings(old(self).displays@[id.0], *t),
            ),
            stealth_outcome(
                final(self).stealth_wanted(),
                old(self).stealth_snapshot,
                final(self).stealth_snapshot,
                action,
            ),
    {
        let ghost before = *old(self);
        if let Some(mut config) = self.displays.remove(&id.0) {
            config.filter_mode = t.filter_mode;
            config.alpha = if t.alpha > 10000 {
                10000
            } else {
                t.alpha
            };
            config.override_period_mm = t.override_period_mm;
            config.override_cover_ratio = t.override_cover_ratio;
            config.override_scroll_speed = t.override_scroll_speed;
            self.displays.insert(id.0, config);
        }
        assert(self.displays@ =~= update_display(
            before.displays@,
            *id,
            with_test_settings(before.displays@[id.0], *t),
        ));
        self.check_stealth_transition()
    }

    /// Clears the overrides of display `id` and gives it the recommended
    /// mode, intensity and alpha of its category and panel.
    pub fn reset_to_recommended(&mut self, id: &MonitorId)
        ensures
            final(self).same_except_displays(old(self)),
            final(self).displays@ == update_display(
                old(self).displays@,
                *id,
                reset_config(old(self).displays@[id.0]),
            ),
    {
        let ghost before = *old(self);
        if let Some(mut config) = self.displays.remove(&id.0) {
            config.override_period_mm = None;
            config.override_cover_ratio = None;
            config.override_scroll_speed = None;
            let profile = DisplayProfile::from_config(config.display_category, config.panel_type);
            config.filter_mode = profile.recommended_filter_mode(config.panel_type);
            config.filter_intensity = profile.recommended_intensity();
            config.alpha = profile.recommended_alpha();
            self.displays.insert(id.0, config);
        }
        assert(self.displays@ =~= update_display(
            before.displays@,
            *id,
            reset_config(before.displays@[id.0]),
        ));
    }

    /// Display category of display `id`; unknown when it is not connected.
    pub fn display_category(&self, id: &MonitorId) -> (c: DisplayCategory)
        ensures
            c == match config_of(self.displays@, *id) {
                Some(d) => d.display_category,
                None => DisplayCategory::Unknown,
            },
    {
        match self.displays.get(&id.0) {
            Some(c) => c.display_category,
            None => DisplayCategory::Unknown,
        }
    }

    /// Sets the display category and PPI of display `id`.
    pub fn set_display_category(&mut self, id: &MonitorId, category: DisplayCategory, ppi: u32)
        ensures
            final(self).same_except_displays(old(self)),
            final(self).displays@ == update_display(
                old(self).displays@,
                *id,
                DisplayConfig { display_category: category, ppi, ..old(self).displays@[id.0] },
            ),
    {
        let ghost before = *old(self);
        if let Some(mut config) = self.displays.remove(&id.0) {
            config.display_category = category;
            config.ppi = ppi;
            self.displays.insert(id.0, config);
        }
        assert(self.displays@ =~= update_display(
            before.displays@,
            *id,
            DisplayConfig { display_category: category, ppi, ..before.displays@[id.0] },
        ));
    }

    /// Connects display `id` with `config`, or with the default settings;
    /// a display that is already connected keeps its settings (a display
    /// that comes back gets its own through `connect_display`).
    pub fn add_display(&mut self, id: MonitorId, config: Option<DisplayConfig>)
        ensures
            final(self).same_except_displays(old(self)),
            final(self).displays@ == if old(self).displays@.contains_key(id.0) {
                old(self).displays@
            } else {
                old(self).displays@.insert(
                    id.0,
                    match config {
                        Some(c) => c,
                        None => old(self).default_config,
                    },
                )
            },
    {
        if !self.displays.contains_key(&id.0) {
            let config = match config {
                Some(c) => c,
                None => self.default_config.clone(),
            };
            self.displays.insert(id.0, config);
        }
    }

    /// Connects display `id` found at `pos_key`: it takes the settings stored
    /// for that position in an earlier run, or the default settings; an
    /// unknown category takes the detected one with its PPI, and a
    /// black-layer mode becomes the mode recommended for the panel.
    pub fn add_display_with_pos_and_profile(
        &mut self,
        id: MonitorId,
        pos_key: String,
        category: DisplayCategory,
        ppi: u32,
    )
        ensures
            final(self).same_except_displays(old(self)),
            final(self).displays@ == old(self).displays@.insert(
                id.0,
                adopt_detected(
                    DisplayConfig {
                        position_key: pos_key,
                        ..match find_key(old(self).stored_settings(), pos_key@) {
                            Some(c) => c,
                            None => old(self).default_config,
                        }
                    },
                    category,
                    ppi,
                ),
            ),
    {
        let mut config = match self.stored_display_settings.get(pos_key.as_str()) {
            Some(c) => c,
            None => self.default_config.clone(),
        };
        config.position_key = pos_key;
        if config.display_category == DisplayCategory::Unknown {
            config.display_category = category;
            config.ppi = ppi;
        }
        if config.filter_mode == FilterMode::BlackLayer {
            let profile = DisplayProfile::from_config(config.display_category, config.panel_type);
            config.filter_mode = profile.recommended_filter_mode(config.panel_type);
        }
        self.displays.insert(id.0, config);
    }

    /// Disconnects display `id` and returns its settings.
    pub fn remove_display(&mut self, id: &MonitorId) -> (r: Option<DisplayConfig>)
        ensures
            r == config_of(old(self).displays@, *id),
            final(self).same_except_displays(old(self)),
            final(self).displays@ == old(self).displays@.remove(id.0),
    {
        self.displays.remove(&id.0)
    }

    /// Whether every filter is shown: the global switch is on, some display
    /// is connected and every connected display is enabled.
    pub fn all_displays_enabled(&self) -> (b: bool)
        ensures
            b == (self.global_enabled && self.displays@.len() > 0 && forall|k: u64|
                #![trigger self.displays@[k]]
                self.displays@.contains_key(k) ==> self.displays@[k].enabled),
    {
        if !self.global_enabled {
            return false;
        }
        if self.displays.is_empty() {
            proof {
                assert(self.displays@.dom().len() == 0);
            }
            return false;
        }
        let mut all = true;
        let ghost mut witness: u64 = 0;
        for k in it: self.displays.keys()
            invariant
                it.seq().unref().to_set() == self.displays@.dom(),
                !all ==> self.displays@.contains_key(witness) && !self.displays@[witness].enabled,
                all ==> forall|j: int|
                    0 <= j < it.index() ==> #[trigger] self.displays@[*it.seq()[j]].enabled,
            ensures
                all ==> forall|x: u64| self.displays@.contains_key(x) ==> #[trigger] self.displays@[x].enabled,
        {
            proof {
                assert(it.seq().unref()[it.index()] == *k);
                assert(it.seq().unref().to_set().contains(*k));
            }
            let c = self.displays.get(k).unwrap();
            if !c.enabled {
                proof {
                    witness = *k;
                }
                all = false;
            }
        }
        proof {
            assert(self.displays@.dom().len() > 0);
        }
        all
    }

    /// Alpha byte of display `id`: 204 (80%) while someone looking over the
    /// shoulder is detected; 0 (clear) in vigilance mode while nobody is;
    /// else the display's alpha, or the default alpha when it is not
    /// connected.
    pub fn effective_alpha_u8(&self, id: &MonitorId) -> (b: u8)
        ensures
            b == if self.ai_peeper_detected {
                PEEPER_ALPHA
            } else if self.ai_vigilance_mode {
                0
            } else {
                match config_of(self.displays@, *id) {
                    Some(c) => alpha_byte(c.alpha),
                    None => alpha_byte(self.default_config.alpha),
                }
            },
    {
        if self.ai_peeper_detected {
            return PEEPER_ALPHA;
        }
        if self.ai_vigilance_mode {
            return 0;
        }
        match self.displays.get(&id.0) {
            Some(c) => c.alpha_u8(),
            None => self.default_config.alpha_u8(),
        }
    }

    /// Position of the first preset named `name`, if any.
    fn preset_position(&self, name: &String) -> (r: Option<usize>)
        ensures
            match r {
                Some(i) => first_preset(self.presets@, name@, i as int),
                None => !has_preset(self.presets@, name@),
            },
    {
        let mut i: usize = 0;
        while i < self.presets.len()
            invariant
                i <= self.presets@.len(),
                forall|j: int| 0 <= j < i ==> #[trigger] self.presets@[j].name@ != name@,
            decreases self.presets@.len() - i,
        {
            if self.presets[i].name == *name {
                return Some(i);
            }
            i = i + 1;
        }
        None
    }

    /// Saves `settings` under `name`: the first preset of that name takes
    /// them, or a new preset is added at the end.
    pub fn save_preset(&mut self, name: String, settings: FilterSettings)
        ensures
            final(self).global_enabled == old(self).global_enabled,
            final(self).displays@ == old(self).displays@,
            final(self).default_config == old(self).default_config,
            final(self).auto_start == old(self).auto_start,
            final(self).ai_detection_enabled == old(self).ai_detection_enabled,
            final(self).ai_vigilance_mode == old(self).ai_vigilance_mode,
            final(self).ai_peeper_detected == old(self).ai_peeper_detected,
            final(self).stealth_snapshot == old(self).stealth_snapshot,
            final(self).benchmark_progress == old(self).benchmark_progress,
            final(self).stored_settings() == old(self).stored_settings(),
            final(self).presets@ == saved_presets(old(self).presets@, Preset { name, settings }),
    {
        match self.preset_position(&name) {
            Some(i) => {
                proof {
                    let j = choose|j: int| first_preset(old(self).presets@, name@, j);
                    assert(first_preset(old(self).presets@, name@, j));
                    if j < i {
                        assert(old(self).presets@[j].name@ != name@);
                    }
                    if i < j {
                        assert(old(self).presets@[i as int].name@ != name@);
                    }
                }
                let _ = self.presets.remove(i);
                self.presets.insert(i, Preset { name, settings });
                assert(self.presets@ =~= old(self).presets@.update(
                    i as int,
                    Preset { name, settings },
                ));
            },
            None => {
                self.presets.push(Preset { name, settings });
            },
        }
    }

    /// Applies the first preset named `name` to display `id`, when both
    /// exist, then checks stealth mode.
    pub fn apply_preset(&mut self, name: &str, id: &MonitorId) -> (action: StealthAction)
        ensures
            final(self).same_except_displays_and_stealth(old(self)),
            final(self).displays@ == preset_applied(old(self).displays@, old(self).presets@, name@, *id),
            stealth_outcome(
                final(self).stealth_wanted(),
                old(self).stealth_snapshot,
                final(self).stealth_snapshot,
                action,
            ),
    {
        let ghost before = *old(self);
        let n = name.to_owned();
        if let Some(i) = self.preset_position(&n) {
            proof {
                let j = choose|j: int| first_preset(before.presets@, name@, j);
                assert(first_preset(before.presets@, name@, j));
                if j < i {
                    assert(before.presets@[j].name@ != name@);
                }
                if i < j {
                    assert(before.presets@[i as int].name@ != name@);
                }
            }
            let settings = self.presets[i].settings;
            if let Some(mut config) = self.displays.remove(&id.0) {
                config.apply_settings(&settings);
                self.displays.insert(id.0, config);
            }
            assert(self.displays@ =~= update_display(
                before.displays@,
                *id,
                with_settings(before.displays@[id.0], before.presets@[i as int].settings),
            ));
        }
        self.check_stealth_transition()
    }

    /// The monitor ids of the connected displays.
    fn display_ids(&self) -> (ids: Vec<u64>)
        ensures
            forall|x: u64| #[trigger] ids@.contains(x) <==> self.displays@.contains_key(x),
    {
        let mut ids: Vec<u64> = Vec::new();
        for k in it: self.displays.keys()
            invariant
                it.seq().unref().to_set() == self.displays@.dom(),
                forall|x: u64| #[trigger] ids@.contains(x) ==> self.displays@.contains_key(x),
                forall|j: int| 0 <= j < it.index() ==> ids@.contains(*#[trigger] it.seq()[j]),
            ensures
                forall|x: u64| #[trigger] ids@.contains(x) <==> self.displays@.contains_key(x),
        {
            proof {
                assert(it.seq().unref()[it.index()] == *k);
                assert(it.seq().unref().to_set().contains(*k));
            }
            let ghost old_ids = ids@;
            ids.push(*k);
            proof {
                assert(ids@[ids@.len() - 1] == *k);
                assert forall|j: int| 0 <= j < it.index() + 1 implies ids@.contains(
                    *#[trigger] it.seq()[j],
                ) by {
                    if j < it.index() {
                        assert(old_ids.contains(*it.seq()[j]));
                        let t = choose|t: int| 0 <= t < old_ids.len() && #[trigger] old_ids[t] == *it.seq()[j];
                        assert(ids@[t] == *it.seq()[j]);
                    }
                }
                assert(self.displays@.contains_key(*k));
                assert forall|x: u64| #[trigger] ids@.contains(x) implies self.displays@.contains_key(x) by {
                    let t = choose|t: int| 0 <= t < ids@.len() && #[trigger] ids@[t] == x;
                    if t < old_ids.len() {
                        assert(old_ids[t] == x);
                        assert(old_ids.contains(x));
                    }
                }
            }
        }
        proof {
            assert forall|x: u64| self.displays@.contains_key(x) implies #[trigger] ids@.contains(x) by {}
        }
        ids
    }

    /// Applies the first preset named `name` to every connected display,
    /// when it exists, then checks stealth mode.
    pub fn apply_preset_to_all(&mut self, name: &str) -> (action: StealthAction)
        ensures
            final(self).same_except_displays_and_stealth(old(self)),
            final(self).displays@ == preset_applied_to_all(old(self).displays@, old(self).presets@, name@),
            stealth_outcome(
                final(self).stealth_wanted(),
                old(self).stealth_snapshot,
                final(self).stealth_snapshot,
                action,
            ),
    {
        let ghost before = *old(self);
        let n = name.to_owned();
        if let Some(i) = self.preset_position(&n) {
            let settings = self.presets[i].settings;
            let ids = self.display_ids();
            let mut j: usize = 0;
            while j < ids.len()
                invariant
                    j <= ids@.len(),
                    forall|x: u64| #[trigger] ids@.contains(x) <==> before.displays@.contains_key(x),
                    self.same_except_displays(&before),
                    i < before.presets@.len(),
                    self.displays@.dom() == before.displays@.dom(),
                    settings == before.presets@[i as int].settings,
                    forall|k: u64|
                        #![trigger self.displays@[k]]
                        before.displays@.contains_key(k) ==> self.displays@[k] == if ids@.take(
                            j as int,
                        ).contains(k) {
                            with_settings(before.displays@[k], settings)
                        } else {
                            before.displays@[k]
                        },
                decreases ids@.len() - j,
            {
                let k = ids[j];
                proof {
                    assert(ids@.contains(k));
                }
                let ghost prev = self.displays@;
                if let Some(mut config) = self.displays.remove(&k) {
                    config.apply_settings(&settings);
                    self.displays.insert(k, config);
                }
                proof {
                    assert(ids@.take(j + 1) =~= ids@.take(j as int).push(k));
                    assert forall|x: u64| #![trigger self.displays@[x]]
                        before.displays@.contains_key(x) implies self.displays@[x] == if ids@.take(
                        j + 1,
                    ).contains(x) {
                        with_settings(before.displays@[x], settings)
                    } else {
                        before.displays@[x]
                    } by {
                        if x == k {
                            assert(ids@.take(j + 1)[j as int] == k);
                            assert(ids@.take(j + 1).contains(x));
                            if ids@.take(j as int).contains(x) {
                                let t = choose|t: int| 0 <= t < j && #[trigger] ids@.take(j as int)[t] == x;
                                assert(ids@[t] == x);
                            }
                        } else {
                            assert(self.displays@[x] == prev[x]);
                            if ids@.take(j + 1).contains(x) {
                                let t = choose|t: int| 0 <= t < j + 1 && #[trigger] ids@.take(j + 1)[t] == x;
                                assert(t < j);
                                assert(ids@.take(j as int)[t] == x);
                            }
                            if ids@.take(j as int).contains(x) {
                                let t = choose|t: int| 0 <= t < j && #[trigger] ids@.take(j as int)[t] == x;
                                assert(ids@.take(j + 1)[t] == x);
                            }
                        }
                    }
                    assert(self.displays@.dom() =~= before.displays@.dom());
                }
                j = j + 1;
            }
            proof {
                assert(ids@.take(ids@.len() as int) =~= ids@);
                assert forall|k: u64| #![trigger self.displays@[k]]
                    before.displays@.contains_key(k) implies self.displays@[k] == with_settings(
                    before.displays@[k],
                    before.presets@[i as int].settings,
                ) by {
                    assert(ids@.contains(k));
                    let t = choose|t: int| 0 <= t < ids@.len() && #[trigger] ids@[t] == k;
                    assert(ids@.take(ids@.len() as int)[t] == k);
                }
                let f = choose|f: int| first_preset(before.presets@, name@, f);
                assert(first_preset(before.presets@, name@, f));
                if f < i {
                    assert(before.presets@[f].name@ != name@);
                }
                if i < f {
                    assert(before.presets@[i as int].name@ != name@);
                }
                assert(self.displays@ =~= preset_applied_to_all(before.displays@, before.presets@, name@));
            }
        }
        self.check_stealth_transition()
    }

    /// Removes every preset named `name`.
    pub fn delete_preset(&mut self, name: &str)
        ensures
            final(self).global_enabled == old(self).global_enabled,
            final(self).displays@ == old(self).displays@,
            final(self).default_config == old(self).default_config,
            final(self).auto_start == old(self).auto_start,
            final(self).ai_detection_enabled == old(self).ai_detection_enabled,
            final(self).ai_vigilance_mode == old(self).ai_vigilance_mode,
            final(self).ai_peeper_detected == old(self).ai_peeper_detected,
            final(self).stealth_snapshot == old(self).stealth_snapshot,
            final(self).benchmark_progress == old(self).benchmark_progress,
            final(self).stored_settings() == old(self).stored_settings(),
            final(self).presets@ == old(self).presets@.filter(name_differs(name@)),
    {
        let n = name.to_owned();
        let ghost s = self.presets@;
        let mut kept: Vec<Preset> = Vec::new();
        let mut i: usize = 0;
        while i < self.presets.len()
            invariant
                s == self.presets@,
                i <= s.len(),
                n@ == name@,
                kept@ == s.take(i as int).filter(name_differs(name@)),
            decreases s.len() - i,
        {
            proof {
                assert(s.take(i + 1) =~= s.take(i as int).push(s[i as int]));
                s.take(i as int).lemma_filter_push(s[i as int], name_differs(name@));
            }
            if self.presets[i].name != n {
                kept.push(self.presets[i].clone());
            }
            i = i + 1;
        }
        proof {
            assert(s.take(s.len() as int) =~= s);
        }
        self.presets = kept;
    }

    /// Removes every preset.
    pub fn clear_presets(&mut self)
        ensures
            final(self).global_enabled == old(self).global_enabled,
            final(self).displays@ == old(self).displays@,
            final(self).default_config == old(self).default_config,
            final(self).auto_start == old(self).auto_start,
            final(self).ai_detection_enabled == old(self).ai_detection_enabled,
            final(self).ai_vigilance_mode == old(self).ai_vigilance_mode,
            final(self).ai_peeper_detected == old(self).ai_peeper_detected,
            final(self).stealth_snapshot == old(self).stealth_snapshot,
            final(self).benchmark_progress == old(self).benchmark_progress,
            final(self).stored_settings() == old(self).stored_settings(),
            final(self).presets@ == Seq::<Preset>::empty(),
    {
        self.presets = Vec::new();
    }

    /// The settings to keep for the next run: the switches, the default
    /// alpha and mode, and the stored display settings updated with those of
    /// every connected display that has a position key.
    pub fn to_config(&self) -> (c: AppConfig)
        ensures
            c.global_enabled == self.global_enabled,
            c.default_alpha == self.default_config.alpha,
            c.default_filter_mode == self.default_config.filter_mode,
            c.auto_start == self.auto_start,
            c.ai_detection_enabled == self.ai_detection_enabled,
            merged_settings(self.stored_settings(), self.displays@, c.display_settings@),
    {
        let ghost stored_settings = self.stored_settings();
        let ghost m = self.displays@;
        let ghost mut seen: Seq<DisplayConfig> = Seq::empty();
        let mut settings = self.stored_display_settings.clone();
        for config in it: self.displays.values()
            invariant
                it.seq().unref().to_set() == m.values(),
                m == self.displays@,
                seen.len() == it.index(),
                forall|j: int| 0 <= j < it.index() ==> seen[j] == *#[trigger] it.seq()[j],
                forall|j: int| 0 <= j < seen.len() ==> m.values().contains(#[trigger] seen[j]),
                keys_unique(stored_settings),
                keys_unique(settings@),
                forall|k: Seq<char>|
                    #![trigger find_key(settings@, k)]
                    if k.len() > 0 && exists|j: int|
                        0 <= j < seen.len() && (#[trigger] seen[j]).position_key@ == k {
                        exists|j: int|
                            0 <= j < seen.len() && (#[trigger] seen[j]).position_key@ == k
                                && find_key(settings@, k) == Some(seen[j])
                    } else {
                        find_key(settings@, k) == find_key(stored_settings, k)
                    },
            ensures
                forall|v: DisplayConfig| m.values().contains(v) ==> #[trigger] seen.contains(v),
        {
            let ghost before = settings@;
            let ghost prev_seen = seen;
            proof {
                assert(it.seq().unref()[it.index()] == *config);
                assert(it.seq().unref().to_set().contains(*config));
                seen = seen.push(*config);
            }
            if !config.position_key.as_str().is_empty() {
                settings.insert(config.clone());
                proof {
                    assert forall|k: Seq<char>| #![trigger find_key(settings@, k)]
                        if k.len() > 0 && exists|j: int|
                            0 <= j < seen.len() && (#[trigger] seen[j]).position_key@ == k {
                            exists|j: int|
                                0 <= j < seen.len() && (#[trigger] seen[j]).position_key@ == k
                                    && find_key(settings@, k) == Some(seen[j])
                        } else {
                            find_key(settings@, k) == find_key(stored_settings, k)
                        } by {
                        lemma_find_stored(before, *config, k);
                        if k == config.position_key@ {
                            assert(seen[seen.len() - 1] == *config);
                        } else {
                            if exists|j: int| 0 <= j < seen.len() && (#[trigger] seen[j]).position_key@ == k {
                                let j = choose|j: int| 0 <= j < seen.len() && (#[trigger] seen[j]).position_key@ == k;
                                assert(j < prev_seen.len());
                                assert(prev_seen[j] == seen[j]);
                            }
                            if k.len() > 0 && exists|j: int| 0 <= j < prev_seen.len() && (#[trigger] prev_seen[j]).position_key@ == k {
                                let j = choose|j: int| 0 <= j < prev_seen.len() && (#[trigger] prev_seen[j]).position_key@ == k
                                    && find_key(before, k) == Some(prev_seen[j]);
                                assert(seen[j] == prev_seen[j]);
                            }
                        }
                    }
                }
            } else {
                proof {
                    assert forall|k: Seq<char>| #![trigger find_key(settings@, k)]
                        if k.len() > 0 && exists|j: int|
                            0 <= j < seen.len() && (#[trigger] seen[j]).position_key@ == k {
                            exists|j: int|
                                0 <= j < seen.len() && (#[trigger] seen[j]).position_key@ == k
                                    && find_key(settings@, k) == Some(seen[j])
                        } else {
                            find_key(settings@, k) == find_key(stored_settings, k)
                        } by {
                        assert(seen[seen.len() - 1] == *config);
                        assert(config.position_key@.len() == 0);
                        if k.len() > 0 && exists|j: int| 0 <= j < prev_seen.len() && (#[trigger] prev_seen[j]).position_key@ == k {
                            let j = choose|j: int| 0 <= j < prev_seen.len() && (#[trigger] prev_seen[j]).position_key@ == k;
                            assert(seen[j] == prev_seen[j]);
                        }
                        if k.len() > 0 && exists|j: int| 0 <= j < seen.len() && (#[trigger] seen[j]).position_key@ == k {
                            let j = choose|j: int| 0 <= j < seen.len() && (#[trigger] seen[j]).position_key@ == k;
                            assert(j < prev_seen.len());
                            assert(prev_seen[j] == seen[j]);
                            let j2 = choose|j2: int| 0 <= j2 < prev_seen.len() && (#[trigger] prev_seen[j2]).position_key@ == k
                                && find_key(before, k) == Some(prev_seen[j2]);
                            assert(seen[j2] == prev_seen[j2]);
                        }
                    }
                }
            }
            proof {
                assert forall|j: int| 0 <= j < seen.len() implies m.values().contains(#[trigger] seen[j]) by {
                    if j < prev_seen.len() {
                        assert(prev_seen[j] == seen[j]);
                    }
                }
            }
        }
        proof {
            assert forall|k: Seq<char>| #![trigger find_key(settings@, k)]
                if displayed_key(m, k) {
                    exists|id: u64|
                        #[trigger] m.contains_key(id) && m[id].position_key@ == k && find_key(settings@, k)
                            == Some(m[id])
                } else {
                    find_key(settings@, k) == find_key(stored_settings, k)
                } by {
                if displayed_key(m, k) {
                    let id = choose|id: u64| #[trigger] m.contains_key(id) && m[id].position_key@ == k;
                    assert(m.values().contains(m[id]));
                    assert(seen.contains(m[id]));
                    let j0 = choose|j0: int| 0 <= j0 < seen.len() && seen[j0] == m[id];
                    assert(seen[j0].position_key@ == k);
                    let j = choose|j: int| 0 <= j < seen.len() && (#[trigger] seen[j]).position_key@ == k
                        && find_key(settings@, k) == Some(seen[j]);
                    assert(m.values().contains(seen[j]));
                    let id2 = choose|id2: u64| #[trigger] m.contains_key(id2) && m[id2] == seen[j];
                    assert(m.contains_key(id2) && m[id2].position_key@ == k && find_key(settings@, k) == Some(m[id2]));
                } else {
                    if k.len() > 0 && exists|j: int| 0 <= j < seen.len() && (#[trigger] seen[j]).position_key@ == k {
                        let j = choose|j: int| 0 <= j < seen.len() && (#[trigger] seen[j]).position_key@ == k;
                        assert(m.values().contains(seen[j]));
                        let id2 = choose|id2: u64| #[trigger] m.contains_key(id2) && m[id2] == seen[j];
                        assert(m.contains_key(id2) && m[id2].position_key@ == k);
                    }
                }
            }
        }
        AppConfig {
            global_enabled: self.global_enabled,
            default_alpha: self.default_config.alpha,
            default_filter_mode: self.default_config.filter_mode,
            auto_start: self.auto_start,
            ai_detection_enabled: self.ai_detection_enabled,
            display_settings: settings,
        }
    }
}

} // verus!
