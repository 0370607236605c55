//! What a command chosen in the tray menu does to the application state,
//! and what the caller has to do next (save the settings, redraw the
//! overlays, rebuild the menu, and the work outside the state).
use vstd::prelude::*;
use crate::ai_detection::AIDetectionCommand;
use crate::app::{
    clamp, config_of, name_differs, preset_applied, preset_applied_to_all, reset_config, saved_presets, stealth_outcome,
    update_display, with_panel, AppState, StealthAction,
};
use crate::display_config::{
    recommended_profile, settings_of, DisplayCategory, DisplayConfig, DisplayProfile, MonitorId,
    PanelType, Preset,
};
use crate::menu::{AiMode, MenuAction, MenuCommand};
use crate::text::{decimal, push_decimal, push_str, string_from_chars};

verus! {

/// What the caller does after a menu command.
#[derive(Debug)]
pub struct MenuOutcome {
    /// Save the settings.
    pub save: bool,
    /// Show, hide and redraw the overlays.
    pub sync: bool,
    /// Rebuild the tray menu.
    pub rebuild: bool,
    /// What to do to the OS for stealth mode.
    pub stealth: StealthAction,
    /// A command for the camera-watch worker.
    pub ai: Option<AIDetectionCommand>,
    /// Turn start at login on or off.
    pub auto_start: Option<bool>,
    /// Start the benchmark on one display, or on all of them.
    pub benchmark: Option<Option<MonitorId>>,
    /// Leave the application.
    pub quit: bool,
}

/// The outcome asks for exactly the given bookkeeping and no outside work
/// besides its stealth action.
pub open spec fn asks(o: MenuOutcome, save: bool, sync: bool, rebuild: bool) -> bool {
    &&& o.save == save
    &&& o.sync == sync
    &&& o.rebuild == rebuild
    &&& o.ai is None
    &&& o.auto_start is None
    &&& o.benchmark is None
    &&& !o.quit
}

/// All fields but the switches, the displays and the stealth snapshot are
/// unchanged.
pub open spec fn same_rest(b: AppState, a: AppState) -> bool {
    &&& a.default_config == b.default_config
    &&& a.auto_start == b.auto_start
    &&& a.ai_detection_enabled == b.ai_detection_enabled
    &&& a.ai_vigilance_mode == b.ai_vigilance_mode
    &&& a.ai_peeper_detected == b.ai_peeper_detected
    &&& a.benchmark_progress == b.benchmark_progress
    &&& a.presets@ == b.presets@
    &&& a.stored_settings() == b.stored_settings()
}

/// Only display `id` changed, to `c`, and stealth mode did not move.
pub open spec fn display_set(b: AppState, a: AppState, id: MonitorId, c: DisplayConfig, o: MenuOutcome) -> bool {
    &&& same_rest(b, a)
    &&& a.global_enabled == b.global_enabled
    &&& a.stealth_snapshot == b.stealth_snapshot
    &&& a.displays@ == update_display(b.displays@, id, c)
    &&& o.stealth == StealthAction::Keep
    &&& asks(o, true, true, true)
}

/// The stealth check after the change was made.
pub open spec fn stealth_checked_after(b: AppState, a: AppState, o: MenuOutcome) -> bool {
    stealth_outcome(a.stealth_wanted(), b.stealth_snapshot, a.stealth_snapshot, o.stealth)
}

/// The PPI a display keeps when its category is changed: its own when it
/// has one, else the recommended one for the new category and its panel.
pub open spec fn category_ppi(m: Map<u64, DisplayConfig>, id: MonitorId, c: DisplayCategory) -> u32 {
    match config_of(m, id) {
        Some(d) => if d.ppi > 0 {
            d.ppi
        } else {
            recommended_profile(c, d.panel_type).ppi
        },
        None => recommended_profile(c, PanelType::Unknown).ppi,
    }
}

/// The name of a preset saved from the menu when `n` presets exist:
/// "Preset " and `n + 1`.
pub open spec fn new_preset_name(n: nat) -> Seq<char> {
    "Preset "@ + decimal(n + 1)
}

/// What menu action `act` did, from state `b` to state `a`, with outcome `o`.
pub open spec fn menu_effect(b: AppState, a: AppState, act: MenuAction, o: MenuOutcome) -> bool {
    let m = b.displays@;
    match act {
        MenuAction::GlobalToggle => {
            &&& same_rest(b, a)
            &&& a.global_enabled == !b.global_enabled
            &&& a.displays@ == m
            &&& stealth_checked_after(b, a, o)
            &&& asks(o, true, true, true)
        },
        MenuAction::DisplayToggle(id) => {
            &&& same_rest(b, a)
            &&& a.global_enabled == b.global_enabled
            &&& a.displays@ == update_display(m, id, DisplayConfig { enabled: !m[id.0].enabled, ..m[id.0] })
            &&& stealth_checked_after(b, a, o)
            &&& asks(o, true, true, true)
        },
        MenuAction::Alpha(id, p) => display_set(
            b,
            a,
            id,
            DisplayConfig { alpha: if p >= 100 { 10000 } else { (p * 100) as u32 }, ..m[id.0] },
            o,
        ),
        MenuAction::Mode(id, mode) => {
            &&& same_rest(b, a)
            &&& a.global_enabled == b.global_enabled
            &&& a.displays@ == update_display(m, id, DisplayConfig { filter_mode: mode, ..m[id.0] })
            &&& stealth_checked_after(b, a, o)
            &&& asks(o, true, true, true)
        },
        MenuAction::Category(id, c) => display_set(
            b,
            a,
            id,
            DisplayConfig { display_category: c, ppi: category_ppi(m, id, c), ..m[id.0] },
            o,
        ),
        MenuAction::Panel(id, p) => display_set(b, a, id, with_panel(m[id.0], p), o),
        MenuAction::Intensity(id, v) => display_set(
            b,
            a,
            id,
            DisplayConfig { filter_intensity: clamp(v, 1000, 50000), ..m[id.0] },
            o,
        ),
        MenuAction::OverridePeriod(id, v) => display_set(
            b,
            a,
            id,
            DisplayConfig { override_period_mm: v, ..m[id.0] },
            o,
        ),
        MenuAction::OverrideCover(id, v) => display_set(
            b,
            a,
            id,
            DisplayConfig { override_cover_ratio: v, ..m[id.0] },
            o,
        ),
        MenuAction::OverrideSpeed(id, v) => display_set(
            b,
            a,
            id,
            DisplayConfig { override_scroll_speed: v, ..m[id.0] },
            o,
        ),
        MenuAction::ResetRecommended(id) => display_set(b, a, id, reset_config(m[id.0]), o),
        MenuAction::PresetApply(id, name) => {
            &&& same_rest(b, a)
            &&& a.global_enabled == b.global_enabled
            &&& a.displays@ == preset_applied(m, b.presets@, name, id)
            &&& stealth_checked_after(b, a, o)
            &&& asks(o, false, true, true)
        },
        MenuAction::PresetApplyAll(name) => {
            &&& same_rest(b, a)
            &&& a.global_enabled == b.global_enabled
            &&& a.displays@ == preset_applied_to_all(m, b.presets@, name)
            &&& stealth_checked_after(b, a, o)
            &&& asks(o, false, true, true)
        },
        MenuAction::PresetDelete(name) => {
            &&& a.presets@ == b.presets@.filter(name_differs(name))
            &&& a.global_enabled == b.global_enabled
            &&& a.displays@ == m
            &&& a.stealth_snapshot == b.stealth_snapshot
            &&& o.stealth == StealthAction::Keep
            &&& asks(o, false, false, true)
        },
        MenuAction::PresetSaveCurrent(id) => {
            &&& (if m.contains_key(id.0) {
                exists|p: Preset|
                    p.name@ == new_preset_name(b.presets@.len()) && p.settings == settings_of(m[id.0])
                        && a.presets@ == saved_presets(b.presets@, p)
            } else {
                a.presets@ == b.presets@
            })
            &&& a.global_enabled == b.global_enabled
            &&& a.displays@ == m
            &&& a.stealth_snapshot == b.stealth_snapshot
            &&& o.stealth == StealthAction::Keep
            &&& asks(o, false, false, true)
        },
        MenuAction::RunBenchmark(id) => {
            &&& same_rest(b, a)
            &&& a.global_enabled == b.global_enabled
            &&& a.displays@ == m
            &&& a.stealth_snapshot == b.stealth_snapshot
            &&& o.stealth == StealthAction::Keep
            &&& o.benchmark == Some(Some(id))
            &&& !o.save && !o.sync && !o.rebuild && o.ai is None && o.auto_start is None && !o.quit
        },
        MenuAction::RunBenchmarkAll => {
            &&& same_rest(b, a)
            &&& a.global_enabled == b.global_enabled
            &&& a.displays@ == m
            &&& a.stealth_snapshot == b.stealth_snapshot
            &&& o.stealth == StealthAction::Keep
            &&& o.benchmark == Some(None::<MonitorId>)
            &&& !o.save && !o.sync && !o.rebuild && o.ai is None && o.auto_start is None && !o.quit
        },
        MenuAction::AutoStart => {
            &&& a.auto_start == !b.auto_start
            &&& a.global_enabled == b.global_enabled
            &&& a.displays@ == m
            &&& a.stealth_snapshot == b.stealth_snapshot
            &&& a.presets@ == b.presets@
            &&& o.stealth == StealthAction::Keep
            &&& o.auto_start == Some(a.auto_start)
            &&& o.save && !o.sync && o.rebuild && o.ai is None && o.benchmark is None && !o.quit
        },
        MenuAction::SetAiMode(mode) => {
            &&& a.ai_detection_enabled == (mode != AiMode::Off)
            &&& a.ai_vigilance_mode == (mode == AiMode::Vigilance)
            &&& a.ai_peeper_detected == (mode != AiMode::Off && b.ai_peeper_detected)
            &&& a.global_enabled == b.global_enabled
            &&& a.displays@ == m
            &&& a.stealth_snapshot == b.stealth_snapshot
            &&& a.presets@ == b.presets@
            &&& o.stealth == StealthAction::Keep
            &&& o.ai == Some(
                if mode == AiMode::Off {
                    AIDetectionCommand::Stop
                } else {
                    AIDetectionCommand::Start
                },
            )
            &&& o.save && o.sync && o.rebuild && o.auto_start is None && o.benchmark is None && !o.quit
        },
        MenuAction::Quit => {
            &&& same_rest(b, a)
            &&& a.global_enabled == b.global_enabled
            &&& a.displays@ == m
            &&& a.stealth_snapshot is None
            &&& o.stealth == match b.stealth_snapshot {
                Some(s) => StealthAction::Restore(s),
                None => StealthAction::Keep,
            }
            &&& o.quit
            &&& !o.save && !o.sync && !o.rebuild && o.ai is None && o.auto_start is None && o.benchmark is None
        },
    }
}

/// An outcome with the given bookkeeping and stealth action and no other
/// work.
fn outcome(save: bool, sync: bool, rebuild: bool, stealth: StealthAction) -> (o: MenuOutcome)
    ensures
        asks(o, save, sync, rebuild),
        o.stealth == stealth,
{
    MenuOutcome { save, sync, rebuild, stealth, ai: None, auto_start: None, benchmark: None, quit: false }
}

impl AppState {
    /// Carries out a command chosen in the tray menu.
    pub fn handle_menu_command(&mut self, cmd: &MenuCommand) -> (o: MenuOutcome)
        requires
            old(self).presets@.len() < u64::MAX,
        ensures
            menu_effect(*old(self), *final(self), cmd@, o),
    {
        match cmd {
            MenuCommand::GlobalToggle => {
                let (_, action) = self.toggle_global();
                outcome(true, true, true, action)
            },
            MenuCommand::DisplayToggle(id) => {
                let (_, action) = self.toggle_display(id);
                outcome(true, true, true, action)
            },
            MenuCommand::Alpha(id, pct) => {
                let alpha: u32 = if *pct >= 100 {
                    10000
                } else {
                    *pct * 100
                };
                self.set_display_alpha(id, alpha);
                outcome(true, true, true, StealthAction::Keep)
            },
            MenuCommand::Mode(id, mode) => {
                let action = self.set_filter_mode(id, *mode);
                outcome(true, true, true, action)
            },
            MenuCommand::Category(id, c) => {
                let panel = self.panel_type(id);
                let profile = DisplayProfile::from_config(*c, panel);
                let ppi = match self.displays.get(&id.0) {
                    Some(d) => if d.ppi > 0 {
                        d.ppi
                    } else {
                        profile.ppi
                    },
                    None => profile.ppi,
                };
                self.set_display_category(id, *c, ppi);
                outcome(true, true, true, StealthAction::Keep)
            },
            MenuCommand::Panel(id, p) => {
                self.set_panel_type(id, *p);
                outcome(true, true, true, StealthAction::Keep)
            },
            MenuCommand::Intensity(id, v) => {
                self.set_filter_intensity(id, *v);
                outcome(true, true, true, StealthAction::Keep)
            },
            MenuCommand::OverridePeriod(id, v) => {
                self.set_override_period(id, *v);
                outcome(true, true, true, StealthAction::Keep)
            },
            MenuCommand::OverrideCover(id, v) => {
                self.set_override_cover_ratio(id, *v);
                outcome(true, true, true, StealthAction::Keep)
            },
            MenuCommand::OverrideSpeed(id, v) => {
                self.set_override_scroll_speed(id, *v);
                outcome(true, true, true, StealthAction::Keep)
            },
            MenuCommand::ResetRecommended(id) => {
                self.reset_to_recommended(id);
                outcome(true, true, true, StealthAction::Keep)
            },
            MenuCommand::PresetApply(id, name) => {
                let action = self.apply_preset(name.as_str(), id);
                outcome(false, true, true, action)
            },
            MenuCommand::PresetApplyAll(name) => {
                let action = self.apply_preset_to_all(name.as_str());
                outcome(false, true, true, action)
            },
            MenuCommand::PresetDelete(name) => {
                self.delete_preset(name.as_str());
                outcome(false, false, true, StealthAction::Keep)
            },
            MenuCommand::PresetSaveCurrent(id) => {
                let settings = match self.displays.get(&id.0) {
                    Some(c) => Some(c.get_settings()),
                    None => None,
                };
                match settings {
                    Some(s) => {
                        let mut text: Vec<char> = Vec::new();
                        push_str(&mut text, "Preset ");
                        push_decimal(&mut text, (self.presets.len() as u64) + 1);
                        let name = string_from_chars(&text);
                        self.save_preset(name, s);
                    },
                    None => {},
                }
                outcome(false, false, true, StealthAction::Keep)
            },
            MenuCommand::RunBenchmark(id) => {
                MenuOutcome {
                    save: false,
                    sync: false,
                    rebuild: false,
                    stealth: StealthAction::Keep,
                    ai: None,
                    auto_start: None,
                    benchmark: Some(Some(*id)),
                    quit: false,
                }
            },
            MenuCommand::RunBenchmarkAll => {
                MenuOutcome {
                    save: false,
                    sync: false,
                    rebuild: false,
                    stealth: StealthAction::Keep,
                    ai: None,
                    auto_start: None,
                    benchmark: Some(None),
                    quit: false,
                }
            },
            MenuCommand::AutoStart => {
                let enabled = self.toggle_auto_start();
                MenuOutcome {
                    save: true,
                    sync: false,
                    rebuild: true,
                    stealth: StealthAction::Keep,
                    ai: None,
                    auto_start: Some(enabled),
                    benchmark: None,
                    quit: false,
                }
            },
            MenuCommand::SetAiMode(mode) => {
                let command = self.set_ai_mode(*mode);
                MenuOutcome {
                    save: true,
                    sync: true,
                    rebuild: true,
                    stealth: StealthAction::Keep,
                    ai: Some(command),
                    auto_start: None,
                    benchmark: None,
                    quit: false,
                }
            },
            MenuCommand::Quit => {
                let snapshot = self.restore_os_settings();
                let stealth = match snapshot {
                    Some(s) => StealthAction::Restore(s),
                    None => StealthAction::Keep,
                };
                MenuOutcome {
                    save: false,
                    sync: false,
                    rebuild: false,
                    stealth,
                    ai: None,
                    auto_start: None,
                    benchmark: None,
                    quit: true,
                }
            },
        }
    }
}

} // verus!
