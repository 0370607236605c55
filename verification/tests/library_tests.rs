use softveil::ai_detection::{count_faces, peeper_present, AIDetectionCommand, DetectorAction, DetectorState};
use softveil::app::{AppConfig, AppState, OSSettingsSnapshot, StealthAction, TestSettings, PEEPER_ALPHA};
use softveil::benchmark::{
    analyze_privacy_effect, benchmark_step, generate_recommended_presets_for_monitor, settle_ms,
    step_progress, step_settings, BenchmarkRecord, BenchmarkStep,
};
use softveil::display_config::{
    DisplayCategory, DisplayConfig, FilterMode, FilterSettings, MonitorId, PanelType,
};
use softveil::events::MenuOutcome;
use softveil::hotkey::{hotkey_event, HotkeyEvent};
use softveil::i18n::{language_from_locale, t, translate, Language};
use softveil::menu::{parse_menu_id, AiMode, MenuCommand};
use softveil::platform::{
    brightness_percent, dark_mode_value, detect_display_category, detect_panel_type,
    detect_panel_type_windows, fallback_monitor_name, is_internal_device, is_dark_mode, is_dark_mode_value,
    parse_display_id, send_notification, set_dark_mode, show_error_dialog, DialogStyle,
};
use softveil::store::{ConfigStore, DisconnectedCache, MAX_DISCONNECTED};
use softveil::tray::{benchmark_item_label, build_menu, EntryKind};

fn state_with_display(id: u64) -> AppState {
    let mut state = AppState::new(AppConfig::default());
    state.add_display(MonitorId(id), None);
    state
}

fn config_at(key: &str, alpha: u32) -> DisplayConfig {
    let mut c = DisplayConfig::default();
    c.position_key = key.to_string();
    c.alpha = alpha;
    c
}

#[test]
fn stealth_mode_starts_and_ends_with_the_stealth_display() {
    let id = MonitorId(7);
    let mut state = state_with_display(7);
    assert_eq!(state.set_filter_mode(&id, FilterMode::StealthDark), StealthAction::Activate);
    let snap = OSSettingsSnapshot { was_dark_mode: false, original_brightness: 8000 };
    state.record_stealth_snapshot(snap);
    assert_eq!(state.check_stealth_transition(), StealthAction::Keep);
    let (on, action) = state.toggle_global();
    assert!(!on);
    assert_eq!(action, StealthAction::Restore(snap));
    assert!(state.stealth_snapshot.is_none());
    let (on, action) = state.toggle_global();
    assert!(on);
    assert_eq!(action, StealthAction::Activate);
}

#[test]
fn toggling_the_global_switch_twice_restores_it() {
    let mut state = state_with_display(1);
    let before = state.global_enabled;
    assert!(state.is_visible(&MonitorId(1)));
    state.toggle_global();
    assert!(!state.is_visible(&MonitorId(1)));
    state.toggle_global();
    assert_eq!(state.global_enabled, before);
    assert!(state.is_visible(&MonitorId(1)));
}

#[test]
fn toggling_a_display_twice_restores_it() {
    let id = MonitorId(4);
    let mut state = state_with_display(4);
    let (first, _) = state.toggle_display(&id);
    assert!(!first);
    let (second, _) = state.toggle_display(&id);
    assert!(second);
    assert!(state.is_visible(&id));
    let (unknown, _) = state.toggle_display(&MonitorId(5));
    assert!(!unknown);
}

#[test]
fn visibility_follows_switches() {
    let id = MonitorId(3);
    let mut state = state_with_display(3);
    assert!(state.is_visible(&id));
    state.toggle_display(&id);
    assert!(!state.is_visible(&id));
    assert!(!state.is_visible(&MonitorId(99)));
}

#[test]
fn effective_alpha_follows_detection_and_vigilance() {
    let id = MonitorId(4);
    let mut state = state_with_display(4);
    assert_eq!(state.effective_alpha_u8(&id), 77);
    state.set_display_alpha(&id, 20000);
    assert_eq!(state.displays.get(&4).unwrap().alpha, 10000);
    assert_eq!(state.effective_alpha_u8(&id), 255);
    state.set_ai_mode(AiMode::Vigilance);
    assert_eq!(state.effective_alpha_u8(&id), 0);
    state.set_peeper_detected(true);
    assert_eq!(state.effective_alpha_u8(&id), PEEPER_ALPHA);
    let cmd = state.set_ai_mode(AiMode::Off);
    assert_eq!(cmd, AIDetectionCommand::Stop);
    assert!(!state.ai_peeper_detected);
}

#[test]
fn saved_preset_is_applied_and_matches() {
    let id = MonitorId(5);
    let mut state = state_with_display(5);
    let settings = FilterSettings {
        alpha: 4000,
        filter_mode: FilterMode::VerticalLouver,
        filter_intensity: 15000,
        override_period_mm: None,
        override_cover_ratio: Some(7000),
        override_scroll_speed: None,
    };
    state.save_preset("A".to_string(), settings);
    state.save_preset("A".to_string(), settings);
    assert_eq!(state.presets.len(), 1);
    state.apply_preset("A", &id);
    let c = state.displays.get(&5).unwrap();
    assert!(c.matches_settings(&settings));
    assert_eq!(c.get_settings(), settings);
    state.clear_presets();
    assert!(state.presets.is_empty());
}

#[test]
fn cache_gives_back_stored_settings_once() {
    let mut cache = DisconnectedCache::new();
    cache.store(config_at("0_0_1920_1080", 4200));
    let back = cache.restore("0_0_1920_1080").unwrap();
    assert_eq!(back.alpha, 4200);
    assert!(cache.restore("0_0_1920_1080").is_none());
}

#[test]
fn cache_keeps_at_most_eight_newest() {
    let mut cache = DisconnectedCache::new();
    for i in 0..10u32 {
        cache.store(config_at(&format!("{}_0_100_100", i), i));
    }
    assert_eq!(cache.len(), MAX_DISCONNECTED);
    assert!(cache.restore("0_0_100_100").is_none());
    assert!(cache.restore("1_0_100_100").is_none());
    assert_eq!(cache.restore("9_0_100_100").unwrap().alpha, 9);
}

#[test]
fn store_replaces_entry_with_same_key() {
    let mut store = ConfigStore::new();
    store.insert(config_at("k", 1));
    store.insert(config_at("j", 2));
    store.insert(config_at("k", 3));
    assert_eq!(store.len(), 2);
    assert_eq!(store.get("k").unwrap().alpha, 3);
    assert_eq!(store.entries()[1].position_key, "k");
    assert_eq!(store.remove("j").unwrap().alpha, 2);
    assert!(store.get("j").is_none());
    assert_eq!(store.remove_oldest().unwrap().alpha, 3);
    assert!(store.remove_oldest().is_none());
}

#[test]
fn settings_survive_a_restart() {
    let id = MonitorId(11);
    let mut state = AppState::new(AppConfig::default());
    let key = DisplayConfig::make_position_key(-1920, 0, 1920, 1080);
    assert_eq!(key, "-1920_0_1920_1080");
    state.add_display_with_pos_and_profile(id, key.clone(), DisplayCategory::ExternalGeneral, 917877);
    state.set_display_alpha(&id, 6000);
    state.set_filter_mode(&id, FilterMode::VerticalLouver);
    let config = state.to_config();
    let mut next = AppState::new(config);
    next.add_display_with_pos_and_profile(MonitorId(12), key, DisplayCategory::ExternalGeneral, 917877);
    let c = next.displays.get(&12).unwrap();
    assert_eq!(c.alpha, 6000);
    assert_eq!(c.filter_mode, FilterMode::VerticalLouver);
    assert_eq!(c.display_category, DisplayCategory::ExternalGeneral);
}

#[test]
fn new_display_gets_detected_category_and_recommended_mode() {
    let id = MonitorId(13);
    let mut state = AppState::new(AppConfig::default());
    state.add_display_with_pos_and_profile(id, "0_0_2560_1600".to_string(), DisplayCategory::NotebookHiDpi, 2272673);
    assert_eq!(state.display_category(&id), DisplayCategory::NotebookHiDpi);
    assert_eq!(state.filter_mode(&id), FilterMode::BlackLayer);
    state.set_panel_type(&id, PanelType::Oled);
    assert_eq!(state.filter_mode(&id), FilterMode::HighIntensitySPD);
    state.set_filter_intensity(&id, 100);
    assert_eq!(state.filter_intensity(&id), 1000);
    state.reset_to_recommended(&id);
    assert_eq!(state.filter_intensity(&id), 7500);
}

#[test]
fn replugged_display_gets_its_settings_back() {
    let id = MonitorId(21);
    let mut state = AppState::new(AppConfig::default());
    let mut cache = DisconnectedCache::new();
    state.connect_display(id, "0_0_1920_1080".to_string(), DisplayCategory::ExternalGeneral, 917877, &mut cache);
    state.set_display_alpha(&id, 5500);
    state.disconnect_display(&id, &mut cache);
    assert!(state.displays.is_empty());
    assert_eq!(cache.len(), 1);
    state.connect_display(MonitorId(22), "0_0_1920_1080".to_string(), DisplayCategory::ExternalLarge4K, 1633549, &mut cache);
    let c = state.displays.get(&22).unwrap();
    assert_eq!(c.alpha, 5500);
    assert_eq!(c.display_category, DisplayCategory::ExternalGeneral);
    assert_eq!(cache.len(), 0);
}

#[test]
fn animation_is_needed_for_moving_patterns_only() {
    let id = MonitorId(31);
    let mut state = AppState::new(AppConfig::default());
    state.add_display_with_pos_and_profile(id, "k".to_string(), DisplayCategory::NotebookFhd, 1573505);
    let ids = vec![id];
    assert!(!state.needs_animation(&ids));
    state.set_filter_mode(&id, FilterMode::HighIntensitySPD);
    assert!(state.needs_animation(&ids));
    state.set_override_scroll_speed(&id, Some(0));
    assert!(!state.needs_animation(&ids));
}

#[test]
fn benchmark_progress_decides_rebuild_and_notice() {
    let mut state = AppState::new(AppConfig::default());
    assert_eq!(state.set_benchmark_progress(0), (true, false));
    assert_eq!(state.set_benchmark_progress(999), (false, false));
    assert_eq!(state.set_benchmark_progress(2500), (true, true));
    state.finish_benchmark();
    assert!(state.benchmark_progress.is_none());
}

#[test]
fn test_settings_are_shown_and_put_back() {
    let id = MonitorId(41);
    let mut state = state_with_display(41);
    let original = state.displays.get(&41).unwrap().get_settings();
    let step = benchmark_step(20);
    let t = step_settings(step);
    state.apply_test_settings(&id, &t);
    assert_eq!(state.displays.get(&41).unwrap().override_period_mm, Some(1500));
    state.apply_test_settings(&id, &TestSettings::from_settings(&original));
    assert_eq!(state.displays.get(&41).unwrap().get_settings(), original);
}

#[test]
fn menu_ids_are_written_as_the_menu_writes_them() {
    let id = MonitorId(0x1f);
    assert_eq!(MenuCommand::Alpha(id, 50).to_menu_id(), "alpha:0x1f:50");
    assert_eq!(MenuCommand::OverridePeriod(id, Some(8000)).to_menu_id(), "ov_period:0x1f:Some(0.8)");
    assert_eq!(MenuCommand::OverrideSpeed(id, Some(50000)).to_menu_id(), "ov_speed:0x1f:Some(5.0)");
    assert_eq!(MenuCommand::OverrideCover(id, None).to_menu_id(), "ov_cover:0x1f:None");
    assert_eq!(MenuCommand::Intensity(id, 7500).to_menu_id(), "intensity:0x1f:0.75");
    assert_eq!(MenuCommand::Intensity(id, 10000).to_menu_id(), "intensity:0x1f:1");
    assert_eq!(MenuCommand::Mode(id, FilterMode::StealthDark).to_menu_id(), "mode:0x1f:StealthDark");
    assert_eq!(MenuCommand::PresetSaveCurrent(id).to_menu_id(), "preset_save_current0x1f");
    assert_eq!(MenuCommand::PresetDelete("P 1".to_string()).to_menu_id(), "preset_delete:P 1");
    assert_eq!(MenuCommand::SetAiMode(AiMode::Vigilance).to_menu_id(), "ai_mode_vigilance");
}

#[test]
fn menu_ids_read_back_as_their_commands() {
    let id = MonitorId(0xabc);
    let cmds = vec![
        MenuCommand::GlobalToggle,
        MenuCommand::DisplayToggle(id),
        MenuCommand::Alpha(id, 70),
        MenuCommand::Mode(id, FilterMode::AIOcrInterference),
        MenuCommand::Panel(id, PanelType::LcdTn),
        MenuCommand::Category(id, DisplayCategory::ExternalLarge4K),
        MenuCommand::Intensity(id, 15000),
        MenuCommand::OverridePeriod(id, Some(25000)),
        MenuCommand::OverrideCover(id, Some(9500)),
        MenuCommand::OverrideSpeed(id, None),
        MenuCommand::ResetRecommended(id),
        MenuCommand::PresetApply(id, "Night".to_string()),
        MenuCommand::PresetDelete("a:b".to_string()),
        MenuCommand::PresetSaveCurrent(id),
        MenuCommand::RunBenchmark(id),
        MenuCommand::RunBenchmarkAll,
        MenuCommand::AutoStart,
        MenuCommand::SetAiMode(AiMode::Enhanced),
        MenuCommand::Quit,
    ];
    for c in cmds {
        let text = c.to_menu_id();
        let back = parse_menu_id(&text).expect("menu id should parse");
        assert_eq!(back.to_menu_id(), text);
        assert_eq!(format!("{:?}", back), format!("{:?}", c));
    }
}

#[test]
fn menu_ids_that_name_nothing_are_refused() {
    assert!(parse_menu_id("alpha:0x1f").is_none());
    assert!(parse_menu_id("alpha:0X1f:50").is_none());
    assert!(parse_menu_id("mode:0x1f:Unknown").is_none());
    assert!(parse_menu_id("category:0x1f:Unknown").is_none());
    assert!(parse_menu_id("ov_period:0x1f:Some(0.12345)").is_none());
    assert!(parse_menu_id("ov_period:0x1f:1.2").is_none());
    assert!(parse_menu_id("preset_apply:0x1:a:b").is_none());
    assert!(parse_menu_id("nothing").is_none());
    assert!(parse_menu_id("").is_none());
}

#[test]
fn menu_ids_accept_legacy_and_signed_forms() {
    match parse_menu_id("mode:0x1f:StealthLightSubpixel") {
        Some(MenuCommand::Mode(id, m)) => {
            assert_eq!(id, MonitorId(0x1f));
            assert_eq!(m, FilterMode::StealthLight);
        },
        other => panic!("unexpected {:?}", other),
    }
    match parse_menu_id("display_toggle:0x+FF") {
        Some(MenuCommand::DisplayToggle(id)) => assert_eq!(id, MonitorId(255)),
        other => panic!("unexpected {:?}", other),
    }
    match parse_menu_id("ov_cover:0x2:Some(0.85)") {
        Some(MenuCommand::OverrideCover(id, v)) => {
            assert_eq!(id, MonitorId(2));
            assert_eq!(v, Some(8500));
        },
        other => panic!("unexpected {:?}", other),
    }
}

#[test]
fn menu_commands_change_the_state() {
    let id = MonitorId(51);
    let mut state = state_with_display(51);
    let o: MenuOutcome = state.handle_menu_command(&MenuCommand::Alpha(id, 150));
    assert!(o.save && o.sync && o.rebuild);
    assert_eq!(state.displays.get(&51).unwrap().alpha, 10000);
    state.handle_menu_command(&MenuCommand::PresetSaveCurrent(id));
    assert_eq!(state.presets.len(), 1);
    assert_eq!(state.presets[0].name, "Preset 1");
    assert_eq!(state.presets[0].settings.alpha, 10000);
    let o = state.handle_menu_command(&MenuCommand::RunBenchmarkAll);
    assert_eq!(o.benchmark, Some(None));
    let o = state.handle_menu_command(&MenuCommand::SetAiMode(AiMode::Enhanced));
    assert_eq!(o.ai, Some(AIDetectionCommand::Start));
    state.handle_menu_command(&MenuCommand::Category(id, DisplayCategory::ExternalGeneral));
    assert_eq!(state.display_category(&id), DisplayCategory::ExternalGeneral);
    assert_eq!(state.displays.get(&51).unwrap().ppi, 1100000);
    state.handle_menu_command(&MenuCommand::Mode(id, FilterMode::StealthDark));
    state.record_stealth_snapshot(OSSettingsSnapshot { was_dark_mode: true, original_brightness: 10000 });
    let o = state.handle_menu_command(&MenuCommand::Quit);
    assert!(o.quit);
    assert_eq!(o.stealth, StealthAction::Restore(OSSettingsSnapshot { was_dark_mode: true, original_brightness: 10000 }));
}

#[test]
fn menu_lists_every_display_with_its_checks() {
    let id = MonitorId(1);
    let state = state_with_display(1);
    let overlays = vec![(id, "Built-in".to_string())];
    let menu = build_menu(&state, &overlays, Language::En);
    assert_eq!(menu[0].id, "global_toggle");
    assert_eq!(menu[0].label, "Filter: All On");
    assert!(menu[0].checked);
    assert_eq!(menu[2].kind, EntryKind::Open);
    assert_eq!(menu[2].label, "Built-in");
    assert_eq!(menu[3].label, "Display Type: Unknown (PPI: 110)");
    let alpha30 = menu.iter().find(|e| e.id == "alpha:0x1:30").unwrap();
    assert!(alpha30.checked);
    let alpha40 = menu.iter().find(|e| e.id == "alpha:0x1:40").unwrap();
    assert!(!alpha40.checked);
    let opens = menu.iter().filter(|e| e.kind == EntryKind::Open).count();
    let closes = menu.iter().filter(|e| e.kind == EntryKind::Close).count();
    assert_eq!(opens, closes);
    assert_eq!(menu.last().unwrap().id, "quit");
    let ja = build_menu(&state, &overlays, Language::Ja);
    assert_eq!(ja[0].label, "フィルター：すべてオン");
    assert_eq!(ja.len(), menu.len());
}

#[test]
fn benchmark_labels_show_progress() {
    assert_eq!(benchmark_item_label(Language::En, true, None), "Optimize All Screens");
    assert_eq!(benchmark_item_label(Language::En, true, Some(4950)), "Optimize All Screens (50%) ...");
    assert_eq!(benchmark_item_label(Language::En, false, Some(4949)), "Optimize This Screen (49%) ...");
}

#[test]
fn benchmark_plan_covers_matrix_then_search() {
    assert_eq!(benchmark_step(0), BenchmarkStep::Measure { mode: FilterMode::BlackLayer, alpha: 1000 });
    assert_eq!(benchmark_step(17), BenchmarkStep::Measure { mode: FilterMode::StealthLight, alpha: 5000 });
    assert_eq!(benchmark_step(18), BenchmarkStep::Search { period: 1500, cover: 5000 });
    assert_eq!(benchmark_step(29), BenchmarkStep::Search { period: 4000, cover: 8500 });
    assert_eq!(step_progress(0), 333);
    assert_eq!(step_progress(29), 10000);
    assert_eq!(settle_ms(benchmark_step(12)), 2000);
    assert_eq!(settle_ms(benchmark_step(0)), 800);
    assert_eq!(settle_ms(benchmark_step(20)), 500);
}

#[test]
fn benchmark_record_keeps_the_best() {
    let mut r = BenchmarkRecord::new();
    let a = benchmark_step(1);
    let b = benchmark_step(2);
    r.record(a, 0);
    r.record(b, 0);
    assert_eq!(r.best_score, Some((0, a)));
    r.record(b, 5);
    assert_eq!(r.best_score, Some((5, b)));
    r.record(benchmark_step(25), 7);
    assert_eq!(r.best_params, Some((7, 3000, 7000)));
}

#[test]
fn recommended_presets_follow_the_search() {
    let p = generate_recommended_presets_for_monitor(5000, 4000, "Test Monitor");
    assert_eq!(p[0].name, "Office (Balanced) - Test Monitor");
    assert_eq!(p[1].settings.override_period_mm, Some(3750));
    assert_eq!(p[1].settings.override_cover_ratio, Some(8500));
    assert_eq!(p[1].settings.override_scroll_speed, Some(100000));
    assert_eq!(p[2].settings.override_cover_ratio, Some(4000));
}

#[test]
fn privacy_effect_of_small_images() {
    let dot = vec![0, 0, 0, 0, 255, 0, 0, 0, 0];
    assert_eq!(analyze_privacy_effect(&dot, 3, 3), (0, 283333));
    let flat = vec![128u8; 16];
    assert_eq!(analyze_privacy_effect(&flat, 4, 4), (10000, 0));
    let line = vec![10, 20, 30, 40];
    assert_eq!(analyze_privacy_effect(&line, 4, 1), (8823, 0));
}

#[test]
fn detector_follows_commands() {
    let mut d = DetectorState::new(true);
    assert_eq!(d.command(AIDetectionCommand::Start), DetectorAction::OpenCamera);
    assert!(!d.should_analyze());
    d.camera_opened(true);
    assert!(d.should_analyze());
    assert_eq!(d.poll_interval_ms(), 500);
    assert_eq!(d.command(AIDetectionCommand::Start), DetectorAction::Nothing);
    assert_eq!(d.command(AIDetectionCommand::Stop), DetectorAction::StopCameraAndClear);
    assert_eq!(d.poll_interval_ms(), 100);
}

#[test]
fn faces_are_counted_above_the_threshold() {
    let scores = vec![100, 8000, 200, 7000, 0, 7001, 5];
    assert_eq!(count_faces(&scores), 2);
    assert!(peeper_present(2));
    assert!(!peeper_present(1));
}

#[test]
fn hotkey_press_toggles() {
    assert_eq!(hotkey_event(3, 3, true), Some(HotkeyEvent::ToggleGlobal));
    assert_eq!(hotkey_event(3, 3, false), None);
    assert_eq!(hotkey_event(4, 3, true), None);
}

#[test]
fn language_comes_from_the_locale() {
    assert_eq!(language_from_locale(Some("ja-JP".to_string())), Language::Ja);
    assert_eq!(language_from_locale(Some("ja".to_string())), Language::Ja);
    assert_eq!(language_from_locale(Some("en-US".to_string())), Language::En);
    assert_eq!(language_from_locale(Some("j".to_string())), Language::En);
    assert_eq!(language_from_locale(None), Language::En);
    assert_eq!(translate(Language::Ja, "はい", "Yes"), "はい");
    let any = t("はい", "Yes");
    assert!(any == "はい" || any == "Yes");
}

#[test]
fn scripts_and_dialogs_for_the_system() {
    assert_eq!(
        send_notification("Soft\"veil", "Sub", "Body"),
        "display notification \"Body\" with title \"Soft\\\"veil\" subtitle \"Sub\""
    );
    assert_eq!(
        set_dark_mode(false),
        "tell application \"System Events\" to tell appearance preferences to set dark mode to false"
    );
    assert!(is_dark_mode(Some("Dark".to_string())));
    assert!(!is_dark_mode(Some("Light".to_string())));
    assert!(!is_dark_mode(None));
    assert!(is_dark_mode_value(Some(0)));
    assert!(!is_dark_mode_value(Some(1)));
    assert!(!is_dark_mode_value(None));
    assert_eq!(dark_mode_value(true), 0);
    assert_eq!(brightness_percent(12345), 100);
    assert_eq!(brightness_percent(2599), 25);
    let d = show_error_dialog("T", "M");
    assert_eq!(d.style, DialogStyle::Critical);
    assert_eq!(d.title, "T");
    assert_eq!(fallback_monitor_name(42, false), "Display 42");
    assert_eq!(fallback_monitor_name(42, true), "Monitor #42");
}

#[test]
fn display_ids_from_the_report() {
    assert_eq!(parse_display_id("0x1A"), Some(26));
    assert_eq!(parse_display_id("0X10"), Some(16));
    assert_eq!(parse_display_id("42"), Some(42));
    assert_eq!(parse_display_id("+7"), Some(7));
    assert_eq!(parse_display_id(""), None);
    assert_eq!(parse_display_id("0x"), None);
    assert_eq!(parse_display_id("12a"), None);
    assert_eq!(parse_display_id("18446744073709551616"), None);
    assert_eq!(parse_display_id("18446744073709551615"), Some(u64::MAX));
}

#[test]
fn display_categories_are_detected() {
    assert_eq!(
        detect_display_category(Some((2860000, 1790000)), 2560, 1600, true),
        (DisplayCategory::NotebookHiDpi, 2272673)
    );
    assert_eq!(detect_display_category(None, 1920, 1080, true), (DisplayCategory::NotebookFhd, 1573505));
    assert_eq!(
        detect_display_category(Some((5970000, 3360000)), 3840, 2160, false),
        (DisplayCategory::ExternalLarge4K, 1633549)
    );
    assert_eq!(detect_display_category(None, 1920, 1080, false), (DisplayCategory::ExternalGeneral, 917877));
    assert_eq!(detect_display_category(None, 3840, 2160, false).0, DisplayCategory::ExternalLarge4K);
}

#[test]
fn panel_types_are_guessed_from_names() {
    assert_eq!(detect_panel_type("LG OLED", None, 60), PanelType::Oled);
    assert_eq!(detect_panel_type("Built-in Retina Display", Some(16000), 120), PanelType::LcdIps);
    assert_eq!(detect_panel_type("Studio XDR", Some(30000), 60), PanelType::Oled);
    assert_eq!(detect_panel_type("Dell P2419H", None, 60), PanelType::Unknown);
    assert_eq!(detect_panel_type("acme tn", None, 60), PanelType::LcdTn);
    assert_eq!(detect_panel_type_windows("BenQ ZOWIE XL2546", 240), PanelType::LcdTn);
    assert_eq!(detect_panel_type_windows("LG UltraFine", 60), PanelType::LcdIps);
    assert_eq!(detect_panel_type_windows("Generic PnP", 144), PanelType::Oled);
}

#[test]
fn monitor_ids_as_text() {
    assert_eq!(MonitorId(0x1a2b).to_hex_string(), "0x1a2b");
    assert_eq!(MonitorId(0).to_hex_string(), "0x0");
    assert_eq!(PanelType::LcdIps.to_str(), "LCD IPS");
}

#[test]
fn built_in_displays_are_recognised_on_windows() {
    assert!(is_internal_device("Intel(R) Iris(R) Xe Graphics eDP panel", false, 3840));
    assert!(is_internal_device("Laptop Display", false, 3840));
    assert!(is_internal_device("Generic PnP Monitor", true, 2560));
    assert!(!is_internal_device("Generic PnP Monitor", true, 3840));
    assert!(!is_internal_device("Generic PnP Monitor", false, 1920));
}

#[test]
fn preset_applied_to_every_display_from_the_menu() {
    let mut state = AppState::new(AppConfig::default());
    state.add_display(MonitorId(1), None);
    state.add_display(MonitorId(2), None);
    let settings = FilterSettings {
        alpha: 5000,
        filter_mode: FilterMode::HighIntensitySPD,
        filter_intensity: 8000,
        override_period_mm: Some(2000),
        override_cover_ratio: Some(8500),
        override_scroll_speed: None,
    };
    state.save_preset("Transit".to_string(), settings);
    let cmd = parse_menu_id("preset_all:Transit").unwrap();
    assert!(matches!(cmd, MenuCommand::PresetApplyAll(ref n) if n == "Transit"));
    assert_eq!(cmd.to_menu_id(), "preset_all:Transit");
    let o = state.handle_menu_command(&cmd);
    assert!(!o.save && o.sync && o.rebuild);
    assert_eq!(state.displays.get(&1).unwrap().get_settings(), settings);
    assert_eq!(state.displays.get(&2).unwrap().get_settings(), settings);
    let before = state.displays.get(&1).unwrap().get_settings();
    state.apply_preset_to_all("Missing");
    assert_eq!(state.displays.get(&1).unwrap().get_settings(), before);
    assert_eq!(state.displays.len(), 2);
}
