use softveil::app::{AppConfig, AppState};
use softveil::benchmark::generate_recommended_presets_for_monitor;
use softveil::display_config::{
    DisplayCategory, DisplayProfile, FilterMode, FilterSettings, MonitorId, PanelType,
};
use softveil::i18n::Language;
use softveil::tray::build_menu;
use std::collections::HashMap;

fn fresh_state() -> AppState {
    AppState::new(AppConfig::default())
}

#[test]
fn test_app_state_benchmark_transition() {
    let mut state = fresh_state();
    assert!(state.benchmark_progress.is_none());

    state.benchmark_progress = Some(0);
    assert_eq!(state.benchmark_progress, Some(0));

    state.benchmark_progress = Some(5000);
    assert_eq!(state.benchmark_progress, Some(5000));

    state.benchmark_progress = None;
    assert!(state.benchmark_progress.is_none());
}

#[test]
fn test_filter_mode_merger_safety() {
    let mode = FilterMode::StealthLight;
    let mode_val = match mode {
        FilterMode::BlackLayer => 0.0,
        FilterMode::VerticalLouver => 1.0,
        FilterMode::AIOcrInterference => 2.0,
        FilterMode::HighIntensitySPD => 3.0,
        FilterMode::StealthDark => 4.0,
        FilterMode::StealthLight => 5.0,
    };
    assert_eq!(mode_val, 5.0);
}

#[test]
fn test_preset_crud_operations() {
    let mut state = fresh_state();
    let preset_name = "Test Preset";
    let settings = FilterSettings {
        filter_mode: FilterMode::HighIntensitySPD,
        alpha: 5000,
        filter_intensity: 12000,
        override_period_mm: Some(8000),
        override_cover_ratio: None,
        override_scroll_speed: None,
    };

    state.save_preset(preset_name.to_string(), settings);
    assert!(state.presets.iter().any(|p| p.name == preset_name));

    let id = MonitorId(123);
    state.add_display(id, None);
    state.apply_preset(preset_name, &id);
    let config = state.displays.get(&id.0).unwrap();
    assert_eq!(config.filter_mode, FilterMode::HighIntensitySPD);
    assert_eq!(config.alpha, 5000);

    let new_settings = FilterSettings {
        filter_mode: FilterMode::StealthLight,
        alpha: 2000,
        filter_intensity: 9000,
        override_period_mm: Some(4000),
        override_cover_ratio: None,
        override_scroll_speed: None,
    };
    state.save_preset(preset_name.to_string(), new_settings);
    state.apply_preset(preset_name, &id);
    let updated_config = state.displays.get(&id.0).unwrap();
    assert_eq!(updated_config.filter_mode, FilterMode::StealthLight);

    state.delete_preset(preset_name);
    assert!(!state.presets.iter().any(|p| p.name == preset_name));
}

#[test]
fn test_benchmark_preset_generation() {
    let presets = generate_recommended_presets_for_monitor(5000, 4000, "Test Monitor");

    assert!(presets.len() >= 3);

    let office = presets.iter().find(|p| p.name.contains("Office")).expect("Office preset missing");
    assert_eq!(office.settings.filter_mode, FilterMode::StealthLight);

    let transit = presets.iter().find(|p| p.name.contains("Transit")).expect("Transit preset missing");
    assert_eq!(transit.settings.filter_mode, FilterMode::HighIntensitySPD);

    let night = presets.iter().find(|p| p.name.contains("Night")).expect("Night preset missing");
    assert_eq!(night.settings.filter_mode, FilterMode::StealthDark);
}

#[test]
fn test_display_category_logic() {
    let profile_fhd = DisplayProfile::from_config(DisplayCategory::NotebookFhd, PanelType::LcdIps);
    assert_eq!(profile_fhd.period_mm, 5000);

    let profile_hidpi = DisplayProfile::from_config(DisplayCategory::NotebookHiDpi, PanelType::LcdIps);
    assert_eq!(profile_hidpi.period_mm, 5000);
}

#[test]
fn test_ui_state_flags_logic() {
    let mut state = fresh_state();
    state.ai_detection_enabled = true;
    state.ai_peeper_detected = true;

    state.toggle_ai_detection();
    assert!(!state.ai_detection_enabled);
    assert!(!state.ai_peeper_detected);
}

#[test]
fn test_menu_rebuild_logic_robustness() {
    let mut state = fresh_state();
    for i in 0..5 {
        state.add_display(MonitorId(i), None);
    }
    let menu = build_menu(&state, &Vec::new(), Language::En);
    assert!(menu.len() > 0);
}

#[test]
fn test_monitor_id_hashing() {
    let id1 = MonitorId(0x1234);
    let id2 = MonitorId(0x1234);
    let id3 = MonitorId(0x5678);

    let mut map = HashMap::new();
    map.insert(id1, "Monitor A");

    assert_eq!(map.get(&id2), Some(&"Monitor A"));
    assert_eq!(map.get(&id3), None);
}

#[test]
fn test_platform_dialog_interface_safety() {
    let _ = softveil::platform::show_info_dialog;
    let _ = softveil::platform::show_error_dialog;
}
