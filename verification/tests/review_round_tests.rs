use softveil::ai_detection::{model_frame, AIDetectionCommand, DetectorAction, DetectorState, MODEL_HEIGHT, MODEL_WIDTH};
use softveil::app::{AppConfig, AppState};
use softveil::benchmark::{benchmark_results, half_size, score_screenshot, BenchmarkRecord, BenchmarkStep};
use softveil::display_report::monitor_names_from_output;
use softveil::display_config::{DisplayCategory, DisplayConfig, FilterMode, MonitorId};
use softveil::i18n::Language;
use softveil::menu::MenuCommand;
use softveil::store::DisconnectedCache;
use softveil::tray::{build_menu, EntryKind};

#[test]
fn test_display_config_persistence_safety() {
    let mut state = AppState::new(AppConfig::default());
    let id = MonitorId(999);
    state.add_display(id, None);
    state.set_filter_mode(&id, FilterMode::StealthDark);

    let config = state.displays.get(&id.0).unwrap();
    assert_eq!(config.filter_mode, FilterMode::StealthDark);

    let written = MenuCommand::Mode(id, config.filter_mode).to_menu_id();
    assert!(written.contains("StealthDark"));
    assert!(!written.contains("StealthLightSubpixel"));
}

#[test]
fn adding_a_registered_display_keeps_its_settings() {
    let mut state = AppState::new(AppConfig::default());
    let id = MonitorId(12);
    let mut first = DisplayConfig::default();
    first.alpha = 4000;
    state.add_display(id, Some(first));
    let mut second = DisplayConfig::default();
    second.alpha = 9000;
    state.add_display(id, Some(second));
    assert_eq!(state.displays.get(&12).unwrap().alpha, 4000);
    state.add_display(id, None);
    assert_eq!(state.displays.get(&12).unwrap().alpha, 4000);
    assert_eq!(state.displays.len(), 1);
}

#[test]
fn connecting_a_registered_display_keeps_its_settings() {
    let mut state = AppState::new(AppConfig::default());
    let mut cache = DisconnectedCache::new();
    let id = MonitorId(3);
    let mut own = DisplayConfig::default();
    own.alpha = 2000;
    own.display_category = DisplayCategory::NotebookFhd;
    state.add_display(id, Some(own));
    let mut cached = DisplayConfig::default();
    cached.position_key = "0_0_1920_1080".to_string();
    cached.alpha = 8000;
    cache.store(cached);
    state.connect_display(id, "0_0_1920_1080".to_string(), DisplayCategory::ExternalGeneral, 1100000, &mut cache);
    assert_eq!(state.displays.get(&3).unwrap().alpha, 2000);
    assert_eq!(state.display_category(&id), DisplayCategory::NotebookFhd);
    assert_eq!(cache.len(), 0);
}

#[test]
fn position_keys_differ_for_different_places_and_sizes() {
    let a = DisplayConfig::make_position_key(-1920, 0, 1920, 1080);
    assert_eq!(a, "-1920_0_1920_1080");
    assert_ne!(a, DisplayConfig::make_position_key(-1920, 0, 1920, 1081));
    assert_ne!(a, DisplayConfig::make_position_key(1920, 0, 1920, 1080));
    assert_ne!(
        DisplayConfig::make_position_key(1, 11, 1, 1),
        DisplayConfig::make_position_key(11, 1, 1, 1)
    );
}

#[test]
fn menu_top_level_has_nine_entries_besides_the_displays() {
    let mut state = AppState::new(AppConfig::default());
    state.add_display(MonitorId(1), None);
    state.add_display(MonitorId(2), None);
    let overlays = vec![(MonitorId(1), "A".to_string()), (MonitorId(2), "B".to_string())];
    let menu = build_menu(&state, &overlays, Language::En);
    let mut depth = 0i32;
    let mut top = 0;
    for e in &menu {
        match e.kind {
            EntryKind::Open => {
                if depth == 0 {
                    top += 1;
                }
                depth += 1;
            }
            EntryKind::Close => depth -= 1,
            _ => {
                if depth == 0 {
                    top += 1;
                }
            }
        }
    }
    assert_eq!(depth, 0);
    assert_eq!(top, 9 + overlays.len());
    assert_eq!(menu[0].id, "global_toggle");
    assert!(menu[0].checked);
    assert_eq!(menu[2].kind, EntryKind::Open);
    assert_eq!(menu[2].label, "A");
    assert_eq!(menu[4].id, "display_toggle:0x1");
    assert!(menu[4].checked);
}

#[test]
fn screenshots_are_scored_and_halved() {
    let (w, h) = (4u32, 4u32);
    let mut rgba = Vec::new();
    for y in 0..h {
        for x in 0..w {
            let v: u8 = if (x + y) % 2 == 0 { 255 } else { 0 };
            rgba.extend_from_slice(&[v, v, v, 255]);
        }
    }
    let (crr, score) = score_screenshot(&rgba, w, h);
    assert_eq!(crr, 0);
    assert_eq!(score, 10000 * 4 * 255 * 4 / (4 * 16));
    let grey = vec![128u8; (w * h * 4) as usize];
    assert_eq!(score_screenshot(&grey, w, h), (10000, 0));

    let (small, sw, sh) = half_size(&rgba, w, h);
    assert_eq!((sw, sh), (2, 2));
    assert_eq!(small.len(), 16);
}

#[test]
fn camera_frames_are_resized_for_the_model() {
    let frame = vec![200u8; 8 * 6 * 3];
    let small = model_frame(&frame, 8, 6);
    assert_eq!(small.len(), (MODEL_WIDTH * MODEL_HEIGHT * 3) as usize);
    assert!(small.iter().all(|v| *v == 200));
}

#[test]
fn display_names_come_from_the_report_output() {
    let out = br#"{"SPDisplaysDataType":[{"sppci_model":"Apple M2","spdisplays_ndrvs":[
        {"_name":"Color LCD","_spdisplays_displayID":"1"},
        {"_name":"DELL U2720Q","_spdisplays_displayID":"0x2b","spdisplays_resolution":"3840 x 2160"},
        {"_spdisplays_displayID":"7"},
        {"_name":"No id"}]}]}"#
        .to_vec();
    assert_eq!(
        monitor_names_from_output(&out),
        vec![(1, "Color LCD".to_string()), (0x2b, "DELL U2720Q".to_string()), (7, "Unknown".to_string())]
    );
    assert!(monitor_names_from_output(&b"not json".to_vec()).is_empty());
    assert!(monitor_names_from_output(&Vec::new()).is_empty());
}

#[test]
fn benchmark_results_collect_presets_and_summaries() {
    let info = vec![(MonitorId(1), "A".to_string()), (MonitorId(2), "B".to_string())];
    let mut found = BenchmarkRecord::new();
    found.record(BenchmarkStep::Measure { mode: FilterMode::StealthDark, alpha: 3000 }, 4200);
    found.record(BenchmarkStep::Search { period: 2000, cover: 7000 }, 900);
    let empty = BenchmarkRecord::new();
    let (presets, summary) = benchmark_results(&info, &vec![found, empty]);
    assert_eq!(presets.len(), 3);
    assert_eq!(presets[0].name, "Office (Balanced) - A");
    assert_eq!(presets[1].name, "Transit (Maximum) - A");
    assert_eq!(presets[0].settings.override_period_mm, Some(2000));
    assert_eq!(
        summary,
        "▼ A\n  ・最高秘匿スコア: 0.42 (StealthDark (Alpha 0.3))\n  ・最適パラメータ: 周期 0.20mm / 遮蔽率 70%\n\n"
    );
}

#[test]
fn search_keeps_the_first_best_pair() {
    let mut r = BenchmarkRecord::new();
    r.record(BenchmarkStep::Search { period: 1500, cover: 5000 }, 10);
    r.record(BenchmarkStep::Search { period: 2000, cover: 7000 }, 30);
    r.record(BenchmarkStep::Search { period: 3000, cover: 8500 }, 30);
    r.record(BenchmarkStep::Search { period: 4000, cover: 5000 }, 20);
    assert_eq!(r.best_params, Some((30, 2000, 7000)));
    assert!(r.best_score.is_none());
    assert!(BenchmarkRecord::new().best_params.is_none());
}

#[test]
fn camera_worker_runs_between_start_and_stop() {
    let mut w = DetectorState::new(true);
    assert_eq!(w.command(AIDetectionCommand::Start), DetectorAction::OpenCamera);
    assert!(!w.should_analyze());
    w.camera_opened(true);
    assert!(w.should_analyze());
    assert_eq!(w.command(AIDetectionCommand::Start), DetectorAction::Nothing);
    assert!(w.should_analyze());
    assert_eq!(w.command(AIDetectionCommand::Stop), DetectorAction::StopCameraAndClear);
    assert!(!w.should_analyze());
    w.camera_opened(true);
    assert!(!w.should_analyze());
    assert_eq!(w.poll_interval_ms(), 100);
}
