use softveil::app::{AppConfig, AppState};
use softveil::benchmark::{
    benchmark_step, benchmark_tooltip, monitor_summary, progress_notice, report_heading, report_row,
    simulate_oblique_view, simulated_path, step_message, BenchmarkRecord,
};
use softveil::display_config::{DisplayCategory, FilterMode, MonitorId};
use softveil::display_report::{monitor_names, JsonValue};
use softveil::hotplug::display_changes;
use softveil::platform::{bgra_to_rgba, CaptureError};

#[test]
fn step_messages_name_the_settings() {
    assert_eq!(step_message(benchmark_step(0)), "全モニターを測定中... (BlackLayer / Alpha 0.1)");
    assert_eq!(step_message(benchmark_step(16)), "全モニターを測定中... (StealthLight / Alpha 0.3)");
    assert_eq!(step_message(benchmark_step(21)), "全モニターの最適化パラメータを探索中... (P=0.20 C=50%)");
    assert_eq!(step_message(benchmark_step(20)), "全モニターの最適化パラメータを探索中... (P=0.15 C=85%)");
}

#[test]
fn summaries_report_the_best_results() {
    let mut r = BenchmarkRecord::new();
    assert!(monitor_summary("X", &r).is_none());
    r.record(benchmark_step(25), 100);
    assert_eq!(
        monitor_summary("X", &r).unwrap(),
        "▼ X\n  ・最高秘匿スコア: -1.00 (Unknown)\n  ・最適パラメータ: 周期 0.30mm / 遮蔽率 70%\n\n"
    );
    r.record(benchmark_step(10), 12345);
    assert_eq!(
        monitor_summary("X", &r).unwrap(),
        "▼ X\n  ・最高秘匿スコア: 1.23 (HighIntensitySPD (Alpha 0.3))\n  ・最適パラメータ: 周期 0.30mm / 遮蔽率 70%\n\n"
    );
}

#[test]
fn progress_texts() {
    assert_eq!(benchmark_tooltip(5050), "Softveil (ベンチマーク中: 50%)");
    assert_eq!(benchmark_tooltip(5150), "Softveil (ベンチマーク中: 52%)");
    assert_eq!(progress_notice(2500), "進捗: 25%");
}

#[test]
fn report_lines() {
    assert_eq!(
        simulated_path("benchmark_results", MonitorId(0x2a), FilterMode::StealthDark, 5000),
        "benchmark_results/simulated_2a_StealthDark_0.5.jpg"
    );
    assert!(report_heading("Main").starts_with("## Monitor: Main\n\n| Mode |"));
    assert_eq!(
        report_row(FilterMode::VerticalLouver, 1000, 8823, 283333, "p.jpg"),
        "| VerticalLouver | 0.1 | 88.23% | 28.33 | [Link](p.jpg) |\n"
    );
}

#[test]
fn oblique_view_is_narrower_and_washed_out() {
    let w = 10u32;
    let h = 2u32;
    let mut rgba = Vec::new();
    for i in 0..(w * h) {
        rgba.extend_from_slice(&[(i * 10) as u8, 100, 250, 7]);
    }
    let (out, nw) = simulate_oblique_view(&rgba, w, h);
    assert_eq!(nw, 7);
    assert_eq!(out.len(), (7 * 2 * 4) as usize);
    assert_eq!(&out[0..4], &[40, 120, 240, 255]);
    let x = 6usize;
    let src = x * 1000 / 707;
    assert_eq!(src, 8);
    let i = ((1 * 7 + x) * 4) as usize;
    assert_eq!(out[i], (40 + ((10 + src) * 10) * 4 / 5) as u8);
}

#[test]
fn screenshots_are_converted_from_bgra() {
    let raw = vec![1, 2, 3, 4, 5, 6, 7, 8, 0, 0, 9, 10, 11, 12, 13, 14, 15, 16, 0, 0];
    let rgba = bgra_to_rgba(&raw, 2, 2, 10).unwrap();
    assert_eq!(rgba, vec![3, 2, 1, 4, 7, 6, 5, 8, 11, 10, 9, 12, 15, 14, 13, 16]);
    assert_eq!(bgra_to_rgba(&raw, 2, 3, 10), Err(CaptureError::IncompleteData));
    let narrow = bgra_to_rgba(&raw, 3, 2, 10).unwrap();
    assert_eq!(narrow, vec![0u8; 24]);
}

#[test]
fn display_changes_are_found() {
    let a = vec![MonitorId(1), MonitorId(2)];
    let b = vec![MonitorId(2), MonitorId(3)];
    let (changed, removed, added) = display_changes(&a, &b);
    assert!(changed);
    assert_eq!(removed, vec![MonitorId(1)]);
    assert_eq!(added, vec![MonitorId(3)]);
    let (changed, removed, added) = display_changes(&a, &vec![MonitorId(2), MonitorId(1)]);
    assert!(!changed);
    assert!(removed.is_empty() && added.is_empty());
    let twice_one = vec![MonitorId(1), MonitorId(1), MonitorId(2)];
    let twice_two = vec![MonitorId(1), MonitorId(2), MonitorId(2)];
    let (changed, removed, added) = display_changes(&twice_one, &twice_two);
    assert!(changed);
    assert!(removed.is_empty() && added.is_empty());
}

#[test]
fn overlay_parameters_follow_the_profile() {
    let id = MonitorId(9);
    let mut state = AppState::new(AppConfig::default());
    let p = state.overlay_params(&id, true);
    assert_eq!(p.mode_code, 0);
    assert_eq!(p.period_px, 5000 * 1100000 / 254000);
    assert!(!p.light_mode);
    state.add_display_with_pos_and_profile(id, "k".to_string(), DisplayCategory::NotebookHiDpi, 2272673);
    state.set_filter_mode(&id, FilterMode::StealthLight);
    let p = state.overlay_params(&id, false);
    assert_eq!(p.mode_code, 5);
    assert_eq!(p.period_px, 5000 * 2272673 / 254000);
    assert_eq!(p.luminance_compress, 2500);
    assert_eq!(p.cover_ratio, 8000);
    assert!(p.light_mode);
}

fn text(s: &str) -> JsonValue {
    JsonValue::Text(s.to_string())
}

fn object(entries: Vec<(&str, JsonValue)>) -> JsonValue {
    JsonValue::Object(entries.into_iter().map(|(k, v)| (k.to_string(), v)).collect())
}

#[test]
fn display_names_are_read_from_the_report() {
    let displays = JsonValue::Array(vec![
        object(vec![("_name", text("Color LCD")), ("_spdisplays_displayID", text("1"))]),
        object(vec![("_name", text("DELL U2720Q")), ("_spdisplays_displayID", text("0x2b"))]),
        object(vec![("_spdisplays_displayID", text("7"))]),
        object(vec![("_name", text("No id"))]),
        object(vec![("_name", text("Bad id")), ("_spdisplays_displayID", text("0xzz"))]),
        JsonValue::Null,
    ]);
    let cards = JsonValue::Array(vec![
        object(vec![("sppci_model", text("Apple M2")), ("spdisplays_ndrvs", displays)]),
        object(vec![("sppci_model", text("No displays"))]),
        object(vec![("spdisplays_ndrvs", JsonValue::Array(vec![object(vec![
            ("_name", text("Sidecar")),
            ("_spdisplays_displayID", JsonValue::Number("9".to_string())),
        ])]))]),
    ]);
    let report = object(vec![("SPDisplaysDataType", cards)]);
    let names = monitor_names(&report);
    assert_eq!(
        names,
        vec![(1, "Color LCD".to_string()), (0x2b, "DELL U2720Q".to_string()), (7, "Unknown".to_string())]
    );
    assert!(monitor_names(&JsonValue::Null).is_empty());
    assert!(monitor_names(&object(vec![("SPDisplaysDataType", JsonValue::Bool(true))])).is_empty());
}
