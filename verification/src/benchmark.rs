//! The optimisation benchmark: the settings it tries, how it measures a
//! screenshot, how it keeps the best result of each display, and the presets
//! it proposes. Taking the screenshots and showing the settings is the
//! caller's part.
use vstd::prelude::*;
use crate::app::{saved_presets, AppState, TestSettings};
use crate::display_config::{FilterMode, FilterSettings, MonitorId, Preset};
use crate::menu::mode_name;
use crate::numeral::digit_char;
use crate::text::{decimal, decimal_digit, hexadecimal, push_decimal, push_hexadecimal, push_str, string_from_chars};
use crate::tray::{round_even, round_half_even};

verus! {

/// The three presets proposed for a display, before the display's name is
/// added to their names: a balanced one for the office, the strongest for
/// transit and a dark one for the night.
pub open spec fn base_preset(i: int) -> (Seq<char>, FilterMode, u32, u32, u32) {
    if i == 0 {
        ("Office (Balanced)"@, FilterMode::StealthLight, 3000u32, 10000u32, 0u32)
    } else if i == 1 {
        ("Transit (Maximum)"@, FilterMode::HighIntensitySPD, 5000u32, 8000u32, 100000u32)
    } else {
        ("Night (Stealth Dark)"@, FilterMode::StealthDark, 3000u32, 10000u32, 0u32)
    }
}

/// The preset proposed as number `i` (0 to 2) for a display named `name`,
/// from the best period and cover ratio found: its name is the base name,
/// " - " and the display's name; the transit preset uses three quarters of
/// the period and a cover ratio of at least 0.85.
pub open spec fn recommended_preset(i: int, period: u32, cover: u32, name: Seq<char>) -> (Seq<char>, FilterSettings) {
    let (base, mode, alpha, intensity, speed) = base_preset(i);
    (
        base + " - "@ + name,
        FilterSettings {
            alpha,
            filter_mode: mode,
            filter_intensity: intensity,
            override_period_mm: Some(
                if i == 1 {
                    (period * 3 / 4) as u32
                } else {
                    period
                },
            ),
            override_cover_ratio: Some(
                if i == 1 && cover < 8500 {
                    8500u32
                } else {
                    cover
                },
            ),
            override_scroll_speed: Some(speed),
        },
    )
}

/// The preset proposed as number `i`.
fn make_recommended_preset(i: usize, period: u32, cover: u32, name: &str) -> (p: Preset)
    requires
        i < 3,
    ensures
        (p.name@, p.settings) == recommended_preset(i as int, period, cover, name@),
{
    let (base, mode, alpha, intensity, speed): (&str, FilterMode, u32, u32, u32) = if i == 0 {
        ("Office (Balanced)", FilterMode::StealthLight, 3000, 10000, 0)
    } else if i == 1 {
        ("Transit (Maximum)", FilterMode::HighIntensitySPD, 5000, 8000, 100000)
    } else {
        ("Night (Stealth Dark)", FilterMode::StealthDark, 3000, 10000, 0)
    };
    let mut text: Vec<char> = Vec::new();
    push_str(&mut text, base);
    push_str(&mut text, " - ");
    push_str(&mut text, name);
    let p = if i == 1 {
        (period / 4) * 3 + (period % 4) * 3 / 4
    } else {
        period
    };
    proof {
        if i == 1 {
            assert((period / 4) * 3 + (period % 4) * 3 / 4 == period * 3 / 4) by (nonlinear_arith);
        }
    }
    let c = if i == 1 && cover < 8500 {
        8500
    } else {
        cover
    };
    Preset {
        name: string_from_chars(&text),
        settings: FilterSettings {
            alpha,
            filter_mode: mode,
            filter_intensity: intensity,
            override_period_mm: Some(p),
            override_cover_ratio: Some(c),
            override_scroll_speed: Some(speed),
        },
    }
}

/// The presets proposed for the display `monitor_name` from the best
/// period and cover ratio the benchmark found.
pub fn generate_recommended_presets_for_monitor(opt_period: u32, opt_cover: u32, monitor_name: &str) -> (v: Vec<Preset>)
    ensures
        v@.len() == 3,
        forall|i: int|
            0 <= i < 3 ==> (#[trigger] v@[i].name@, v@[i].settings) == recommended_preset(
                i,
                opt_period,
                opt_cover,
                monitor_name@,
            ),
{
    let mut v: Vec<Preset> = Vec::new();
    let mut i: usize = 0;
    while i < 3
        invariant
            i <= 3,
            v@.len() == i,
            forall|j: int|
                0 <= j < i ==> (#[trigger] v@[j].name@, v@[j].settings) == recommended_preset(
                    j,
                    opt_period,
                    opt_cover,
                    monitor_name@,
                ),
        decreases 3 - i,
    {
        let p = make_recommended_preset(i, opt_period, opt_cover, monitor_name);
        v.push(p);
        i = i + 1;
    }
    v
}

/// Saves the presets proposed for the display `monitor_name` in `state`,
/// each under its name.
pub fn propose_recommended_presets_for_monitor(
    state: &mut AppState,
    opt_period: u32,
    opt_cover: u32,
    monitor_name: &str,
)
    ensures
        exists|v: Seq<Preset>|
            v.len() == 3 && (forall|i: int|
                0 <= i < 3 ==> (#[trigger] v[i].name@, v[i].settings) == recommended_preset(
                    i,
                    opt_period,
                    opt_cover,
                    monitor_name@,
                )) && final(state).presets@ == saved_presets(
                saved_presets(saved_presets(old(state).presets@, v[0]), v[1]),
                v[2],
            ),
        final(state).displays@ == old(state).displays@,
        final(state).global_enabled == old(state).global_enabled,
        final(state).stealth_snapshot == old(state).stealth_snapshot,
        final(state).stored_settings() == old(state).stored_settings(),
{
    let v = generate_recommended_presets_for_monitor(opt_period, opt_cover, monitor_name);
    let ghost gv = v@;
    let mut i: usize = 0;
    let ghost s0 = old(state).presets@;
    while i < 3
        invariant
            i <= 3,
            v@ == gv,
            gv.len() == 3,
            forall|j: int|
                0 <= j < 3 ==> (#[trigger] gv[j].name@, gv[j].settings) == recommended_preset(
                    j,
                    opt_period,
                    opt_cover,
                    monitor_name@,
                ),
            i == 0 ==> state.presets@ == s0,
            i == 1 ==> state.presets@ == saved_presets(s0, gv[0]),
            i == 2 ==> state.presets@ == saved_presets(saved_presets(s0, gv[0]), gv[1]),
            i == 3 ==> state.presets@ == saved_presets(
                saved_presets(saved_presets(s0, gv[0]), gv[1]),
                gv[2],
            ),
            state.displays@ == old(state).displays@,
            state.global_enabled == old(state).global_enabled,
            state.stealth_snapshot == old(state).stealth_snapshot,
            state.stored_settings() == old(state).stored_settings(),
        decreases 3 - i,
    {
        let p = v[i].clone();
        state.save_preset(p.name, p.settings);
        i = i + 1;
    }
}

/// One step of the benchmark.
#[derive(Debug, Clone, Copy, PartialEq, Eq, Structural)]
pub enum BenchmarkStep {
    /// Show `mode` at `alpha` on every display and measure it.
    Measure { mode: FilterMode, alpha: u32 },
    /// Show the strongest mode with this stripe period and cover ratio, to
    /// search for the best pair.
    Search { period: u32, cover: u32 },
}

/// Number of steps: every mode at three alphas, then four periods by three
/// cover ratios.
pub const BENCHMARK_STEPS: usize = 30;

/// The mode measured in row `i` of the test matrix.
pub open spec fn test_mode(i: int) -> FilterMode {
    if i == 0 {
        FilterMode::BlackLayer
    } else if i == 1 {
        FilterMode::VerticalLouver
    } else if i == 2 {
        FilterMode::AIOcrInterference
    } else if i == 3 {
        FilterMode::HighIntensitySPD
    } else if i == 4 {
        FilterMode::StealthDark
    } else {
        FilterMode::StealthLight
    }
}

/// The alpha measured in column `j` of the test matrix: 0.1, 0.3, 0.5.
pub open spec fn test_alpha(j: int) -> u32 {
    if j == 0 {
        1000
    } else if j == 1 {
        3000
    } else {
        5000
    }
}

/// The stripe period tried in row `i` of the search: 0.15, 0.20, 0.30 and
/// 0.40 mm.
pub open spec fn search_period(i: int) -> u32 {
    if i == 0 {
        1500
    } else if i == 1 {
        2000
    } else if i == 2 {
        3000
    } else {
        4000
    }
}

/// The cover ratio tried in column `j` of the search: 0.50, 0.70, 0.85.
pub open spec fn search_cover(j: int) -> u32 {
    if j == 0 {
        5000
    } else if j == 1 {
        7000
    } else {
        8500
    }
}

/// Step `k` of the benchmark: the test matrix row by row, then the search.
pub open spec fn step_at(k: int) -> BenchmarkStep {
    if k < 18 {
        BenchmarkStep::Measure { mode: test_mode(k / 3), alpha: test_alpha(k % 3) }
    } else {
        BenchmarkStep::Search { period: search_period((k - 18) / 3), cover: search_cover((k - 18) % 3) }
    }
}

/// Step `k` of the benchmark.
pub fn benchmark_step(k: usize) -> (s: BenchmarkStep)
    requires
        k < BENCHMARK_STEPS,
    ensures
        s == step_at(k as int),
{
    if k < 18 {
        let row = k / 3;
        let mode = if row == 0 {
            FilterMode::BlackLayer
        } else if row == 1 {
            FilterMode::VerticalLouver
        } else if row == 2 {
            FilterMode::AIOcrInterference
        } else if row == 3 {
            FilterMode::HighIntensitySPD
        } else if row == 4 {
            FilterMode::StealthDark
        } else {
            FilterMode::StealthLight
        };
        let col = k % 3;
        let alpha = if col == 0 {
            1000
        } else if col == 1 {
            3000
        } else {
            5000
        };
        BenchmarkStep::Measure { mode, alpha }
    } else {
        let row = (k - 18) / 3;
        let col = (k - 18) % 3;
        let period = if row == 0 {
            1500
        } else if row == 1 {
            2000
        } else if row == 2 {
            3000
        } else {
            4000
        };
        let cover = if col == 0 {
            5000
        } else if col == 1 {
            7000
        } else {
            8500
        };
        BenchmarkStep::Search { period, cover }
    }
}

/// The progress (in ten-thousandths) reported when step `k` starts: the
/// share of steps begun, rounded down.
pub fn step_progress(k: usize) -> (p: u32)
    requires
        k < BENCHMARK_STEPS,
    ensures
        p == (k + 1) * 10000 / 30,
        p <= 10000,
{
    (((k + 1) * 10000) / 30) as u32
}

/// Milliseconds to let the display settle before the screenshot: 2000 for
/// the stealth modes, which change the system theme, 800 for the other
/// modes, 500 during the search.
pub fn settle_ms(step: BenchmarkStep) -> (ms: u32)
    ensures
        ms == match step {
            BenchmarkStep::Measure { mode, .. } => if mode == FilterMode::StealthDark || mode
                == FilterMode::StealthLight {
                2000u32
            } else {
                800u32
            },
            BenchmarkStep::Search { .. } => 500u32,
        },
{
    match step {
        BenchmarkStep::Measure { mode, .. } => {
            if mode == FilterMode::StealthDark || mode == FilterMode::StealthLight {
                2000
            } else {
                800
            }
        },
        BenchmarkStep::Search { .. } => 500,
    }
}

/// The settings every display shows during a step: the measured mode and
/// alpha without overrides, or the strongest mode at alpha 0.3 with the
/// searched period and cover ratio.
pub open spec fn step_settings_of(step: BenchmarkStep) -> TestSettings {
    match step {
        BenchmarkStep::Measure { mode, alpha } => TestSettings {
            filter_mode: mode,
            alpha,
            override_period_mm: None,
            override_cover_ratio: None,
            override_scroll_speed: None,
        },
        BenchmarkStep::Search { period, cover } => TestSettings {
            filter_mode: FilterMode::HighIntensitySPD,
            alpha: 3000,
            override_period_mm: Some(period),
            override_cover_ratio: Some(cover),
            override_scroll_speed: None,
        },
    }
}

/// The settings every display shows during `step`.
pub fn step_settings(step: BenchmarkStep) -> (s: TestSettings)
    ensures
        s == step_settings_of(step),
{
    match step {
        BenchmarkStep::Measure { mode, alpha } => TestSettings {
            filter_mode: mode,
            alpha,
            override_period_mm: None,
            override_cover_ratio: None,
            override_scroll_speed: None,
        },
        BenchmarkStep::Search { period, cover } => TestSettings {
            filter_mode: FilterMode::HighIntensitySPD,
            alpha: 3000,
            override_period_mm: Some(period),
            override_cover_ratio: Some(cover),
            override_scroll_speed: None,
        },
    }
}

/// The best results of one display during the benchmark.
pub struct BenchmarkRecord {
    /// The best obfuscation score of the test matrix and the step that gave
    /// it.
    pub best_score: Option<(u32, BenchmarkStep)>,
    /// The best score of the search and the period and cover ratio that
    /// gave it.
    pub best_params: Option<(u32, u32, u32)>,
}

/// `score` beats the best so far: there is none yet, or it is higher.
pub open spec fn beats(best: Option<u32>, score: u32) -> bool {
    match best {
        None => true,
        Some(b) => score > b,
    }
}

/// The record after the score of `step` is kept when it beats the best of
/// its kind: a measurement for the test matrix, a period and cover ratio for
/// the search.
pub open spec fn recorded(r: BenchmarkRecord, step: BenchmarkStep, score: u32) -> BenchmarkRecord {
    match step {
        BenchmarkStep::Measure { .. } => BenchmarkRecord {
            best_score: if beats(
                match r.best_score {
                    Some((b, _)) => Some(b),
                    None => None,
                },
                score,
            ) {
                Some((score, step))
            } else {
                r.best_score
            },
            best_params: r.best_params,
        },
        BenchmarkStep::Search { period, cover } => BenchmarkRecord {
            best_score: r.best_score,
            best_params: if beats(
                match r.best_params {
                    Some((b, _, _)) => Some(b),
                    None => None,
                },
                score,
            ) {
                Some((score, period, cover))
            } else {
                r.best_params
            },
        },
    }
}

/// The record after the scored steps `events` are kept in turn.
pub open spec fn recorded_all(r: BenchmarkRecord, events: Seq<(BenchmarkStep, u32)>) -> BenchmarkRecord
    decreases events.len(),
{
    if events.len() == 0 {
        r
    } else {
        let e = events.last();
        recorded(recorded_all(r, events.drop_last()), e.0, e.1)
    }
}

impl BenchmarkRecord {
    /// A record with no result yet.
    pub fn new() -> (r: Self)
        ensures
            r.best_score is None,
            r.best_params is None,
    {
        BenchmarkRecord { best_score: None, best_params: None }
    }

    /// Keeps the score of a step when it beats the best of its kind: a
    /// measurement for the test matrix, a period and cover ratio for the
    /// search.
    pub fn record(&mut self, step: BenchmarkStep, score: u32)
        ensures
            final(self).best_score == recorded(*old(self), step, score).best_score,
            final(self).best_params == recorded(*old(self), step, score).best_params,
    {
        match step {
            BenchmarkStep::Measure { .. } => {
                let better = match self.best_score {
                    Some((b, _)) => score > b,
                    None => true,
                };
                if better {
                    self.best_score = Some((score, step));
                }
            },
            BenchmarkStep::Search { period, cover } => {
                let better = match self.best_params {
                    Some((b, _, _)) => score > b,
                    None => true,
                };
                if better {
                    self.best_params = Some((score, period, cover));
                }
            },
        }
    }
}

/// The darkest luma of `s` (255 when it is empty).
pub open spec fn luma_min(s: Seq<u8>) -> int
    decreases s.len(),
{
    if s.len() == 0 {
        255
    } else {
        let m = luma_min(s.drop_last());
        if (s.last() as int) < m {
            s.last() as int
        } else {
            m
        }
    }
}

/// The brightest luma of `s` (0 when it is empty).
pub open spec fn luma_max(s: Seq<u8>) -> int
    decreases s.len(),
{
    if s.len() == 0 {
        0
    } else {
        let m = luma_max(s.drop_last());
        if (s.last() as int) > m {
            s.last() as int
        } else {
            m
        }
    }
}

/// How much of the contrast is gone, in ten-thousandths: one minus the
/// spread of luma over its full range, rounded down.
pub open spec fn contrast_reduction(s: Seq<u8>) -> int {
    (255 - (luma_max(s) - luma_min(s))) * 10000 / 255
}

/// Four times the difference between the luma at (`x`, `y`) and the mean of
/// its four neighbours, taken positive.
pub open spec fn edge_term(s: Seq<u8>, w: int, x: int, y: int) -> int {
    let i = y * w + x;
    let d = 4 * (s[i] as int) - (s[i - 1] as int + s[i + 1] as int + s[i - w] as int + s[i + w] as int);
    if d < 0 {
        -d
    } else {
        d
    }
}

/// The edge terms of row `y` for the columns 1 to `x_end - 1`.
pub open spec fn row_edges(s: Seq<u8>, w: int, y: int, x_end: int) -> int
    decreases x_end,
{
    if x_end <= 1 {
        0
    } else {
        row_edges(s, w, y, x_end - 1) + edge_term(s, w, x_end - 1, y)
    }
}

/// The edge terms of the inner pixels of rows 1 to `y_end - 1`.
pub open spec fn image_edges(s: Seq<u8>, w: int, y_end: int) -> int
    decreases y_end,
{
    if y_end <= 1 {
        0
    } else {
        image_edges(s, w, y_end - 1) + row_edges(s, w, y_end - 1, w - 1)
    }
}

/// The obfuscation score in ten-thousandths: the mean, over all pixels, of
/// the difference between each inner pixel and the mean of its four
/// neighbours, rounded down; 0 for an image without inner pixels.
pub open spec fn obfuscation_score(s: Seq<u8>, w: int, h: int) -> int {
    if w > 2 && h > 2 {
        image_edges(s, w, h - 1) * 10000 / (4 * w * h)
    } else {
        0
    }
}

/// Measures a screenshot given as its luma values, row by row: how much
/// contrast is gone and how strongly edges are broken up, both in
/// ten-thousandths.
pub fn analyze_privacy_effect(luma: &Vec<u8>, width: u32, height: u32) -> (r: (u32, u32))
    requires
        luma@.len() == width * height,
    ensures
        r.0 == contrast_reduction(luma@),
        r.1 == obfuscation_score(luma@, width as int, height as int),
{
    let mut min_luma: u8 = 255;
    let mut max_luma: u8 = 0;
    let mut k: usize = 0;
    while k < luma.len()
        invariant
            k <= luma@.len(),
            min_luma == luma_min(luma@.take(k as int)),
            max_luma == luma_max(luma@.take(k as int)),
        decreases luma@.len() - k,
    {
        proof {
            assert(luma@.take(k + 1).drop_last() =~= luma@.take(k as int));
        }
        let v = luma[k];
        if v < min_luma {
            min_luma = v;
        }
        if v > max_luma {
            max_luma = v;
        }
        k = k + 1;
    }
    proof {
        assert(luma@.take(k as int) =~= luma@);
        lemma_luma_bounds(luma@);
    }
    let spread: i64 = max_luma as i64 - min_luma as i64;
    let crr: u32 = (((255 - spread) * 10000) / 255) as u32;
    if width <= 2 || height <= 2 {
        return (crr, 0);
    }
    let w = width as usize;
    let h = height as usize;
    let n = luma.len();
    assert(w * h <= usize::MAX);
    let mut total: u128 = 0;
    let mut y: usize = 1;
    while y < h - 1
        invariant
            w == width,
            h == height,
            w > 2,
            h > 2,
            luma@.len() == w * h,
            w * h <= usize::MAX,
            1 <= y <= h - 1,
            total == image_edges(luma@, w as int, y as int),
            total <= 1020 * w * h,
            total <= 1020 * w * (y - 1),
        decreases h - 1 - y,
    {
        let mut row: u128 = 0;
        let mut x: usize = 1;
        while x < w - 1
            invariant
                w == width,
                h == height,
                w > 2,
                h > 2,
                luma@.len() == w * h,
                w * h <= usize::MAX,
                1 <= y < h - 1,
                1 <= x <= w - 1,
                row == row_edges(luma@, w as int, y as int, x as int),
                row <= 1020 * (x - 1),
            decreases w - 1 - x,
        {
            proof {
                assert(y * w + x + w < w * h) by (nonlinear_arith)
                    requires
                        1 <= y < h - 1,
                        1 <= x < w - 1,
                ;
                assert(y * w + x >= w + 1) by (nonlinear_arith)
                    requires
                        1 <= y,
                        1 <= x,
                ;
            }
            let i = y * w + x;
            let c = luma[i] as i64;
            let sum = luma[i - 1] as i64 + luma[i + 1] as i64 + luma[i - w] as i64 + luma[i + w] as i64;
            let d = 4 * c - sum;
            let term: u128 = if d < 0 {
                (-d) as u128
            } else {
                d as u128
            };
            row = row + term;
            x = x + 1;
        }
        proof {
            assert(row <= 1020 * w) by (nonlinear_arith)
                requires
                    row <= 1020 * (w - 2),
            ;
            assert(1020 * w * (y - 1) + 1020 * w == 1020 * w * y) by (nonlinear_arith);
            assert(1020 * w * y <= 1020 * w * h) by (nonlinear_arith)
                requires
                    y < h,
            ;
            assert(1020 * w * h <= 1020 * 0xffff_ffff_ffff_ffffu128) by (nonlinear_arith)
                requires
                    w * h <= 0xffff_ffff_ffff_ffffu128,
            ;
        }
        total = total + row;
        y = y + 1;
    }
    proof {
        assert(4 * w * h > 0) by (nonlinear_arith)
            requires
                w > 2,
                h > 2,
        ;
        assert(total * 10000 / (4 * w * h) <= 2550000) by (nonlinear_arith)
            requires
                total <= 1020 * w * h,
                w > 2,
                h > 2,
        ;
        assert(total * 10000 <= 1020 * 0xffff_ffff_ffff_ffffu128 * 10000) by (nonlinear_arith)
            requires
                total <= 1020 * w * h,
                w * h <= 0xffff_ffff_ffff_ffffu128,
        ;
        assert(4 * w * h <= 4 * 0xffff_ffff_ffff_ffffu128) by (nonlinear_arith)
            requires
                w * h <= 0xffff_ffff_ffff_ffffu128,
        ;
    }
    let score = total * 10000 / (4 * (w as u128) * (h as u128));
    (crr, score as u32)
}

/// Luma extremes stay within the byte range.
proof fn lemma_luma_bounds(s: Seq<u8>)
    ensures
        0 <= luma_min(s) <= 255,
        0 <= luma_max(s) <= 255,
    decreases s.len(),
{
    if s.len() > 0 {
        lemma_luma_bounds(s.drop_last());
    }
}

/// The width of the oblique view of an image `w` pixels wide: 0.707 of it,
/// rounded down.
pub open spec fn oblique_width(w: int) -> int {
    w * 707 / 1000
}

/// The column of the image that column `x` of the oblique view shows.
pub open spec fn source_column(x: int) -> int {
    x * 1000 / 707
}

/// A channel value washed out as seen at an angle: 0.8 of it plus 40,
/// rounded down.
pub open spec fn washed(v: int) -> int {
    40 + v * 4 / 5
}

/// Where channel `c` of pixel (`x`, `y`) lies in RGBA data `width` pixels
/// wide.
pub open spec fn pixel_index(width: int, x: int, y: int, c: int) -> int {
    (y * width + x) * 4 + c
}

/// Channel `c` of pixel (`x`, `y`) of the oblique view of `rgba`: the
/// washed-out colour of its source pixel, fully opaque.
pub open spec fn oblique_value(rgba: Seq<u8>, w: int, x: int, y: int, c: int) -> int {
    if c == 3 {
        255
    } else {
        washed(rgba[pixel_index(w, source_column(x), y, c)] as int)
    }
}

/// The value at position `i` of the oblique view `nw` pixels wide.
pub open spec fn oblique_value_at(rgba: Seq<u8>, w: int, nw: int, i: int) -> int {
    oblique_value(rgba, w, (i / 4) % nw, (i / 4) / nw, i % 4)
}

/// Positions in RGBA data read back as pixel and channel.
pub(crate) proof fn lemma_pixel_position(width: int, x: int, y: int, c: int)
    requires
        width > 0,
        0 <= x < width,
        0 <= y,
        0 <= c < 4,
    ensures
        pixel_index(width, x, y, c) / 4 == y * width + x,
        pixel_index(width, x, y, c) % 4 == c,
        (y * width + x) / width == y,
        (y * width + x) % width == x,
{
    assert(((y * width + x) * 4 + c) / 4 == y * width + x && ((y * width + x) * 4 + c) % 4 == c)
        by (nonlinear_arith)
        requires
            0 <= c < 4,
            y * width + x >= 0,
    ;
    assert((y * width + x) / width == y && (y * width + x) % width == x) by (nonlinear_arith)
        requires
            width > 0,
            0 <= x < width,
            0 <= y,
    ;
}

/// What the `image` crate's `DynamicImage::to_luma8` gives for an RGBA
/// image (`width` by `height`, row by row).
pub uninterp spec fn luma_of(rgba: Seq<u8>, width: u32, height: u32) -> Seq<u8>;

/// The luma values of an RGBA image, one per pixel.
///
/// Trusted: converts the image with the `image` crate's
/// `DynamicImage::to_luma8`, which keeps the dimensions and gives one value
/// per pixel; the values are named `luma_of`.
#[verifier::external_body]
fn rgba_to_luma(rgba: &Vec<u8>, width: u32, height: u32) -> (luma: Vec<u8>)
    requires
        rgba@.len() == width * height * 4,
    ensures
        luma@ == luma_of(rgba@, width, height),
        luma@.len() == width * height,
{
    let img = image::RgbaImage::from_raw(width, height, rgba.clone()).unwrap_or_default();
    image::DynamicImage::ImageRgba8(img).to_luma8().into_raw()
}

/// Measures a screenshot given as RGBA pixels: the contrast reduction and
/// the obfuscation score of its luma, in ten-thousandths.
pub fn score_screenshot(rgba: &Vec<u8>, width: u32, height: u32) -> (r: (u32, u32))
    requires
        rgba@.len() == width * height * 4,
    ensures
        r.0 == contrast_reduction(luma_of(rgba@, width, height)),
        r.1 == obfuscation_score(luma_of(rgba@, width, height), width as int, height as int),
{
    let luma = rgba_to_luma(rgba, width, height);
    analyze_privacy_effect(&luma, width, height)
}

/// What the `image` crate's `DynamicImage::thumbnail` gives for an RGBA
/// image (`width` by `height`) scaled to fit `max_w` by `max_h`: its
/// pixels, width and height.
pub uninterp spec fn thumbnail_of(rgba: Seq<u8>, width: u32, height: u32, max_w: u32, max_h: u32) -> (
    Seq<u8>,
    u32,
    u32,
);

/// The image scaled down to fit `max_w` by `max_h`, keeping its aspect ratio.
///
/// Trusted: calls the `image` crate's `DynamicImage::thumbnail` on the RGBA
/// image, whose result is again an RGBA image; its pixels and size are named
/// `thumbnail_of`, and its pixel buffer holds four bytes for each pixel.
#[verifier::external_body]
fn thumbnail(rgba: &Vec<u8>, width: u32, height: u32, max_w: u32, max_h: u32) -> (r: (Vec<u8>, u32, u32))
    requires
        rgba@.len() == width * height * 4,
    ensures
        (r.0@, r.1, r.2) == thumbnail_of(rgba@, width, height, max_w, max_h),
        r.0@.len() == r.1 * r.2 * 4,
{
    let img = image::RgbaImage::from_raw(width, height, rgba.clone()).unwrap_or_default();
    let small = image::DynamicImage::ImageRgba8(img).thumbnail(max_w, max_h).into_rgba8();
    let (w, h) = small.dimensions();
    (small.into_raw(), w, h)
}

/// A screenshot at half its width and height, as the benchmark measures it:
/// the pixels, width and height of the thumbnail that fits.
pub fn half_size(rgba: &Vec<u8>, width: u32, height: u32) -> (r: (Vec<u8>, u32, u32))
    requires
        rgba@.len() == width * height * 4,
    ensures
        (r.0@, r.1, r.2) == thumbnail_of(rgba@, width, height, width / 2, height / 2),
        r.0@.len() == r.1 * r.2 * 4,
{
    thumbnail(rgba, width, height, width / 2, height / 2)
}

/// Simulates how an RGBA image (`width` by `height`) looks from an angle:
/// squeezed to 0.707 of its width and washed out. Returns the new image
/// and its width.
pub fn simulate_oblique_view(rgba: &Vec<u8>, width: u32, height: u32) -> (r: (Vec<u8>, u32))
    requires
        rgba@.len() == width * height * 4,
    ensures
        r.1 == oblique_width(width as int),
        r.0@.len() == r.1 * height * 4,
        forall|x: int, y: int, c: int|
            0 <= x < r.1 && 0 <= y < height && 0 <= c < 4 ==> #[trigger] r.0@[pixel_index(
                r.1 as int,
                x,
                y,
                c,
            )] == oblique_value(rgba@, width as int, x, y, c),
{
    let nw: u32 = ((width as u64) * 707 / 1000) as u32;
    let mut out: Vec<u8> = Vec::new();
    let n = rgba.len();
    proof {
        assert(nw <= width);
        assert(nw as int * height * 4 <= width * height * 4) by (nonlinear_arith)
            requires
                nw <= width,
        ;
    }
    if nw == 0 {
        assert(out@.len() == nw * height * 4) by (nonlinear_arith)
            requires
                nw == 0,
                out@.len() == 0,
        ;
        return (out, nw);
    }
    let mut y: u32 = 0;
    while y < height
        invariant
            0 < nw <= width,
            nw == oblique_width(width as int),
            rgba@.len() == width * height * 4,
            rgba@.len() == n,
            y <= height,
            out@.len() == y * nw * 4,
            forall|i: int| 0 <= i < out@.len() ==> #[trigger] out@[i] == oblique_value_at(rgba@, width as int, nw as int, i),
        decreases height - y,
    {
        let mut x: u32 = 0;
        while x < nw
            invariant
                0 < nw <= width,
                nw == oblique_width(width as int),
                rgba@.len() == width * height * 4,
                rgba@.len() == n,
                y < height,
                x <= nw,
                out@.len() == (y * nw + x) * 4,
                forall|i: int| 0 <= i < out@.len() ==> #[trigger] out@[i] == oblique_value_at(rgba@, width as int, nw as int, i),
            decreases nw - x,
        {
            let sx: u32 = ((x as u64) * 1000 / 707) as u32;
            proof {
                assert(sx < width) by (nonlinear_arith)
                    requires
                        x < nw,
                        nw == width * 707 / 1000,
                        sx == x * 1000 / 707,
                ;
                assert((y * width + sx) * 4 + 3 < width * height * 4) by (nonlinear_arith)
                    requires
                        sx < width,
                        y < height,
                ;
            }
            let base: usize = ((y as usize) * (width as usize) + (sx as usize)) * 4;
            let mut c: usize = 0;
            while c < 4
                invariant
                    0 < nw <= width,
                    nw == oblique_width(width as int),
                    rgba@.len() == width * height * 4,
                    y < height,
                    x < nw,
                    sx == source_column(x as int),
                    sx < width,
                    base == (y * width + sx) * 4,
                    base + 3 < rgba@.len(),
                    c <= 4,
                    out@.len() == (y * nw + x) * 4 + c,
                    forall|i: int| 0 <= i < out@.len() ==> #[trigger] out@[i] == oblique_value_at(rgba@, width as int, nw as int, i),
                decreases 4 - c,
            {
                let v: u8 = if c == 3 {
                    255
                } else {
                    (40 + (rgba[base + c] as u32) * 4 / 5) as u8
                };
                proof {
                    lemma_pixel_position(nw as int, x as int, y as int, c as int);
                    assert(out@.len() == pixel_index(nw as int, x as int, y as int, c as int));
                }
                out.push(v);
                c = c + 1;
            }
            x = x + 1;
        }
        y = y + 1;
        assert(out@.len() == y * nw * 4) by (nonlinear_arith)
            requires
                out@.len() == ((y - 1) * nw + nw) * 4,
        ;
    }
    proof {
        assert(out@.len() == nw * height * 4) by (nonlinear_arith)
            requires
                out@.len() == height * nw * 4,
        ;
        assert forall|x: int, yy: int, c: int|
            0 <= x < nw && 0 <= yy < height && 0 <= c < 4 implies #[trigger] out@[pixel_index(
                nw as int,
                x,
                yy,
                c,
            )] == oblique_value(rgba@, width as int, x, yy, c) by {
            lemma_pixel_position(nw as int, x, yy, c);
            assert(0 <= pixel_index(nw as int, x, yy, c) < nw * height * 4) by (nonlinear_arith)
                requires
                    0 <= x < nw,
                    0 <= yy < height,
                    0 <= c < 4,
            ;
            assert(out@[pixel_index(nw as int, x, yy, c)] == oblique_value_at(
                rgba@,
                width as int,
                nw as int,
                pixel_index(nw as int, x, yy, c),
            ));
        }
    }
    (out, nw)
}

/// A value in ten-thousandths with one decimal place, rounded halves to
/// even ("0.1").
pub open spec fn one_place(v: u32) -> Seq<char> {
    let r = round_half_even(v as int, 1000);
    decimal((r / 10) as nat) + "."@ + seq![decimal_digit((r % 10) as nat)]
}

/// A value in ten-thousandths with two decimal places, rounded halves to
/// even ("0.20").
pub open spec fn two_places(v: u32) -> Seq<char> {
    let r = round_half_even(v as int, 100);
    decimal((r / 100) as nat) + "."@ + seq![decimal_digit((r / 10 % 10) as nat), decimal_digit((r % 10) as nat)]
}

/// A share in ten-thousandths as a whole percentage, rounded halves to
/// even.
pub open spec fn percent(v: u32) -> Seq<char> {
    decimal(round_half_even(v as int, 100) as nat)
}

/// Appends `one_place(v)`.
fn push_one_place(out: &mut Vec<char>, v: u32)
    ensures
        final(out)@ == old(out)@ + one_place(v),
{
    let r = round_even(v, 1000);
    push_decimal(out, r / 10);
    push_str(out, ".");
    out.push(digit_char((r % 10) as u32));
    assert(out@ =~= old(out)@ + one_place(v));
}

/// Appends `two_places(v)`.
fn push_two_places(out: &mut Vec<char>, v: u32)
    ensures
        final(out)@ == old(out)@ + two_places(v),
{
    let r = round_even(v, 100);
    push_decimal(out, r / 100);
    push_str(out, ".");
    out.push(digit_char((r / 10 % 10) as u32));
    out.push(digit_char((r % 10) as u32));
    assert(out@ =~= old(out)@ + two_places(v));
}

/// Appends `percent(v)`.
fn push_percent(out: &mut Vec<char>, v: u32)
    ensures
        final(out)@ == old(out)@ + percent(v),
{
    push_decimal(out, round_even(v, 100));
}

/// The label of a measured step: the mode and the alpha with one decimal
/// place.
pub open spec fn measure_label(mode: FilterMode, alpha: u32) -> Seq<char> {
    mode_name(mode) + " (Alpha "@ + one_place(alpha) + ")"@
}

/// The progress message shown during a step.
pub open spec fn step_message_text(step: BenchmarkStep) -> Seq<char> {
    match step {
        BenchmarkStep::Measure { mode, alpha } => "全モニターを測定中... ("@ + mode_name(mode) + " / Alpha "@
            + one_place(alpha) + ")"@,
        BenchmarkStep::Search { period, cover } => "全モニターの最適化パラメータを探索中... (P="@
            + two_places(period) + " C="@ + percent(cover) + "%)"@,
    }
}

/// Appends the name of `m`.
fn push_mode_name(out: &mut Vec<char>, m: FilterMode)
    ensures
        final(out)@ == old(out)@ + mode_name(m),
{
    let name = match m {
        FilterMode::BlackLayer => "BlackLayer",
        FilterMode::VerticalLouver => "VerticalLouver",
        FilterMode::AIOcrInterference => "AIOcrInterference",
        FilterMode::HighIntensitySPD => "HighIntensitySPD",
        FilterMode::StealthDark => "StealthDark",
        FilterMode::StealthLight => "StealthLight",
    };
    push_str(out, name);
}

/// The progress message shown during `step`.
pub fn step_message(step: BenchmarkStep) -> (m: String)
    ensures
        m@ == step_message_text(step),
{
    let mut out: Vec<char> = Vec::new();
    match step {
        BenchmarkStep::Measure { mode, alpha } => {
            push_str(&mut out, "全モニターを測定中... (");
            push_mode_name(&mut out, mode);
            push_str(&mut out, " / Alpha ");
            push_one_place(&mut out, alpha);
            push_str(&mut out, ")");
        },
        BenchmarkStep::Search { period, cover } => {
            push_str(&mut out, "全モニターの最適化パラメータを探索中... (P=");
            push_two_places(&mut out, period);
            push_str(&mut out, " C=");
            push_percent(&mut out, cover);
            push_str(&mut out, "%)");
        },
    }
    assert(out@ =~= step_message_text(step));
    string_from_chars(&out)
}

/// The summary of a display's results, when the search found its best
/// period and cover ratio: its best score with two decimal places (-1.00
/// when nothing was measured) and the step that gave it, then the period in
/// millimetres and the cover ratio in percent.
pub open spec fn summary_text(name: Seq<char>, r: BenchmarkRecord) -> Option<Seq<char>> {
    match r.best_params {
        Some((_, period, cover)) => {
            let (score, label) = match r.best_score {
                Some((s, BenchmarkStep::Measure { mode, alpha })) => (two_places(s), measure_label(mode, alpha)),
                Some((s, BenchmarkStep::Search { .. })) => (two_places(s), "Unknown"@),
                None => ("-1.00"@, "Unknown"@),
            };
            Some(
                "▼ "@ + name + "\n  ・最高秘匿スコア: "@ + score + " ("@ + label + ")\n"@
                    + "  ・最適パラメータ: 周期 "@ + two_places(period) + "mm / 遮蔽率 "@ + percent(cover)
                    + "%\n\n"@,
            )
        },
        None => None,
    }
}

/// The summary of the results of display `name`, if the search found a
/// best period and cover ratio for it.
pub fn monitor_summary(name: &str, r: &BenchmarkRecord) -> (s: Option<String>)
    ensures
        match s {
            Some(t) => summary_text(name@, *r) == Some(t@),
            None => summary_text(name@, *r) is None,
        },
{
    match r.best_params {
        Some((_, period, cover)) => {
            let mut out: Vec<char> = Vec::new();
            push_str(&mut out, "▼ ");
            push_str(&mut out, name);
            push_str(&mut out, "\n  ・最高秘匿スコア: ");
            match r.best_score {
                Some((score, step)) => {
                    push_two_places(&mut out, score);
                    push_str(&mut out, " (");
                    match step {
                        BenchmarkStep::Measure { mode, alpha } => {
                            push_mode_name(&mut out, mode);
                            push_str(&mut out, " (Alpha ");
                            push_one_place(&mut out, alpha);
                            push_str(&mut out, ")");
                        },
                        BenchmarkStep::Search { .. } => push_str(&mut out, "Unknown"),
                    }
                },
                None => {
                    push_str(&mut out, "-1.00");
                    push_str(&mut out, " (");
                    push_str(&mut out, "Unknown");
                },
            }
            push_str(&mut out, ")\n");
            push_str(&mut out, "  ・最適パラメータ: 周期 ");
            push_two_places(&mut out, period);
            push_str(&mut out, "mm / 遮蔽率 ");
            push_percent(&mut out, cover);
            push_str(&mut out, "%\n\n");
            assert(Some(out@) == summary_text(name@, *r));
            Some(string_from_chars(&out))
        },
        None => None,
    }
}

/// The names and settings of `v`.
pub open spec fn preset_views(v: Seq<Preset>) -> Seq<(Seq<char>, FilterSettings)> {
    Seq::new(v.len(), |i: int| (v[i].name@, v[i].settings))
}

/// The presets the benchmark proposes for the first `n` displays: for each
/// display whose search found a best period and cover ratio, the three
/// recommended presets made from them, display by display.
pub open spec fn proposed_presets(info: Seq<(MonitorId, String)>, records: Seq<BenchmarkRecord>, n: int) -> Seq<
    (Seq<char>, FilterSettings),
>
    decreases n,
{
    if n <= 0 {
        Seq::empty()
    } else {
        proposed_presets(info, records, n - 1) + match records[n - 1].best_params {
            Some((_, period, cover)) => Seq::new(
                3,
                |i: int| recommended_preset(i, period, cover, info[n - 1].1@),
            ),
            None => Seq::empty(),
        }
    }
}

/// The summary of the results of the first `n` displays, display by
/// display.
pub open spec fn results_summary(info: Seq<(MonitorId, String)>, records: Seq<BenchmarkRecord>, n: int) -> Seq<char>
    decreases n,
{
    if n <= 0 {
        Seq::empty()
    } else {
        results_summary(info, records, n - 1) + match summary_text(info[n - 1].1@, records[n - 1]) {
            Some(t) => t,
            None => Seq::empty(),
        }
    }
}

/// What the benchmark hands over when it ends: the presets proposed for the
/// displays `info` from their records (`records[i]` for `info[i]`), and the
/// summary of their results.
pub fn benchmark_results(info: &Vec<(MonitorId, String)>, records: &Vec<BenchmarkRecord>) -> (r: (
    Vec<Preset>,
    String,
))
    requires
        info@.len() == records@.len(),
    ensures
        preset_views(r.0@) == proposed_presets(info@, records@, info@.len() as int),
        r.1@ == results_summary(info@, records@, info@.len() as int),
{
    let mut presets: Vec<Preset> = Vec::new();
    let mut summary: Vec<char> = Vec::new();
    let mut i: usize = 0;
    assert(preset_views(presets@) =~= Seq::<(Seq<char>, FilterSettings)>::empty());
    while i < info.len()
        invariant
            info@.len() == records@.len(),
            i <= info@.len(),
            preset_views(presets@) == proposed_presets(info@, records@, i as int),
            summary@ == results_summary(info@, records@, i as int),
        decreases info@.len() - i,
    {
        let name = info[i].1.as_str();
        let ghost before = presets@;
        match records[i].best_params {
            Some((_, period, cover)) => {
                let mut v = generate_recommended_presets_for_monitor(period, cover, name);
                let ghost added = v@;
                presets.append(&mut v);
                assert(preset_views(presets@) =~= preset_views(before) + Seq::new(
                    3,
                    |k: int| recommended_preset(k, period, cover, info@[i as int].1@),
                )) by {
                    assert forall|k: int| 0 <= k < 3 implies #[trigger] preset_views(presets@)[before.len() + k]
                        == recommended_preset(k, period, cover, info@[i as int].1@) by {
                        assert(presets@[before.len() + k] == added[k]);
                    }
                }
            },
            None => {
                assert(presets@ =~= before);
            },
        }
        let ghost text_before = summary@;
        match monitor_summary(name, &records[i]) {
            Some(t) => {
                push_str(&mut summary, t.as_str());
            },
            None => {},
        }
        assert(summary@ =~= results_summary(info@, records@, i + 1)) by {
            assert(text_before == results_summary(info@, records@, i as int));
        }
        i = i + 1;
    }
    (presets, string_from_chars(&summary))
}

/// The tooltip of the tray icon while a benchmark runs.
pub open spec fn progress_tooltip(p: u32) -> Seq<char> {
    "Softveil (ベンチマーク中: "@ + percent(p) + "%)"@
}

/// The tooltip of the tray icon while a benchmark runs.
pub fn benchmark_tooltip(progress: u32) -> (t: String)
    ensures
        t@ == progress_tooltip(progress),
{
    let mut out: Vec<char> = Vec::new();
    push_str(&mut out, "Softveil (ベンチマーク中: ");
    push_percent(&mut out, progress);
    push_str(&mut out, "%)");
    string_from_chars(&out)
}

/// The notification text of the progress.
pub open spec fn progress_notice_text(p: u32) -> Seq<char> {
    "進捗: "@ + percent(p) + "%"@
}

/// The notification text of the progress.
pub fn progress_notice(progress: u32) -> (t: String)
    ensures
        t@ == progress_notice_text(progress),
{
    let mut out: Vec<char> = Vec::new();
    push_str(&mut out, "進捗: ");
    push_percent(&mut out, progress);
    push_str(&mut out, "%");
    string_from_chars(&out)
}

/// A value in ten-thousandths as a percentage with two decimal places
/// ("88.23" for 8823).
pub open spec fn percent_two_places(v: u32) -> Seq<char> {
    decimal((v / 100) as nat) + "."@ + seq![decimal_digit((v / 10 % 10) as nat), decimal_digit((v % 10) as nat)]
}

/// Where the simulated oblique view of a measurement is saved.
pub open spec fn simulated_path_text(dir: Seq<char>, id: MonitorId, mode: FilterMode, alpha: u32) -> Seq<char> {
    dir + "/simulated_"@ + hexadecimal(id.0 as nat) + "_"@ + mode_name(mode) + "_"@ + one_place(alpha)
        + ".jpg"@
}

/// Where the simulated oblique view of a measurement is saved.
pub fn simulated_path(dir: &str, id: MonitorId, mode: FilterMode, alpha: u32) -> (p: String)
    ensures
        p@ == simulated_path_text(dir@, id, mode, alpha),
{
    let mut out: Vec<char> = Vec::new();
    push_str(&mut out, dir);
    push_str(&mut out, "/simulated_");
    push_hexadecimal(&mut out, id.0);
    push_str(&mut out, "_");
    push_mode_name(&mut out, mode);
    push_str(&mut out, "_");
    push_one_place(&mut out, alpha);
    push_str(&mut out, ".jpg");
    assert(out@ =~= simulated_path_text(dir@, id, mode, alpha));
    string_from_chars(&out)
}

/// The heading of a display's table in the benchmark report.
pub open spec fn report_heading_text(name: Seq<char>) -> Seq<char> {
    "## Monitor: "@ + name + "\n\n| Mode | Alpha | Contrast Reduction | Obfuscation Score | Image |\n| :--- | :--- | :--- | :--- | :--- |\n"@
}

/// The heading of a display's table in the benchmark report.
pub fn report_heading(name: &str) -> (h: String)
    ensures
        h@ == report_heading_text(name@),
{
    let mut out: Vec<char> = Vec::new();
    push_str(&mut out, "## Monitor: ");
    push_str(&mut out, name);
    push_str(
        &mut out,
        "\n\n| Mode | Alpha | Contrast Reduction | Obfuscation Score | Image |\n| :--- | :--- | :--- | :--- | :--- |\n",
    );
    string_from_chars(&out)
}

/// A row of the benchmark report: mode, alpha, contrast reduction in
/// percent, obfuscation score and a link to the simulated view.
pub open spec fn report_row_text(mode: FilterMode, alpha: u32, crr: u32, score: u32, path: Seq<char>) -> Seq<char> {
    "| "@ + mode_name(mode) + " | "@ + one_place(alpha) + " | "@ + percent_two_places(crr) + "% | "@
        + two_places(score) + " | [Link]("@ + path + ") |\n"@
}

/// A row of the benchmark report.
pub fn report_row(mode: FilterMode, alpha: u32, crr: u32, score: u32, path: &str) -> (r: String)
    ensures
        r@ == report_row_text(mode, alpha, crr, score, path@),
{
    let mut out: Vec<char> = Vec::new();
    push_str(&mut out, "| ");
    push_mode_name(&mut out, mode);
    push_str(&mut out, " | ");
    push_one_place(&mut out, alpha);
    push_str(&mut out, " | ");
    push_decimal(&mut out, (crr / 100) as u64);
    push_str(&mut out, ".");
    out.push(digit_char(crr / 10 % 10));
    out.push(digit_char(crr % 10));
    push_str(&mut out, "% | ");
    push_two_places(&mut out, score);
    push_str(&mut out, " | [Link](");
    push_str(&mut out, path);
    push_str(&mut out, ") |\n");
    assert(out@ =~= report_row_text(mode, alpha, crr, score, path@));
    string_from_chars(&out)
}

} // verus!
