//! The tray menu as a list of entries: what it shows for the current state,
//! in which order, with which ids, labels and check marks. Submenus are
//! written as an opening entry, their entries and a closing entry; the
//! caller builds the platform menu from the list.
use vstd::prelude::*;
use crate::app::AppState;
use crate::display_config::{
    panel_label, DisplayCategory, DisplayConfig, FilterMode, FilterSettings, MonitorId, PanelType,
    Preset,
};
use crate::i18n::{in_language, translate, Language};
use crate::menu::{
    menu_text, AiMode, MenuAction, MenuCommand, MENU_ID_AI_MODE_ENHANCED, MENU_ID_AI_MODE_OFF,
    MENU_ID_AI_MODE_VIGILANCE, MENU_ID_AUTO_START, MENU_ID_GLOBAL_TOGGLE, MENU_ID_QUIT,
    MENU_ID_RUN_BENCHMARK_ALL,
};
use crate::text::{chars_of, decimal, push_decimal, push_str, string_from_chars};

verus! {

/// The kind of a menu entry.
#[derive(Debug, Clone, Copy, PartialEq, Eq, Structural)]
pub enum EntryKind {
    /// A plain item.
    Item,
    /// An item with a check mark.
    Check,
    /// A separator line.
    Separator,
    /// The start of a submenu with the entry's label; the entries up to the
    /// matching `Close` belong to it.
    Open,
    /// The end of the innermost open submenu.
    Close,
}

/// One entry of the menu.
#[derive(Debug)]
pub struct MenuEntry {
    pub kind: EntryKind,
    pub id: String,
    pub label: String,
    pub enabled: bool,
    pub checked: bool,
}

/// A menu entry with its texts as character sequences.
pub struct MenuLine {
    pub kind: EntryKind,
    pub id: Seq<char>,
    pub label: Seq<char>,
    pub enabled: bool,
    pub checked: bool,
}

impl View for MenuEntry {
    type V = MenuLine;

    open spec fn view(&self) -> MenuLine {
        MenuLine {
            kind: self.kind,
            id: self.id@,
            label: self.label@,
            enabled: self.enabled,
            checked: self.checked,
        }
    }
}

/// The lines of a list of entries.
pub open spec fn lines(v: Seq<MenuEntry>) -> Seq<MenuLine> {
    v.map_values(|e: MenuEntry| e@)
}

/// How an entry changes the submenu depth: an opening entry goes one level
/// down, a closing one comes back up.
pub open spec fn depth_change(e: MenuLine) -> int {
    match e.kind {
        EntryKind::Open => 1,
        EntryKind::Close => -1,
        _ => 0,
    }
}

/// The submenu depth after the entries `v`, counted from where they start.
pub open spec fn depth_after(v: Seq<MenuLine>) -> int
    decreases v.len(),
{
    if v.len() == 0 {
        0
    } else {
        depth_after(v.drop_last()) + depth_change(v.last())
    }
}

/// The least depth reached after any first part of `v` (0 for none).
pub open spec fn lowest_depth(v: Seq<MenuLine>) -> int
    decreases v.len(),
{
    if v.len() == 0 {
        0
    } else {
        let d = depth_after(v);
        let l = lowest_depth(v.drop_last());
        if d < l {
            d
        } else {
            l
        }
    }
}

/// The number of entries of `v` that stand at depth 0 when `v` starts at
/// depth `d`; a closing entry is not an entry of its own.
pub open spec fn entries_at(v: Seq<MenuLine>, d: int) -> int
    decreases v.len(),
{
    if v.len() == 0 {
        0
    } else {
        entries_at(v.drop_last(), d) + if d + depth_after(v.drop_last()) == 0 && v.last().kind
            != EntryKind::Close {
            1int
        } else {
            0int
        }
    }
}

/// The number of entries shown in the top level of a menu: items, checks,
/// separators and submenus, each submenu counted once.
pub open spec fn top_level_count(v: Seq<MenuLine>) -> int {
    entries_at(v, 0)
}

/// A plain item.
pub open spec fn item(id: Seq<char>, label: Seq<char>, enabled: bool) -> MenuLine {
    MenuLine { kind: EntryKind::Item, id, label, enabled, checked: false }
}

/// An item with a check mark, set when `checked`.
pub open spec fn check(id: Seq<char>, label: Seq<char>, enabled: bool, checked: bool) -> MenuLine {
    MenuLine { kind: EntryKind::Check, id, label, enabled, checked }
}

/// A separator.
pub open spec fn separator() -> MenuLine {
    MenuLine { kind: EntryKind::Separator, id: Seq::empty(), label: Seq::empty(), enabled: true, checked: false }
}

/// The start of an enabled submenu labelled `label`.
pub open spec fn open(label: Seq<char>) -> MenuLine {
    MenuLine { kind: EntryKind::Open, id: Seq::empty(), label, enabled: true, checked: false }
}

/// The end of a submenu.
pub open spec fn close() -> MenuLine {
    MenuLine { kind: EntryKind::Close, id: Seq::empty(), label: Seq::empty(), enabled: true, checked: false }
}

/// The text in `lang`, as characters.
pub open spec fn tr(lang: Language, ja: &str, en: &str) -> Seq<char> {
    in_language(lang, ja, en)@
}

/// `lines` enclosed in a submenu labelled `label`.
pub open spec fn submenu(label: Seq<char>, inner: Seq<MenuLine>) -> Seq<MenuLine> {
    seq![open(label)] + inner + seq![close()]
}

/// A `String` with the characters of `s`.
fn owned(s: &str) -> (r: String)
    ensures
        r@ == s@,
{
    string_from_chars(&chars_of(s))
}

/// Appends an entry.
fn push_entry(out: &mut Vec<MenuEntry>, kind: EntryKind, id: String, label: String, enabled: bool, checked: bool)
    ensures
        lines(final(out)@) == lines(old(out)@).push(
            MenuLine { kind, id: id@, label: label@, enabled, checked },
        ),
{
    let ghost before = out@;
    out.push(MenuEntry { kind, id, label, enabled, checked });
    assert(lines(out@) =~= lines(before).push(
        MenuLine { kind, id: id@, label: label@, enabled, checked },
    ));
}

/// Appends a separator.
fn push_separator(out: &mut Vec<MenuEntry>)
    ensures
        lines(final(out)@) == lines(old(out)@).push(separator()),
{
    push_entry(out, EntryKind::Separator, String::new(), String::new(), true, false);
}

/// Appends the start of a submenu.
fn push_open(out: &mut Vec<MenuEntry>, label: String)
    ensures
        lines(final(out)@) == lines(old(out)@).push(open(label@)),
{
    push_entry(out, EntryKind::Open, String::new(), label, true, false);
}

/// Appends the end of a submenu.
fn push_close(out: &mut Vec<MenuEntry>)
    ensures
        lines(final(out)@) == lines(old(out)@).push(close()),
{
    push_entry(out, EntryKind::Close, String::new(), String::new(), true, false);
}

/// The filter modes offered, in menu order, with their Japanese and English
/// labels.
pub open spec fn mode_choice(i: int) -> (FilterMode, &'static str, &'static str) {
    if i == 0 {
        (FilterMode::HighIntensitySPD, "SPD プロテクト ✦ (推奨)", "SPD Protect ✦ (Rec.)")
    } else if i == 1 {
        (FilterMode::StealthDark, "ステルス・ダーク (LLCC)", "Stealth Dark (LLCC)")
    } else if i == 2 {
        (FilterMode::StealthLight, "ステルス・ライト (Subpixel)", "Stealth Light (Subpixel)")
    } else if i == 3 {
        (FilterMode::VerticalLouver, "標準ルーバー", "Standard Louver")
    } else if i == 4 {
        (FilterMode::AIOcrInterference, "OCR妨害 (カメラ撮影対策)", "OCR Jammer (Anti-Camera)")
    } else {
        (FilterMode::BlackLayer, "単色（輝度を抑える）", "Solid Color (Dim)")
    }
}

/// Mode choice `i`.
fn mode_choice_at(i: usize) -> (r: (FilterMode, &'static str, &'static str))
    ensures
        r == mode_choice(i as int),
{
    if i == 0 {
        (FilterMode::HighIntensitySPD, "SPD プロテクト ✦ (推奨)", "SPD Protect ✦ (Rec.)")
    } else if i == 1 {
        (FilterMode::StealthDark, "ステルス・ダーク (LLCC)", "Stealth Dark (LLCC)")
    } else if i == 2 {
        (FilterMode::StealthLight, "ステルス・ライト (Subpixel)", "Stealth Light (Subpixel)")
    } else if i == 3 {
        (FilterMode::VerticalLouver, "標準ルーバー", "Standard Louver")
    } else if i == 4 {
        (FilterMode::AIOcrInterference, "OCR妨害 (カメラ撮影対策)", "OCR Jammer (Anti-Camera)")
    } else {
        (FilterMode::BlackLayer, "単色（輝度を抑える）", "Solid Color (Dim)")
    }
}

/// The intensities offered (in ten-thousandths), with their labels.
pub open spec fn intensity_choice(i: int) -> (u32, &'static str, &'static str) {
    if i == 0 {
        (5000u32, "最高 (密度高)", "Highest (High Density)")
    } else if i == 1 {
        (7500u32, "高", "High")
    } else if i == 2 {
        (10000u32, "標準", "Standard")
    } else if i == 3 {
        (15000u32, "低", "Low")
    } else {
        (20000u32, "最低 (密度低)", "Lowest (Low Density)")
    }
}

/// Intensity choice `i`.
fn intensity_choice_at(i: usize) -> (r: (u32, &'static str, &'static str))
    ensures
        r == intensity_choice(i as int),
{
    if i == 0 {
        (5000, "最高 (密度高)", "Highest (High Density)")
    } else if i == 1 {
        (7500, "高", "High")
    } else if i == 2 {
        (10000, "標準", "Standard")
    } else if i == 3 {
        (15000, "低", "Low")
    } else {
        (20000, "最低 (密度低)", "Lowest (Low Density)")
    }
}

/// The stripe periods offered (ten-thousandths of a millimetre), with
/// their labels.
pub open spec fn period_choice(i: int) -> (Option<u32>, &'static str, &'static str) {
    if i == 0 {
        (None, "自動 (推奨)", "Auto (Recommended)")
    } else if i == 1 {
        (Some(8000u32), "細い (0.8mm)", "Thin (0.8mm)")
    } else if i == 2 {
        (Some(12000u32), "標準 (1.2mm)", "Standard (1.2mm)")
    } else if i == 3 {
        (Some(18000u32), "太い (1.8mm)", "Thick (1.8mm)")
    } else {
        (Some(25000u32), "極太 (2.5mm)", "Very Thick (2.5mm)")
    }
}

/// Period choice `i`.
fn period_choice_at(i: usize) -> (r: (Option<u32>, &'static str, &'static str))
    ensures
        r == period_choice(i as int),
{
    if i == 0 {
        (None, "自動 (推奨)", "Auto (Recommended)")
    } else if i == 1 {
        (Some(8000), "細い (0.8mm)", "Thin (0.8mm)")
    } else if i == 2 {
        (Some(12000), "標準 (1.2mm)", "Standard (1.2mm)")
    } else if i == 3 {
        (Some(18000), "太い (1.8mm)", "Thick (1.8mm)")
    } else {
        (Some(25000), "極太 (2.5mm)", "Very Thick (2.5mm)")
    }
}

/// The cover ratios offered (ten-thousandths), with their labels.
pub open spec fn cover_choice(i: int) -> (Option<u32>, &'static str, &'static str) {
    if i == 0 {
        (None, "自動 (推奨)", "Auto (Recommended)")
    } else if i == 1 {
        (Some(5000u32), "低 (50%)", "Low (50%)")
    } else if i == 2 {
        (Some(7000u32), "標準 (70%)", "Standard (70%)")
    } else if i == 3 {
        (Some(8500u32), "高 (85%)", "High (85%)")
    } else {
        (Some(9500u32), "最高 (95%)", "Highest (95%)")
    }
}

/// Cover choice `i`.
fn cover_choice_at(i: usize) -> (r: (Option<u32>, &'static str, &'static str))
    ensures
        r == cover_choice(i as int),
{
    if i == 0 {
        (None, "自動 (推奨)", "Auto (Recommended)")
    } else if i == 1 {
        (Some(5000), "低 (50%)", "Low (50%)")
    } else if i == 2 {
        (Some(7000), "標準 (70%)", "Standard (70%)")
    } else if i == 3 {
        (Some(8500), "高 (85%)", "High (85%)")
    } else {
        (Some(9500), "最高 (95%)", "Highest (95%)")
    }
}

/// The scroll speeds offered (ten-thousandths of a millimetre per second),
/// with their labels.
pub open spec fn speed_choice(i: int) -> (Option<u32>, &'static str, &'static str) {
    if i == 0 {
        (None, "自動 (推奨)", "Auto (Recommended)")
    } else if i == 1 {
        (Some(0u32), "静止 (0mm/s)", "Static (0mm/s)")
    } else if i == 2 {
        (Some(50000u32), "極低速 (5mm/s)", "Very Slow (5mm/s)")
    } else if i == 3 {
        (Some(200000u32), "低速 (20mm/s)", "Slow (20mm/s)")
    } else {
        (Some(500000u32), "標準 (50mm/s)", "Standard (50mm/s)")
    }
}

/// Speed choice `i`.
fn speed_choice_at(i: usize) -> (r: (Option<u32>, &'static str, &'static str))
    ensures
        r == speed_choice(i as int),
{
    if i == 0 {
        (None, "自動 (推奨)", "Auto (Recommended)")
    } else if i == 1 {
        (Some(0), "静止 (0mm/s)", "Static (0mm/s)")
    } else if i == 2 {
        (Some(50000), "極低速 (5mm/s)", "Very Slow (5mm/s)")
    } else if i == 3 {
        (Some(200000), "低速 (20mm/s)", "Slow (20mm/s)")
    } else {
        (Some(500000), "標準 (50mm/s)", "Standard (50mm/s)")
    }
}

/// The panel types offered, with their labels.
pub open spec fn panel_choice(i: int) -> (PanelType, &'static str) {
    if i == 0 {
        (PanelType::Unknown, "Unknown (不明)")
    } else if i == 1 {
        (PanelType::Oled, "OLED (有機EL)")
    } else if i == 2 {
        (PanelType::LcdIps, "LCD IPS (液晶)")
    } else {
        (PanelType::LcdTn, "LCD TN (液晶)")
    }
}

/// Panel choice `i`.
fn panel_choice_at(i: usize) -> (r: (PanelType, &'static str))
    ensures
        r == panel_choice(i as int),
{
    if i == 0 {
        (PanelType::Unknown, "Unknown (不明)")
    } else if i == 1 {
        (PanelType::Oled, "OLED (有機EL)")
    } else if i == 2 {
        (PanelType::LcdIps, "LCD IPS (液晶)")
    } else {
        (PanelType::LcdTn, "LCD TN (液晶)")
    }
}

/// The label of a display category.
pub open spec fn category_label(c: DisplayCategory) -> (&'static str, &'static str) {
    match c {
        DisplayCategory::NotebookFhd => ("ノートPC FHD", "Notebook FHD"),
        DisplayCategory::NotebookHiDpi => ("ノートPC 高解像度", "Notebook HiDPI"),
        DisplayCategory::ExternalLarge4K => ("外付け大型 4K", "External Large 4K"),
        DisplayCategory::ExternalGeneral => ("外付け 標準", "External Standard"),
        DisplayCategory::Unknown => ("不明", "Unknown"),
    }
}

/// The label of category `c`.
fn category_label_of(c: DisplayCategory) -> (r: (&'static str, &'static str))
    ensures
        r == category_label(c),
{
    match c {
        DisplayCategory::NotebookFhd => ("ノートPC FHD", "Notebook FHD"),
        DisplayCategory::NotebookHiDpi => ("ノートPC 高解像度", "Notebook HiDPI"),
        DisplayCategory::ExternalLarge4K => ("外付け大型 4K", "External Large 4K"),
        DisplayCategory::ExternalGeneral => ("外付け 標準", "External Standard"),
        DisplayCategory::Unknown => ("不明", "Unknown"),
    }
}

/// The categories offered, in menu order.
pub open spec fn category_choice(i: int) -> DisplayCategory {
    if i == 0 {
        DisplayCategory::NotebookFhd
    } else if i == 1 {
        DisplayCategory::NotebookHiDpi
    } else if i == 2 {
        DisplayCategory::ExternalLarge4K
    } else {
        DisplayCategory::ExternalGeneral
    }
}

/// Category choice `i`.
fn category_choice_at(i: usize) -> (c: DisplayCategory)
    ensures
        c == category_choice(i as int),
{
    if i == 0 {
        DisplayCategory::NotebookFhd
    } else if i == 1 {
        DisplayCategory::NotebookHiDpi
    } else if i == 2 {
        DisplayCategory::ExternalLarge4K
    } else {
        DisplayCategory::ExternalGeneral
    }
}

/// `v` divided by `d` and rounded to the nearest integer, halves to the
/// even one.
pub open spec fn round_half_even(v: int, d: int) -> int {
    let q = v / d;
    let r = v % d;
    if 2 * r > d {
        q + 1
    } else if 2 * r < d {
        q
    } else if q % 2 == 0 {
        q
    } else {
        q + 1
    }
}

/// `v / d` rounded to the nearest integer, halves to the even one.
pub(crate) fn round_even(v: u32, d: u32) -> (r: u64)
    requires
        d > 0,
    ensures
        r == round_half_even(v as int, d as int),
{
    let q = (v / d) as u64;
    let r = v % d;
    let twice: u64 = 2 * (r as u64);
    if twice > d as u64 {
        q + 1
    } else if twice < d as u64 {
        q
    } else if q % 2 == 0 {
        q
    } else {
        q + 1
    }
}

/// The settings of a display that the menu shows.
#[derive(Debug, Clone, Copy, PartialEq, Eq, Structural)]
pub struct ShownSettings {
    pub enabled: bool,
    pub alpha: u32,
    pub filter_mode: FilterMode,
    pub panel_type: PanelType,
    pub filter_intensity: u32,
    pub display_category: DisplayCategory,
    pub ppi: u32,
    pub override_period_mm: Option<u32>,
    pub override_cover_ratio: Option<u32>,
    pub override_scroll_speed: Option<u32>,
}

/// What the menu shows of `c`.
pub open spec fn shown_of(c: DisplayConfig) -> ShownSettings {
    ShownSettings {
        enabled: c.enabled,
        alpha: c.alpha,
        filter_mode: c.filter_mode,
        panel_type: c.panel_type,
        filter_intensity: c.filter_intensity,
        display_category: c.display_category,
        ppi: c.ppi,
        override_period_mm: c.override_period_mm,
        override_cover_ratio: c.override_cover_ratio,
        override_scroll_speed: c.override_scroll_speed,
    }
}

/// What the menu shows for a display that has no settings: those of a
/// fresh display.
pub open spec fn fresh_shown() -> ShownSettings {
    ShownSettings {
        enabled: true,
        alpha: 3000,
        filter_mode: FilterMode::BlackLayer,
        panel_type: PanelType::Unknown,
        filter_intensity: 10000,
        display_category: DisplayCategory::Unknown,
        ppi: 1100000,
        override_period_mm: None,
        override_cover_ratio: None,
        override_scroll_speed: None,
    }
}

/// What the menu shows for display `id`.
pub open spec fn shown_settings(m: Map<u64, DisplayConfig>, id: MonitorId) -> ShownSettings {
    if m.contains_key(id.0) {
        shown_of(m[id.0])
    } else {
        fresh_shown()
    }
}

/// The filter settings among the shown ones.
pub open spec fn filter_settings_of(v: ShownSettings) -> FilterSettings {
    FilterSettings {
        alpha: v.alpha,
        filter_mode: v.filter_mode,
        filter_intensity: v.filter_intensity,
        override_period_mm: v.override_period_mm,
        override_cover_ratio: v.override_cover_ratio,
        override_scroll_speed: v.override_scroll_speed,
    }
}

/// The alpha `a` is within 0.01 of `target`.
pub open spec fn alpha_near(a: u32, target: int) -> bool {
    -100 < a - target < 100
}

/// The check item of mode choice `i`.
pub open spec fn mode_line(id: MonitorId, v: ShownSettings, lang: Language, i: int) -> MenuLine {
    let (m, ja, en) = mode_choice(i);
    check(menu_text(MenuAction::Mode(id, m)), tr(lang, ja, en), true, v.filter_mode == m)
}

/// The check item of alpha choice `i` (0 to 100 percent in steps of 10).
pub open spec fn alpha_line(id: MonitorId, v: ShownSettings, i: int) -> MenuLine {
    check(
        menu_text(MenuAction::Alpha(id, (i * 10) as u32)),
        decimal((i * 10) as nat) + "%"@,
        true,
        alpha_near(v.alpha, i * 1000),
    )
}

/// The check item of intensity choice `i`; it is checked when the
/// intensity rounds to the same hundredth.
pub open spec fn intensity_line(id: MonitorId, v: ShownSettings, lang: Language, i: int) -> MenuLine {
    let (x, ja, en) = intensity_choice(i);
    check(
        menu_text(MenuAction::Intensity(id, x)),
        tr(lang, ja, en),
        true,
        (v.filter_intensity + 50) / 100 == x / 100,
    )
}

/// The check item of period choice `i`.
pub open spec fn period_line(id: MonitorId, v: ShownSettings, lang: Language, i: int) -> MenuLine {
    let (x, ja, en) = period_choice(i);
    check(menu_text(MenuAction::OverridePeriod(id, x)), tr(lang, ja, en), true, v.override_period_mm == x)
}

/// The check item of cover choice `i`.
pub open spec fn cover_line(id: MonitorId, v: ShownSettings, lang: Language, i: int) -> MenuLine {
    let (x, ja, en) = cover_choice(i);
    check(menu_text(MenuAction::OverrideCover(id, x)), tr(lang, ja, en), true, v.override_cover_ratio == x)
}

/// The check item of speed choice `i`.
pub open spec fn speed_line(id: MonitorId, v: ShownSettings, lang: Language, i: int) -> MenuLine {
    let (x, ja, en) = speed_choice(i);
    check(menu_text(MenuAction::OverrideSpeed(id, x)), tr(lang, ja, en), true, v.override_scroll_speed == x)
}

/// The check item of panel choice `i`.
pub open spec fn panel_line(id: MonitorId, v: ShownSettings, i: int) -> MenuLine {
    let (p, label) = panel_choice(i);
    check(menu_text(MenuAction::Panel(id, p)), label@, true, v.panel_type == p)
}

/// The check item of category choice `i`.
pub open spec fn category_line(id: MonitorId, v: ShownSettings, lang: Language, i: int) -> MenuLine {
    let c = category_choice(i);
    let (ja, en) = category_label(c);
    check(menu_text(MenuAction::Category(id, c)), tr(lang, ja, en), true, v.display_category == c)
}

/// The check item that applies preset `p`; checked when the display's
/// settings are the preset's.
pub open spec fn apply_line(id: MonitorId, v: ShownSettings, p: Preset) -> MenuLine {
    check(menu_text(MenuAction::PresetApply(id, p.name@)), p.name@, true, filter_settings_of(v) == p.settings)
}

/// The item that deletes preset `p`.
pub open spec fn delete_line(p: Preset) -> MenuLine {
    item(menu_text(MenuAction::PresetDelete(p.name@)), p.name@, true)
}

/// The label that tells a display's category and PPI.
pub open spec fn info_label(v: ShownSettings, lang: Language) -> Seq<char> {
    let (ja, en) = category_label(v.display_category);
    tr(lang, "画面タイプ", "Display Type") + ": "@ + tr(lang, ja, en) + " (PPI: "@ + decimal(
        round_half_even(v.ppi as int, 10000) as nat,
    ) + ")"@
}

/// The preset submenu of display `id`.
pub open spec fn preset_lines(id: MonitorId, v: ShownSettings, presets: Seq<Preset>, lang: Language) -> Seq<MenuLine> {
    seq![open(tr(lang, "設定プリセット", "Presets"))] + (if presets.len() == 0 {
        seq![item("empty"@, tr(lang, "(プリセットなし)", "(No Presets)"), false)]
    } else {
        seq![open(tr(lang, "プリセット適用", "Apply Preset"))] + Seq::new(
            presets.len(),
            |i: int| apply_line(id, v, presets[i]),
        ) + seq![close(), open(tr(lang, "プリセット削除", "Delete Preset"))] + Seq::new(
            presets.len(),
            |i: int| delete_line(presets[i]),
        ) + seq![close()]
    }) + seq![
        item(
            menu_text(MenuAction::PresetSaveCurrent(id)),
            tr(lang, "現在の設定を保存...", "Save Current Settings..."),
            true,
        ),
        close(),
    ]
}

/// Appends the check items of the filter modes.
fn push_mode_lines(out: &mut Vec<MenuEntry>, id: MonitorId, v: &ShownSettings, lang: Language)
    ensures
        lines(final(out)@) == lines(old(out)@) + Seq::new(6nat, |k: int| mode_line(id, *v, lang, k)),
{
    let ghost base = lines(out@);
    let mut i: usize = 0;
    while i < 6
        invariant
            i <= 6,
            lines(out@) == base + Seq::new(i as nat, |k: int| mode_line(id, *v, lang, k)),
        decreases 6 - i,
    {
        let (m, ja, en) = mode_choice_at(i);
        let idt = MenuCommand::Mode(id, m).to_menu_id();
        let label = owned(translate(lang, ja, en));
        push_entry(out, EntryKind::Check, idt, label, true, v.filter_mode == m);
        assert(Seq::new((i + 1) as nat, |k: int| mode_line(id, *v, lang, k)) =~= Seq::new(i as nat, |k: int| mode_line(id, *v, lang, k)).push(mode_line(id, *v, lang, i as int)));
        i = i + 1;
    }
}

/// Appends the check items of the alphas.
fn push_alpha_lines(out: &mut Vec<MenuEntry>, id: MonitorId, v: &ShownSettings)
    ensures
        lines(final(out)@) == lines(old(out)@) + Seq::new(11nat, |k: int| alpha_line(id, *v, k)),
{
    let ghost base = lines(out@);
    let mut i: usize = 0;
    while i < 11
        invariant
            i <= 11,
            lines(out@) == base + Seq::new(i as nat, |k: int| alpha_line(id, *v, k)),
        decreases 11 - i,
    {
        let pct: u32 = (i * 10) as u32;
        let idt = MenuCommand::Alpha(id, pct).to_menu_id();
        let mut text: Vec<char> = Vec::new();
        push_decimal(&mut text, pct as u64);
        push_str(&mut text, "%");
        let label = string_from_chars(&text);
        let target: u32 = pct * 100;
        let near = if v.alpha >= target {
            v.alpha - target < 100
        } else {
            target - v.alpha < 100
        };
        push_entry(out, EntryKind::Check, idt, label, true, near);
        assert(Seq::new((i + 1) as nat, |k: int| alpha_line(id, *v, k)) =~= Seq::new(i as nat, |k: int| alpha_line(id, *v, k)).push(alpha_line(id, *v, i as int)));
        i = i + 1;
    }
}

/// Appends the check items of the intensities.
fn push_intensity_lines(out: &mut Vec<MenuEntry>, id: MonitorId, v: &ShownSettings, lang: Language)
    ensures
        lines(final(out)@) == lines(old(out)@) + Seq::new(5nat, |k: int| intensity_line(id, *v, lang, k)),
{
    let ghost base = lines(out@);
    let mut i: usize = 0;
    while i < 5
        invariant
            i <= 5,
            lines(out@) == base + Seq::new(i as nat, |k: int| intensity_line(id, *v, lang, k)),
        decreases 5 - i,
    {
        let (x, ja, en) = intensity_choice_at(i);
        let idt = MenuCommand::Intensity(id, x).to_menu_id();
        let label = owned(translate(lang, ja, en));
        let rounded: u64 = (v.filter_intensity as u64 + 50) / 100;
        push_entry(out, EntryKind::Check, idt, label, true, rounded == (x / 100) as u64);
        assert(Seq::new((i + 1) as nat, |k: int| intensity_line(id, *v, lang, k)) =~= Seq::new(i as nat, |k: int| intensity_line(id, *v, lang, k)).push(intensity_line(id, *v, lang, i as int)));
        i = i + 1;
    }
}

/// Appends the check items of the stripe periods.
fn push_period_lines(out: &mut Vec<MenuEntry>, id: MonitorId, v: &ShownSettings, lang: Language)
    ensures
        lines(final(out)@) == lines(old(out)@) + Seq::new(5nat, |k: int| period_line(id, *v, lang, k)),
{
    let ghost base = lines(out@);
    let mut i: usize = 0;
    while i < 5
        invariant
            i <= 5,
            lines(out@) == base + Seq::new(i as nat, |k: int| period_line(id, *v, lang, k)),
        decreases 5 - i,
    {
        let (x, ja, en) = period_choice_at(i);
        let idt = MenuCommand::OverridePeriod(id, x).to_menu_id();
        let label = owned(translate(lang, ja, en));
        push_entry(out, EntryKind::Check, idt, label, true, v.override_period_mm == x);
        assert(Seq::new((i + 1) as nat, |k: int| period_line(id, *v, lang, k)) =~= Seq::new(i as nat, |k: int| period_line(id, *v, lang, k)).push(period_line(id, *v, lang, i as int)));
        i = i + 1;
    }
}

/// Appends the check items of the cover ratios.
fn push_cover_lines(out: &mut Vec<MenuEntry>, id: MonitorId, v: &ShownSettings, lang: Language)
    ensures
        lines(final(out)@) == lines(old(out)@) + Seq::new(5nat, |k: int| cover_line(id, *v, lang, k)),
{
    let ghost base = lines(out@);
    let mut i: usize = 0;
    while i < 5
        invariant
            i <= 5,
            lines(out@) == base + Seq::new(i as nat, |k: int| cover_line(id, *v, lang, k)),
        decreases 5 - i,
    {
        let (x, ja, en) = cover_choice_at(i);
        let idt = MenuCommand::OverrideCover(id, x).to_menu_id();
        let label = owned(translate(lang, ja, en));
        push_entry(out, EntryKind::Check, idt, label, true, v.override_cover_ratio == x);
        assert(Seq::new((i + 1) as nat, |k: int| cover_line(id, *v, lang, k)) =~= Seq::new(i as nat, |k: int| cover_line(id, *v, lang, k)).push(cover_line(id, *v, lang, i as int)));
        i = i + 1;
    }
}

/// Appends the check items of the scroll speeds.
fn push_speed_lines(out: &mut Vec<MenuEntry>, id: MonitorId, v: &ShownSettings, lang: Language)
    ensures
        lines(final(out)@) == lines(old(out)@) + Seq::new(5nat, |k: int| speed_line(id, *v, lang, k)),
{
    let ghost base = lines(out@);
    let mut i: usize = 0;
    while i < 5
        invariant
            i <= 5,
            lines(out@) == base + Seq::new(i as nat, |k: int| speed_line(id, *v, lang, k)),
        decreases 5 - i,
    {
        let (x, ja, en) = speed_choice_at(i);
        let idt = MenuCommand::OverrideSpeed(id, x).to_menu_id();
        let label = owned(translate(lang, ja, en));
        push_entry(out, EntryKind::Check, idt, label, true, v.override_scroll_speed == x);
        assert(Seq::new((i + 1) as nat, |k: int| speed_line(id, *v, lang, k)) =~= Seq::new(i as nat, |k: int| speed_line(id, *v, lang, k)).push(speed_line(id, *v, lang, i as int)));
        i = i + 1;
    }
}

/// Appends the check items of the panel types.
fn push_panel_lines(out: &mut Vec<MenuEntry>, id: MonitorId, v: &ShownSettings)
    ensures
        lines(final(out)@) == lines(old(out)@) + Seq::new(4nat, |k: int| panel_line(id, *v, k)),
{
    let ghost base = lines(out@);
    let mut i: usize = 0;
    while i < 4
        invariant
            i <= 4,
            lines(out@) == base + Seq::new(i as nat, |k: int| panel_line(id, *v, k)),
        decreases 4 - i,
    {
        let (p, label_text) = panel_choice_at(i);
        let idt = MenuCommand::Panel(id, p).to_menu_id();
        let label = owned(label_text);
        push_entry(out, EntryKind::Check, idt, label, true, v.panel_type == p);
        assert(Seq::new((i + 1) as nat, |k: int| panel_line(id, *v, k)) =~= Seq::new(i as nat, |k: int| panel_line(id, *v, k)).push(panel_line(id, *v, i as int)));
        i = i + 1;
    }
}

/// Appends the check items of the categories.
fn push_category_lines(out: &mut Vec<MenuEntry>, id: MonitorId, v: &ShownSettings, lang: Language)
    ensures
        lines(final(out)@) == lines(old(out)@) + Seq::new(4nat, |k: int| category_line(id, *v, lang, k)),
{
    let ghost base = lines(out@);
    let mut i: usize = 0;
    while i < 4
        invariant
            i <= 4,
            lines(out@) == base + Seq::new(i as nat, |k: int| category_line(id, *v, lang, k)),
        decreases 4 - i,
    {
        let c = category_choice_at(i);
        let (ja, en) = category_label_of(c);
        let idt = MenuCommand::Category(id, c).to_menu_id();
        let label = owned(translate(lang, ja, en));
        push_entry(out, EntryKind::Check, idt, label, true, v.display_category == c);
        assert(Seq::new((i + 1) as nat, |k: int| category_line(id, *v, lang, k)) =~= Seq::new(i as nat, |k: int| category_line(id, *v, lang, k)).push(category_line(id, *v, lang, i as int)));
        i = i + 1;
    }
}

/// The settings shown for `c`.
fn shown(c: &DisplayConfig) -> (v: ShownSettings)
    ensures
        v == shown_of(*c),
{
    ShownSettings {
        enabled: c.enabled,
        alpha: c.alpha,
        filter_mode: c.filter_mode,
        panel_type: c.panel_type,
        filter_intensity: c.filter_intensity,
        display_category: c.display_category,
        ppi: c.ppi,
        override_period_mm: c.override_period_mm,
        override_cover_ratio: c.override_cover_ratio,
        override_scroll_speed: c.override_scroll_speed,
    }
}

/// Appends the preset submenu of display `id`.
fn push_preset_lines(out: &mut Vec<MenuEntry>, id: MonitorId, v: &ShownSettings, presets: &Vec<Preset>, lang: Language)
    ensures
        lines(final(out)@) == lines(old(out)@) + preset_lines(id, *v, presets@, lang),
{
    let ghost base = lines(out@);
    push_open(out, owned(translate(lang, "設定プリセット", "Presets")));
    let ghost after_open = lines(out@);
    if presets.len() == 0 {
        push_entry(
            out,
            EntryKind::Item,
            owned("empty"),
            owned(translate(lang, "(プリセットなし)", "(No Presets)")),
            false,
            false,
        );
    } else {
        push_open(out, owned(translate(lang, "プリセット適用", "Apply Preset")));
        let ghost b1 = lines(out@);
        let settings = FilterSettings {
            alpha: v.alpha,
            filter_mode: v.filter_mode,
            filter_intensity: v.filter_intensity,
            override_period_mm: v.override_period_mm,
            override_cover_ratio: v.override_cover_ratio,
            override_scroll_speed: v.override_scroll_speed,
        };
        let mut i: usize = 0;
        while i < presets.len()
            invariant
                i <= presets@.len(),
                settings == filter_settings_of(*v),
                lines(out@) == b1 + Seq::new(i as nat, |k: int| apply_line(id, *v, presets@[k])),
            decreases presets@.len() - i,
        {
            let p = &presets[i];
            let idt = MenuCommand::PresetApply(id, p.name.clone()).to_menu_id();
            push_entry(out, EntryKind::Check, idt, p.name.clone(), true, p.settings == settings);
            assert(Seq::new((i + 1) as nat, |k: int| apply_line(id, *v, presets@[k])) =~= Seq::new(
                i as nat,
                |k: int| apply_line(id, *v, presets@[k]),
            ).push(apply_line(id, *v, presets@[i as int])));
            i = i + 1;
        }
        push_close(out);
        push_open(out, owned(translate(lang, "プリセット削除", "Delete Preset")));
        let ghost b2 = lines(out@);
        let mut j: usize = 0;
        while j < presets.len()
            invariant
                j <= presets@.len(),
                lines(out@) == b2 + Seq::new(j as nat, |k: int| delete_line(presets@[k])),
            decreases presets@.len() - j,
        {
            let p = &presets[j];
            let idt = MenuCommand::PresetDelete(p.name.clone()).to_menu_id();
            push_entry(out, EntryKind::Item, idt, p.name.clone(), true, false);
            assert(Seq::new((j + 1) as nat, |k: int| delete_line(presets@[k])) =~= Seq::new(
                j as nat,
                |k: int| delete_line(presets@[k]),
            ).push(delete_line(presets@[j as int])));
            j = j + 1;
        }
        push_close(out);
    }
    let idt = MenuCommand::PresetSaveCurrent(id).to_menu_id();
    push_entry(
        out,
        EntryKind::Item,
        idt,
        owned(translate(lang, "現在の設定を保存...", "Save Current Settings...")),
        true,
        false,
    );
    push_close(out);
    assert(lines(out@) =~= base + preset_lines(id, *v, presets@, lang));
}

/// The start of the submenu of display `id`, named `name`: its category
/// and PPI, its switch, the filter modes, alphas and intensities.
pub open spec fn display_head(id: MonitorId, name: Seq<char>, v: ShownSettings, lang: Language) -> Seq<MenuLine> {
    seq![
        open(name),
        item("category_info"@, info_label(v, lang), false),
        check(menu_text(MenuAction::DisplayToggle(id)), tr(lang, "フィルターを有効", "Enable Filter"), true, v.enabled),
        separator(),
        open(tr(lang, "フィルター形式", "Filter Mode")),
    ] + Seq::new(6nat, |k: int| mode_line(id, v, lang, k)) + seq![
        close(),
        open(tr(lang, "フィルター濃度", "Filter Alpha")),
    ] + Seq::new(11nat, |k: int| alpha_line(id, v, k)) + seq![
        close(),
        open(tr(lang, "フィルター強度", "Filter Intensity")),
    ] + Seq::new(5nat, |k: int| intensity_line(id, v, lang, k)) + seq![close(), separator()]
}

/// The fine-tuning part of the submenu of display `id`: period, cover
/// ratio and scroll speed.
pub open spec fn display_fine_tuning(id: MonitorId, v: ShownSettings, lang: Language) -> Seq<MenuLine> {
    seq![
        open(tr(lang, "高度な微調整", "Advanced Fine-Tuning")),
        open(tr(lang, "縞の太さ (Period)", "Stripe Thickness (Period)")),
    ] + Seq::new(5nat, |k: int| period_line(id, v, lang, k)) + seq![
        close(),
        open(tr(lang, "遮蔽率 (Cover Ratio)", "Cover Ratio")),
    ] + Seq::new(5nat, |k: int| cover_line(id, v, lang, k)) + seq![
        close(),
        open(tr(lang, "スクロール速度", "Scroll Speed")),
    ] + Seq::new(5nat, |k: int| speed_line(id, v, lang, k)) + seq![close(), close()]
}

/// The end of the submenu of display `id`: the panel type and the
/// category.
pub open spec fn display_tail(id: MonitorId, v: ShownSettings, lang: Language) -> Seq<MenuLine> {
    seq![open(tr(lang, "パネル種別を変更", "Change Panel Type") + " ("@ + panel_label(v.panel_type) + ")"@)]
        + Seq::new(4nat, |k: int| panel_line(id, v, k)) + seq![
        close(),
        open(tr(lang, "画面タイプを変更", "Change Display Type")),
    ] + Seq::new(4nat, |k: int| category_line(id, v, lang, k)) + seq![close(), close()]
}

/// The submenu of display `id`, named `name`: its category and PPI, its
/// switch, the filter modes, alphas and intensities, the presets, the reset
/// to the recommendation, the fine-tuning of period, cover ratio and scroll
/// speed, the panel type and the category.
pub open spec fn display_lines(id: MonitorId, name: Seq<char>, v: ShownSettings, presets: Seq<Preset>, lang: Language) -> Seq<MenuLine> {
    display_head(id, name, v, lang) + preset_lines(id, v, presets, lang) + seq![
        item(menu_text(MenuAction::ResetRecommended(id)), tr(lang, "おすすめ設定に戻す", "Reset to Recommended"), true),
        separator(),
    ] + display_fine_tuning(id, v, lang) + display_tail(id, v, lang)
}

/// Appends the start of the submenu of display `id`.
fn push_display_head(out: &mut Vec<MenuEntry>, id: MonitorId, name: &str, v: &ShownSettings, lang: Language)
    ensures
        lines(final(out)@) == lines(old(out)@) + display_head(id, name@, *v, lang),
{
    let ghost base = lines(out@);
    push_open(out, owned(name));
    let (cja, cen) = category_label_of(v.display_category);
    let mut info: Vec<char> = Vec::new();
    push_str(&mut info, translate(lang, "画面タイプ", "Display Type"));
    push_str(&mut info, ": ");
    push_str(&mut info, translate(lang, cja, cen));
    push_str(&mut info, " (PPI: ");
    push_decimal(&mut info, round_even(v.ppi, 10000));
    push_str(&mut info, ")");
    assert(info@ =~= info_label(*v, lang));
    push_entry(out, EntryKind::Item, owned("category_info"), string_from_chars(&info), false, false);
    push_entry(
        out,
        EntryKind::Check,
        MenuCommand::DisplayToggle(id).to_menu_id(),
        owned(translate(lang, "フィルターを有効", "Enable Filter")),
        true,
        v.enabled,
    );
    push_separator(out);
    push_open(out, owned(translate(lang, "フィルター形式", "Filter Mode")));
    push_mode_lines(out, id, v, lang);
    push_close(out);
    push_open(out, owned(translate(lang, "フィルター濃度", "Filter Alpha")));
    push_alpha_lines(out, id, v);
    push_close(out);
    push_open(out, owned(translate(lang, "フィルター強度", "Filter Intensity")));
    push_intensity_lines(out, id, v, lang);
    push_close(out);
    push_separator(out);
    assert(lines(out@) =~= base + display_head(id, name@, *v, lang));
}

/// Appends the fine-tuning part of the submenu of display `id`.
fn push_display_fine_tuning(out: &mut Vec<MenuEntry>, id: MonitorId, v: &ShownSettings, lang: Language)
    ensures
        lines(final(out)@) == lines(old(out)@) + display_fine_tuning(id, *v, lang),
{
    let ghost base = lines(out@);
    push_open(out, owned(translate(lang, "高度な微調整", "Advanced Fine-Tuning")));
    push_open(out, owned(translate(lang, "縞の太さ (Period)", "Stripe Thickness (Period)")));
    push_period_lines(out, id, v, lang);
    push_close(out);
    push_open(out, owned(translate(lang, "遮蔽率 (Cover Ratio)", "Cover Ratio")));
    push_cover_lines(out, id, v, lang);
    push_close(out);
    push_open(out, owned(translate(lang, "スクロール速度", "Scroll Speed")));
    push_speed_lines(out, id, v, lang);
    push_close(out);
    push_close(out);
    assert(lines(out@) =~= base + display_fine_tuning(id, *v, lang));
}

/// Appends the end of the submenu of display `id`.
fn push_display_tail(out: &mut Vec<MenuEntry>, id: MonitorId, v: &ShownSettings, lang: Language)
    ensures
        lines(final(out)@) == lines(old(out)@) + display_tail(id, *v, lang),
{
    let ghost base = lines(out@);
    let mut panel_title: Vec<char> = Vec::new();
    push_str(&mut panel_title, translate(lang, "パネル種別を変更", "Change Panel Type"));
    push_str(&mut panel_title, " (");
    push_str(&mut panel_title, v.panel_type.to_str());
    push_str(&mut panel_title, ")");
    push_open(out, string_from_chars(&panel_title));
    push_panel_lines(out, id, v);
    push_close(out);
    push_open(out, owned(translate(lang, "画面タイプを変更", "Change Display Type")));
    push_category_lines(out, id, v, lang);
    push_close(out);
    push_close(out);
    assert(lines(out@) =~= base + display_tail(id, *v, lang));
}

/// Appends the submenu of display `id`.
fn push_display_lines(
    out: &mut Vec<MenuEntry>,
    id: MonitorId,
    name: &str,
    v: &ShownSettings,
    presets: &Vec<Preset>,
    lang: Language,
)
    ensures
        lines(final(out)@) == lines(old(out)@) + display_lines(id, name@, *v, presets@, lang),
{
    let ghost base = lines(out@);
    push_display_head(out, id, name, v, lang);
    push_preset_lines(out, id, v, presets, lang);
    push_entry(
        out,
        EntryKind::Item,
        MenuCommand::ResetRecommended(id).to_menu_id(),
        owned(translate(lang, "おすすめ設定に戻す", "Reset to Recommended")),
        true,
        false,
    );
    push_separator(out);
    push_display_fine_tuning(out, id, v, lang);
    push_display_tail(out, id, v, lang);
    assert(lines(out@) =~= base + display_lines(id, name@, *v, presets@, lang));
}

/// The submenus of the displays in `ov`, in order.
pub open spec fn displays_lines(s: AppState, ov: Seq<(MonitorId, String)>, lang: Language) -> Seq<MenuLine>
    decreases ov.len(),
{
    if ov.len() == 0 {
        Seq::empty()
    } else {
        let (id, name) = ov.last();
        displays_lines(s, ov.drop_last(), lang) + display_lines(
            id,
            name@,
            shown_settings(s.displays@, id),
            s.presets@,
            lang,
        )
    }
}

/// Every filter is shown: the global switch is on, some display is
/// connected and every connected display is enabled.
pub open spec fn all_enabled(s: AppState) -> bool {
    s.global_enabled && s.displays@.len() > 0 && forall|k: u64|
        #![trigger s.displays@[k]]
        s.displays@.contains_key(k) ==> s.displays@[k].enabled
}

/// The label of the item that optimises every screen: with the progress
/// while a benchmark runs (a percentage rounded halves to even).
pub open spec fn benchmark_all_label(progress: Option<u32>, lang: Language) -> Seq<char> {
    match progress {
        Some(p) => tr(lang, "全画面を最適化中", "Optimizing all screens") + " ("@ + decimal(
            round_half_even(p as int, 100) as nat,
        ) + "%) ..."@,
        None => tr(lang, "全画面を最適化する", "Optimize All Screens"),
    }
}

/// The item that optimises one display.
pub open spec fn optimize_line(entry: (MonitorId, String), progress: Option<u32>, lang: Language) -> MenuLine {
    item(
        menu_text(MenuAction::RunBenchmark(entry.0)),
        entry.1@ + " "@ + tr(lang, "を個別で最適化", "Optimize (Individual)"),
        progress is None,
    )
}

/// The status shown for the camera watch, and which of off, vigilance and
/// enhanced is checked.
pub open spec fn ai_status(s: AppState) -> (&'static str, &'static str, AiMode) {
    if s.ai_vigilance_mode {
        ("✓ Vigilance", "✓ Vigilance", AiMode::Vigilance)
    } else if s.ai_detection_enabled {
        ("✓ 常時フィルター強化", "✓ Enhanced Filter", AiMode::Enhanced)
    } else {
        ("オフ", "Off", AiMode::Off)
    }
}

/// The submenu of the camera watch.
pub open spec fn ai_lines(s: AppState, lang: Language) -> Seq<MenuLine> {
    let (ja, en, mode) = ai_status(s);
    seq![
        open(tr(lang, "AI 覗き見検知", "AI Peep Prevention") + " ▶ ["@ + tr(lang, ja, en) + "]"@),
        check(MENU_ID_AI_MODE_OFF@, tr(lang, "オフ", "Off"), true, mode == AiMode::Off),
        check(
            MENU_ID_AI_MODE_VIGILANCE@,
            tr(lang, "Vigilance（検知時のみ展開）", "Vigilance (Deploy on Detect)"),
            true,
            mode == AiMode::Vigilance,
        ),
        check(
            MENU_ID_AI_MODE_ENHANCED@,
            tr(lang, "常時フィルター強化", "Enhanced Filter Always On"),
            true,
            mode == AiMode::Enhanced,
        ),
        close(),
    ]
}

/// The optimisation submenu, between separators: optimise every screen,
/// then each display; disabled while a benchmark runs.
pub open spec fn optimize_lines(s: AppState, ov: Seq<(MonitorId, String)>, lang: Language) -> Seq<MenuLine> {
    seq![
        separator(),
        open(tr(lang, "最適化 (ベンチマーク)", "Optimization (Benchmark)")),
        item(MENU_ID_RUN_BENCHMARK_ALL@, benchmark_all_label(s.benchmark_progress, lang), s.benchmark_progress is None),
        separator(),
    ] + Seq::new(ov.len(), |k: int| optimize_line(ov[k], s.benchmark_progress, lang)) + seq![
        close(),
        separator(),
    ]
}

/// The end of the menu: start at login and quit.
pub open spec fn footer_lines(s: AppState, lang: Language) -> Seq<MenuLine> {
    seq![
        check(MENU_ID_AUTO_START@, tr(lang, "ログイン時に起動", "Start at Login"), true, s.auto_start),
        separator(),
        item(MENU_ID_QUIT@, tr(lang, "Softveil を終了", "Quit Softveil"), true),
    ]
}

/// The whole menu for state `s` and the displays `ov` (id and name, in the
/// order of their overlays): the global switch, a submenu per display, the
/// optimisation submenu, the camera watch, start at login and quit.
pub open spec fn menu_lines(s: AppState, ov: Seq<(MonitorId, String)>, lang: Language) -> Seq<MenuLine> {
    seq![
        check(MENU_ID_GLOBAL_TOGGLE@, tr(lang, "フィルター：すべてオン", "Filter: All On"), true, all_enabled(s)),
        separator(),
    ] + displays_lines(s, ov, lang) + optimize_lines(s, ov, lang) + ai_lines(s, lang) + footer_lines(s, lang)
}

/// The settings shown for display `id`.
fn shown_for(state: &AppState, id: MonitorId) -> (v: ShownSettings)
    ensures
        v == shown_settings(state.displays@, id),
{
    match state.displays.get(&id.0) {
        Some(c) => shown(c),
        None => ShownSettings {
            enabled: true,
            alpha: 3000,
            filter_mode: FilterMode::BlackLayer,
            panel_type: PanelType::Unknown,
            filter_intensity: 10000,
            display_category: DisplayCategory::Unknown,
            ppi: 1100000,
            override_period_mm: None,
            override_cover_ratio: None,
            override_scroll_speed: None,
        },
    }
}

/// Appends the camera-watch submenu.
fn push_ai_lines(out: &mut Vec<MenuEntry>, state: &AppState, lang: Language)
    ensures
        lines(final(out)@) == lines(old(out)@) + ai_lines(*state, lang),
{
    let ghost base = lines(out@);
    let (ja, en, mode): (&str, &str, AiMode) = if state.ai_vigilance_mode {
        ("✓ Vigilance", "✓ Vigilance", AiMode::Vigilance)
    } else if state.ai_detection_enabled {
        ("✓ 常時フィルター強化", "✓ Enhanced Filter", AiMode::Enhanced)
    } else {
        ("オフ", "Off", AiMode::Off)
    };
    let mut title: Vec<char> = Vec::new();
    push_str(&mut title, translate(lang, "AI 覗き見検知", "AI Peep Prevention"));
    push_str(&mut title, " ▶ [");
    push_str(&mut title, translate(lang, ja, en));
    push_str(&mut title, "]");
    push_open(out, string_from_chars(&title));
    push_entry(
        out,
        EntryKind::Check,
        owned(MENU_ID_AI_MODE_OFF),
        owned(translate(lang, "オフ", "Off")),
        true,
        mode == AiMode::Off,
    );
    push_entry(
        out,
        EntryKind::Check,
        owned(MENU_ID_AI_MODE_VIGILANCE),
        owned(translate(lang, "Vigilance（検知時のみ展開）", "Vigilance (Deploy on Detect)")),
        true,
        mode == AiMode::Vigilance,
    );
    push_entry(
        out,
        EntryKind::Check,
        owned(MENU_ID_AI_MODE_ENHANCED),
        owned(translate(lang, "常時フィルター強化", "Enhanced Filter Always On")),
        true,
        mode == AiMode::Enhanced,
    );
    push_close(out);
    assert(lines(out@) =~= base + ai_lines(*state, lang));
}

/// Appends the submenus of the displays.
fn push_displays(out: &mut Vec<MenuEntry>, state: &AppState, overlays: &Vec<(MonitorId, String)>, lang: Language)
    ensures
        lines(final(out)@) == lines(old(out)@) + displays_lines(*state, overlays@, lang),
{
    let ghost head = lines(out@);
    assert(overlays@.take(0) =~= Seq::<(MonitorId, String)>::empty());
    assert(head =~= head + displays_lines(*state, overlays@.take(0), lang));
    let mut i: usize = 0;
    while i < overlays.len()
        invariant
            i <= overlays@.len(),
            lines(out@) == head + displays_lines(*state, overlays@.take(i as int), lang),
        decreases overlays@.len() - i,
    {
        let (id, name) = &overlays[i];
        let v = shown_for(state, *id);
        proof {
            assert(overlays@.take(i + 1).drop_last() =~= overlays@.take(i as int));
            assert(overlays@.take(i + 1).last() == overlays@[i as int]);
        }
        push_display_lines(out, *id, name.as_str(), &v, &state.presets, lang);
        assert(lines(out@) =~= head + displays_lines(*state, overlays@.take(i + 1), lang));
        i = i + 1;
    }
    assert(overlays@.take(i as int) =~= overlays@);
}

/// Appends the optimisation submenu.
fn push_optimize(out: &mut Vec<MenuEntry>, state: &AppState, overlays: &Vec<(MonitorId, String)>, lang: Language)
    ensures
        lines(final(out)@) == lines(old(out)@) + optimize_lines(*state, overlays@, lang),
{
    let ghost base = lines(out@);
    push_separator(out);
    push_open(out, owned(translate(lang, "最適化 (ベンチマーク)", "Optimization (Benchmark)")));
    let all_label = match state.benchmark_progress {
        Some(p) => {
            let mut text: Vec<char> = Vec::new();
            push_str(&mut text, translate(lang, "全画面を最適化中", "Optimizing all screens"));
            push_str(&mut text, " (");
            push_decimal(&mut text, round_even(p, 100));
            push_str(&mut text, "%) ...");
            string_from_chars(&text)
        },
        None => owned(translate(lang, "全画面を最適化する", "Optimize All Screens")),
    };
    push_entry(
        out,
        EntryKind::Item,
        owned(MENU_ID_RUN_BENCHMARK_ALL),
        all_label,
        state.benchmark_progress.is_none(),
        false,
    );
    push_separator(out);
    let ghost before_items = lines(out@);
    let mut j: usize = 0;
    while j < overlays.len()
        invariant
            j <= overlays@.len(),
            lines(out@) == before_items + Seq::new(
                j as nat,
                |k: int| optimize_line(overlays@[k], state.benchmark_progress, lang),
            ),
        decreases overlays@.len() - j,
    {
        let (id, name) = &overlays[j];
        let mut text: Vec<char> = Vec::new();
        push_str(&mut text, name.as_str());
        push_str(&mut text, " ");
        push_str(&mut text, translate(lang, "を個別で最適化", "Optimize (Individual)"));
        push_entry(
            out,
            EntryKind::Item,
            MenuCommand::RunBenchmark(*id).to_menu_id(),
            string_from_chars(&text),
            state.benchmark_progress.is_none(),
            false,
        );
        assert(Seq::new(
            (j + 1) as nat,
            |k: int| optimize_line(overlays@[k], state.benchmark_progress, lang),
        ) =~= Seq::new(j as nat, |k: int| optimize_line(overlays@[k], state.benchmark_progress, lang)).push(
            optimize_line(overlays@[j as int], state.benchmark_progress, lang),
        ));
        j = j + 1;
    }
    push_close(out);
    push_separator(out);
    assert(lines(out@) =~= base + optimize_lines(*state, overlays@, lang));
}

/// Builds the tray menu for `state`, with a submenu for each display in
/// `overlays` (its id and name), in the language `lang`.
pub fn build_menu(state: &AppState, overlays: &Vec<(MonitorId, String)>, lang: Language) -> (menu: Vec<MenuEntry>)
    ensures
        lines(menu@) == menu_lines(*state, overlays@, lang),
{
    let mut out: Vec<MenuEntry> = Vec::new();
    assert(lines(out@) =~= Seq::<MenuLine>::empty());
    push_entry(
        &mut out,
        EntryKind::Check,
        owned(MENU_ID_GLOBAL_TOGGLE),
        owned(translate(lang, "フィルター：すべてオン", "Filter: All On")),
        true,
        state.all_displays_enabled(),
    );
    push_separator(&mut out);
    push_displays(&mut out, state, overlays, lang);
    push_optimize(&mut out, state, overlays, lang);
    push_ai_lines(&mut out, state, lang);
    let ghost before_footer = lines(out@);
    push_entry(
        &mut out,
        EntryKind::Check,
        owned(MENU_ID_AUTO_START),
        owned(translate(lang, "ログイン時に起動", "Start at Login")),
        true,
        state.auto_start,
    );
    push_separator(&mut out);
    push_entry(
        &mut out,
        EntryKind::Item,
        owned(MENU_ID_QUIT),
        owned(translate(lang, "Softveil を終了", "Quit Softveil")),
        true,
        false,
    );
    assert(lines(out@) =~= before_footer + footer_lines(*state, lang));
    assert(lines(out@) =~= menu_lines(*state, overlays@, lang));
    out
}

/// The tray icon could not be made.
#[derive(Debug)]
pub enum TrayError {
    IconError(String),
}

/// The label of a benchmark item: "optimise every screen" or "optimise this
/// screen", with the progress as a percentage (rounded, halves up) while a
/// benchmark runs.
pub open spec fn benchmark_item_text(lang: Language, all: bool, progress: Option<u32>) -> Seq<char> {
    let base = if all {
        tr(lang, "全画面を最適化する", "Optimize All Screens")
    } else {
        tr(lang, "この画面を個別で最適化", "Optimize This Screen")
    };
    match progress {
        Some(p) => base + " ("@ + decimal(((p as int + 50) / 100) as nat) + "%) ..."@,
        None => base,
    }
}

/// The label of a benchmark item, for the whole set of screens (`all`) or
/// one of them.
pub fn benchmark_item_label(lang: Language, all: bool, progress: Option<u32>) -> (label: String)
    ensures
        label@ == benchmark_item_text(lang, all, progress),
{
    let base = if all {
        translate(lang, "全画面を最適化する", "Optimize All Screens")
    } else {
        translate(lang, "この画面を個別で最適化", "Optimize This Screen")
    };
    let mut text: Vec<char> = Vec::new();
    push_str(&mut text, base);
    match progress {
        Some(p) => {
            push_str(&mut text, " (");
            push_decimal(&mut text, ((p as u64) + 50) / 100);
            push_str(&mut text, "%) ...");
        },
        None => {},
    }
    string_from_chars(&text)
}

} // verus!
