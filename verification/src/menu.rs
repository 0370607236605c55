//! Tray menu item ids: what each id asks for, how ids are written, and how
//! an id chosen in the menu is read back into a command.
use vstd::prelude::*;
use crate::display_config::{monitor_id_text, DisplayCategory, FilterMode, MonitorId, PanelType};
use crate::numeral::{
    fixed_text, lemma_fixed_text_plain, lemma_hexadecimal_value, lemma_parse_decimal, lemma_parse_fixed,
    lemma_parse_hexadecimal, parse_fixed, parse_fixed_chars, parse_unsigned, parse_unsigned_chars,
    push_fixed,
};
use crate::text::{chars_of, decimal, hexadecimal, push_decimal, push_hexadecimal, push_str, string_from_chars};

verus! {

pub const MENU_ID_GLOBAL_TOGGLE: &'static str = "global_toggle";
pub const MENU_ID_DISPLAY_TOGGLE_PREFIX: &'static str = "display_toggle:";
pub const MENU_ID_ALPHA_PREFIX: &'static str = "alpha:";
pub const MENU_ID_MODE_PREFIX: &'static str = "mode:";
pub const MENU_ID_PANEL_PREFIX: &'static str = "panel:";
pub const MENU_ID_CATEGORY_PREFIX: &'static str = "category:";
pub const MENU_ID_INTENSITY_PREFIX: &'static str = "intensity:";
pub const MENU_ID_OVERRIDE_PERIOD_PREFIX: &'static str = "ov_period:";
pub const MENU_ID_OVERRIDE_COVER_PREFIX: &'static str = "ov_cover:";
pub const MENU_ID_OVERRIDE_SPEED_PREFIX: &'static str = "ov_speed:";
pub const MENU_ID_RESET_RECOMMENDED: &'static str = "reset_recommended:";
pub const MENU_ID_AUTO_START: &'static str = "auto_start";
pub const MENU_ID_AI_MODE_OFF: &'static str = "ai_mode_off";
pub const MENU_ID_AI_MODE_VIGILANCE: &'static str = "ai_mode_vigilance";
pub const MENU_ID_AI_MODE_ENHANCED: &'static str = "ai_mode_enhanced";
pub const MENU_ID_PRESET_APPLY_PREFIX: &'static str = "preset_apply:";
pub const MENU_ID_PRESET_DELETE_PREFIX: &'static str = "preset_delete:";
pub const MENU_ID_PRESET_SAVE_CURRENT: &'static str = "preset_save_current";
pub const MENU_ID_PRESET_ALL_PREFIX: &'static str = "preset_all:";
pub const MENU_ID_RUN_BENCHMARK_PREFIX: &'static str = "run_benchmark:";
pub const MENU_ID_RUN_BENCHMARK_ALL: &'static str = "run_benchmark_all";
pub const MENU_ID_QUIT: &'static str = "quit";

/// How the camera watch for someone looking over the shoulder behaves.
#[derive(Debug, Clone, Copy, PartialEq, Eq, Structural)]
pub enum AiMode {
    /// No camera detection.
    Off,
    /// The filters stay clear until someone is detected.
    Vigilance,
    /// The filters stay on, and grow stronger while someone is detected.
    Enhanced,
}

/// What a menu item asks for. Alpha values are percentages; intensities and
/// overrides are in ten-thousandths.
#[derive(Debug)]
pub enum MenuCommand {
    GlobalToggle,
    DisplayToggle(MonitorId),
    Alpha(MonitorId, u32),
    Mode(MonitorId, FilterMode),
    Panel(MonitorId, PanelType),
    Category(MonitorId, DisplayCategory),
    Intensity(MonitorId, u32),
    OverridePeriod(MonitorId, Option<u32>),
    OverrideCover(MonitorId, Option<u32>),
    OverrideSpeed(MonitorId, Option<u32>),
    ResetRecommended(MonitorId),
    PresetApply(MonitorId, String),
    PresetDelete(String),
    PresetApplyAll(String),
    PresetSaveCurrent(MonitorId),
    RunBenchmark(MonitorId),
    RunBenchmarkAll,
    AutoStart,
    SetAiMode(AiMode),
    Quit,
}

/// A `MenuCommand` with its preset names as character sequences.
pub enum MenuAction {
    GlobalToggle,
    DisplayToggle(MonitorId),
    Alpha(MonitorId, u32),
    Mode(MonitorId, FilterMode),
    Panel(MonitorId, PanelType),
    Category(MonitorId, DisplayCategory),
    Intensity(MonitorId, u32),
    OverridePeriod(MonitorId, Option<u32>),
    OverrideCover(MonitorId, Option<u32>),
    OverrideSpeed(MonitorId, Option<u32>),
    ResetRecommended(MonitorId),
    PresetApply(MonitorId, Seq<char>),
    PresetDelete(Seq<char>),
    PresetApplyAll(Seq<char>),
    PresetSaveCurrent(MonitorId),
    RunBenchmark(MonitorId),
    RunBenchmarkAll,
    AutoStart,
    SetAiMode(AiMode),
    Quit,
}

impl View for MenuCommand {
    type V = MenuAction;

    open spec fn view(&self) -> MenuAction {
        match self {
            MenuCommand::GlobalToggle => MenuAction::GlobalToggle,
            MenuCommand::DisplayToggle(id) => MenuAction::DisplayToggle(*id),
            MenuCommand::Alpha(id, p) => MenuAction::Alpha(*id, *p),
            MenuCommand::Mode(id, m) => MenuAction::Mode(*id, *m),
            MenuCommand::Panel(id, p) => MenuAction::Panel(*id, *p),
            MenuCommand::Category(id, c) => MenuAction::Category(*id, *c),
            MenuCommand::Intensity(id, v) => MenuAction::Intensity(*id, *v),
            MenuCommand::OverridePeriod(id, v) => MenuAction::OverridePeriod(*id, *v),
            MenuCommand::OverrideCover(id, v) => MenuAction::OverrideCover(*id, *v),
            MenuCommand::OverrideSpeed(id, v) => MenuAction::OverrideSpeed(*id, *v),
            MenuCommand::ResetRecommended(id) => MenuAction::ResetRecommended(*id),
            MenuCommand::PresetApply(id, n) => MenuAction::PresetApply(*id, n@),
            MenuCommand::PresetDelete(n) => MenuAction::PresetDelete(n@),
            MenuCommand::PresetApplyAll(n) => MenuAction::PresetApplyAll(n@),
            MenuCommand::PresetSaveCurrent(id) => MenuAction::PresetSaveCurrent(*id),
            MenuCommand::RunBenchmark(id) => MenuAction::RunBenchmark(*id),
            MenuCommand::RunBenchmarkAll => MenuAction::RunBenchmarkAll,
            MenuCommand::AutoStart => MenuAction::AutoStart,
            MenuCommand::SetAiMode(m) => MenuAction::SetAiMode(*m),
            MenuCommand::Quit => MenuAction::Quit,
        }
    }
}

/// The name a filter mode has in menu ids.
pub open spec fn mode_name(m: FilterMode) -> Seq<char> {
    match m {
        FilterMode::BlackLayer => "BlackLayer"@,
        FilterMode::VerticalLouver => "VerticalLouver"@,
        FilterMode::AIOcrInterference => "AIOcrInterference"@,
        FilterMode::HighIntensitySPD => "HighIntensitySPD"@,
        FilterMode::StealthDark => "StealthDark"@,
        FilterMode::StealthLight => "StealthLight"@,
    }
}

/// The filter mode named `s` in a menu id; the former name of the subpixel
/// variant of stealth light reads as stealth light.
pub open spec fn mode_of_name(s: Seq<char>) -> Option<FilterMode> {
    if s == "BlackLayer"@ {
        Some(FilterMode::BlackLayer)
    } else if s == "VerticalLouver"@ {
        Some(FilterMode::VerticalLouver)
    } else if s == "AIOcrInterference"@ {
        Some(FilterMode::AIOcrInterference)
    } else if s == "HighIntensitySPD"@ {
        Some(FilterMode::HighIntensitySPD)
    } else if s == "StealthDark"@ {
        Some(FilterMode::StealthDark)
    } else if s == "StealthLight"@ || s == "StealthLightSubpixel"@ {
        Some(FilterMode::StealthLight)
    } else {
        None
    }
}

/// The name a panel type has in menu ids.
pub open spec fn panel_name(p: PanelType) -> Seq<char> {
    match p {
        PanelType::Unknown => "Unknown"@,
        PanelType::Oled => "Oled"@,
        PanelType::LcdIps => "LcdIps"@,
        PanelType::LcdTn => "LcdTn"@,
    }
}

/// The panel type named `s` in a menu id.
pub open spec fn panel_of_name(s: Seq<char>) -> Option<PanelType> {
    if s == "Unknown"@ {
        Some(PanelType::Unknown)
    } else if s == "Oled"@ {
        Some(PanelType::Oled)
    } else if s == "LcdIps"@ {
        Some(PanelType::LcdIps)
    } else if s == "LcdTn"@ {
        Some(PanelType::LcdTn)
    } else {
        None
    }
}

/// The name a display category has in menu ids.
pub open spec fn category_name(c: DisplayCategory) -> Seq<char> {
    match c {
        DisplayCategory::NotebookFhd => "NotebookFhd"@,
        DisplayCategory::NotebookHiDpi => "NotebookHiDpi"@,
        DisplayCategory::ExternalLarge4K => "ExternalLarge4K"@,
        DisplayCategory::ExternalGeneral => "ExternalGeneral"@,
        DisplayCategory::Unknown => "Unknown"@,
    }
}

/// The display category named `s` in a menu id; an unknown category cannot
/// be chosen.
pub open spec fn category_of_name(s: Seq<char>) -> Option<DisplayCategory> {
    if s == "NotebookFhd"@ {
        Some(DisplayCategory::NotebookFhd)
    } else if s == "NotebookHiDpi"@ {
        Some(DisplayCategory::NotebookHiDpi)
    } else if s == "ExternalLarge4K"@ {
        Some(DisplayCategory::ExternalLarge4K)
    } else if s == "ExternalGeneral"@ {
        Some(DisplayCategory::ExternalGeneral)
    } else {
        None
    }
}

/// An optional override as a menu id writes it: "None", or "Some(" and the
/// value with at least one decimal place and ")".
pub open spec fn option_text(o: Option<u32>) -> Seq<char> {
    match o {
        None => "None"@,
        Some(v) => "Some("@ + fixed_text(v as nat, true) + ")"@,
    }
}

/// The optional override written `s`.
pub open spec fn option_of_text(s: Seq<char>) -> Option<Option<u32>> {
    if s == "None"@ {
        Some(None)
    } else if s.len() >= 6 && s.take(5) == "Some("@ && s.last() == ')' {
        match parse_fixed(s.subrange(5, s.len() - 1)) {
            Some(v) => Some(Some(v as u32)),
            None => None,
        }
    } else {
        None
    }
}

/// `s` has a ':' at `i` and nowhere else.
pub open spec fn single_colon_at(s: Seq<char>, i: int) -> bool {
    &&& 0 <= i < s.len()
    &&& s[i] == ':'
    &&& forall|j: int| 0 <= j < s.len() && #[trigger] s[j] == ':' ==> j == i
}

/// The two parts of `s` around its only ':', when it has exactly one.
pub open spec fn split_colon(s: Seq<char>) -> Option<(Seq<char>, Seq<char>)> {
    if exists|i: int| single_colon_at(s, i) {
        let i = choose|i: int| single_colon_at(s, i);
        Some((s.take(i), s.skip(i + 1)))
    } else {
        None
    }
}

/// The monitor written `s`: "0x" and its hexadecimal number.
pub open spec fn monitor_of_text(s: Seq<char>) -> Option<MonitorId> {
    if s.len() >= 2 && s[0] == '0' && s[1] == 'x' {
        match parse_unsigned(s.skip(2), 16, u64::MAX as int) {
            Some(v) => Some(MonitorId(v as u64)),
            None => None,
        }
    } else {
        None
    }
}

/// The monitor and the value around the only ':' of `rest`, when the part
/// before it is a monitor.
pub open spec fn monitor_and_value(rest: Seq<char>) -> Option<(MonitorId, Seq<char>)> {
    match split_colon(rest) {
        Some((a, b)) => match monitor_of_text(a) {
            Some(id) => Some((id, b)),
            None => None,
        },
        None => None,
    }
}

/// The action with a value after a monitor that the rest of an id names,
/// given the prefix `p` it started with.
pub open spec fn valued_action(p: Seq<char>, id: MonitorId, b: Seq<char>) -> Option<MenuAction> {
    if p == MENU_ID_ALPHA_PREFIX@ {
        match parse_unsigned(b, 10, u32::MAX as int) {
            Some(v) => Some(MenuAction::Alpha(id, v as u32)),
            None => None,
        }
    } else if p == MENU_ID_MODE_PREFIX@ {
        match mode_of_name(b) {
            Some(m) => Some(MenuAction::Mode(id, m)),
            None => None,
        }
    } else if p == MENU_ID_CATEGORY_PREFIX@ {
        match category_of_name(b) {
            Some(c) => Some(MenuAction::Category(id, c)),
            None => None,
        }
    } else if p == MENU_ID_PANEL_PREFIX@ {
        match panel_of_name(b) {
            Some(t) => Some(MenuAction::Panel(id, t)),
            None => None,
        }
    } else if p == MENU_ID_INTENSITY_PREFIX@ {
        match parse_fixed(b) {
            Some(v) => Some(MenuAction::Intensity(id, v as u32)),
            None => None,
        }
    } else if p == MENU_ID_OVERRIDE_PERIOD_PREFIX@ {
        match option_of_text(b) {
            Some(o) => Some(MenuAction::OverridePeriod(id, o)),
            None => None,
        }
    } else if p == MENU_ID_OVERRIDE_COVER_PREFIX@ {
        match option_of_text(b) {
            Some(o) => Some(MenuAction::OverrideCover(id, o)),
            None => None,
        }
    } else if p == MENU_ID_OVERRIDE_SPEED_PREFIX@ {
        match option_of_text(b) {
            Some(o) => Some(MenuAction::OverrideSpeed(id, o)),
            None => None,
        }
    } else {
        Some(MenuAction::PresetApply(id, b))
    }
}

/// The action of an id that starts with `p` and goes on with a monitor, ':'
/// and a value.
pub open spec fn parse_valued(p: Seq<char>, s: Seq<char>) -> Option<MenuAction> {
    match monitor_and_value(s.skip(p.len() as int)) {
        Some((id, b)) => valued_action(p, id, b),
        None => None,
    }
}

/// The action of an id that starts with `p` and goes on with a monitor only,
/// made by `f`.
pub open spec fn parse_monitor_only(p: Seq<char>, s: Seq<char>, f: spec_fn(MonitorId) -> MenuAction) -> Option<MenuAction> {
    match monitor_of_text(s.skip(p.len() as int)) {
        Some(id) => Some(f(id)),
        None => None,
    }
}

/// The action that the menu id `s` asks for: an id without a value is
/// matched whole; an id with values starts with the first prefix that fits,
/// in the order below, and its values are read after it. `None` when nothing
/// fits.
pub open spec fn parse_menu_text(s: Seq<char>) -> Option<MenuAction> {
    if s == MENU_ID_GLOBAL_TOGGLE@ {
        Some(MenuAction::GlobalToggle)
    } else if s == MENU_ID_AUTO_START@ {
        Some(MenuAction::AutoStart)
    } else if s == MENU_ID_AI_MODE_OFF@ {
        Some(MenuAction::SetAiMode(AiMode::Off))
    } else if s == MENU_ID_AI_MODE_VIGILANCE@ {
        Some(MenuAction::SetAiMode(AiMode::Vigilance))
    } else if s == MENU_ID_AI_MODE_ENHANCED@ {
        Some(MenuAction::SetAiMode(AiMode::Enhanced))
    } else if s == MENU_ID_RUN_BENCHMARK_ALL@ {
        Some(MenuAction::RunBenchmarkAll)
    } else if s == MENU_ID_QUIT@ {
        Some(MenuAction::Quit)
    } else {
        parse_prefixed(s)
    }
}

/// The action of an id that carries values, by the first prefix that fits.
pub open spec fn parse_prefixed(s: Seq<char>) -> Option<MenuAction> {
    if MENU_ID_DISPLAY_TOGGLE_PREFIX@.is_prefix_of(s) {
        parse_monitor_only(MENU_ID_DISPLAY_TOGGLE_PREFIX@, s, |id: MonitorId| MenuAction::DisplayToggle(id))
    } else if MENU_ID_ALPHA_PREFIX@.is_prefix_of(s) {
        parse_valued(MENU_ID_ALPHA_PREFIX@, s)
    } else if MENU_ID_MODE_PREFIX@.is_prefix_of(s) {
        parse_valued(MENU_ID_MODE_PREFIX@, s)
    } else if MENU_ID_CATEGORY_PREFIX@.is_prefix_of(s) {
        parse_valued(MENU_ID_CATEGORY_PREFIX@, s)
    } else if MENU_ID_PANEL_PREFIX@.is_prefix_of(s) {
        parse_valued(MENU_ID_PANEL_PREFIX@, s)
    } else {
        parse_prefixed_rest(s)
    }
}

/// The action of an id that carries values and starts with none of the
/// prefixes tried in `parse_prefixed`.
pub open spec fn parse_prefixed_rest(s: Seq<char>) -> Option<MenuAction> {
    if MENU_ID_INTENSITY_PREFIX@.is_prefix_of(s) {
        parse_valued(MENU_ID_INTENSITY_PREFIX@, s)
    } else if MENU_ID_OVERRIDE_PERIOD_PREFIX@.is_prefix_of(s) {
        parse_valued(MENU_ID_OVERRIDE_PERIOD_PREFIX@, s)
    } else if MENU_ID_OVERRIDE_COVER_PREFIX@.is_prefix_of(s) {
        parse_valued(MENU_ID_OVERRIDE_COVER_PREFIX@, s)
    } else if MENU_ID_OVERRIDE_SPEED_PREFIX@.is_prefix_of(s) {
        parse_valued(MENU_ID_OVERRIDE_SPEED_PREFIX@, s)
    } else if MENU_ID_RESET_RECOMMENDED@.is_prefix_of(s) {
        parse_monitor_only(MENU_ID_RESET_RECOMMENDED@, s, |id: MonitorId| MenuAction::ResetRecommended(id))
    } else if MENU_ID_PRESET_APPLY_PREFIX@.is_prefix_of(s) {
        parse_valued(MENU_ID_PRESET_APPLY_PREFIX@, s)
    } else if MENU_ID_PRESET_DELETE_PREFIX@.is_prefix_of(s) {
        Some(MenuAction::PresetDelete(s.skip(MENU_ID_PRESET_DELETE_PREFIX@.len() as int)))
    } else if MENU_ID_PRESET_SAVE_CURRENT@.is_prefix_of(s) {
        parse_monitor_only(MENU_ID_PRESET_SAVE_CURRENT@, s, |id: MonitorId| MenuAction::PresetSaveCurrent(id))
    } else if MENU_ID_RUN_BENCHMARK_PREFIX@.is_prefix_of(s) {
        parse_monitor_only(MENU_ID_RUN_BENCHMARK_PREFIX@, s, |id: MonitorId| MenuAction::RunBenchmark(id))
    } else if MENU_ID_PRESET_ALL_PREFIX@.is_prefix_of(s) {
        Some(MenuAction::PresetApplyAll(s.skip(MENU_ID_PRESET_ALL_PREFIX@.len() as int)))
    } else {
        None
    }
}

/// The number of characters of `s`.
fn char_count(s: &str) -> (n: usize)
    ensures
        n == s@.len(),
{
    chars_of(s).len()
}

/// Whether `v[start..end]` is exactly `lit`.
fn range_is(v: &Vec<char>, start: usize, end: usize, lit: &str) -> (b: bool)
    requires
        start <= end <= v@.len(),
    ensures
        b == (v@.subrange(start as int, end as int) == lit@),
{
    let l = chars_of(lit);
    if l.len() != end - start {
        return false;
    }
    let mut i: usize = 0;
    while i < l.len()
        invariant
            l@ == lit@,
            l@.len() == end - start,
            start <= end <= v@.len(),
            i <= l@.len(),
            forall|j: int| 0 <= j < i ==> #[trigger] l@[j] == v@[start + j],
        decreases l@.len() - i,
    {
        if l[i] != v[start + i] {
            assert(v@.subrange(start as int, end as int)[i as int] != lit@[i as int]);
            return false;
        }
        i = i + 1;
    }
    assert(v@.subrange(start as int, end as int) =~= lit@);
    true
}

/// Whether `v` starts with `lit`.
fn starts_with(v: &Vec<char>, lit: &str) -> (b: bool)
    ensures
        b == lit@.is_prefix_of(v@),
{
    let n = char_count(lit);
    if n > v.len() {
        return false;
    }
    range_is(v, 0, n, lit)
}

/// The characters `v[start..end]` as a `String`.
fn string_of(v: &Vec<char>, start: usize, end: usize) -> (s: String)
    requires
        start <= end <= v@.len(),
    ensures
        s@ == v@.subrange(start as int, end as int),
{
    let mut out: Vec<char> = Vec::new();
    let mut i: usize = start;
    while i < end
        invariant
            start <= i <= end <= v@.len(),
            out@ == v@.subrange(start as int, i as int),
        decreases end - i,
    {
        out.push(v[i]);
        i = i + 1;
        assert(out@ =~= v@.subrange(start as int, i as int));
    }
    string_from_chars(&out)
}

/// The monitor written in `v[start..end]`.
fn monitor_in(v: &Vec<char>, start: usize, end: usize) -> (r: Option<MonitorId>)
    requires
        start <= end <= v@.len(),
    ensures
        r == monitor_of_text(v@.subrange(start as int, end as int)),
{
    let ghost t = v@.subrange(start as int, end as int);
    if end - start >= 2 && v[start] == '0' && v[start + 1] == 'x' {
        proof {
            assert(t.skip(2) =~= v@.subrange(start + 2, end as int));
        }
        match parse_unsigned_chars(v, start + 2, end, 16, u64::MAX) {
            Some(x) => Some(MonitorId(x)),
            None => None,
        }
    } else {
        None
    }
}

/// The monitor before the only ':' of `v[start..]`, and where the value
/// after that ':' starts.
fn monitor_and_value_in(v: &Vec<char>, start: usize) -> (r: Option<(MonitorId, usize)>)
    requires
        start <= v@.len(),
    ensures
        match r {
            Some((id, b)) => start < b <= v@.len() && monitor_and_value(v@.skip(start as int)) == Some(
                (id, v@.skip(b as int)),
            ),
            None => monitor_and_value(v@.skip(start as int)) is None,
        },
{
    let ghost t = v@.skip(start as int);
    let mut colon: Option<usize> = None;
    let mut i: usize = start;
    while i < v.len()
        invariant
            start <= i <= v@.len(),
            t == v@.skip(start as int),
            match colon {
                Some(c) => start <= c < i && v@[c as int] == ':' && forall|j: int|
                    start <= j < i && #[trigger] v@[j] == ':' ==> j == c,
                None => forall|j: int| start <= j < i ==> #[trigger] v@[j] != ':',
            },
        decreases v@.len() - i,
    {
        if v[i] == ':' {
            match colon {
                Some(c) => {
                    proof {
                        assert forall|k: int| !single_colon_at(t, k) by {
                            if single_colon_at(t, k) {
                                assert(t[c - start] == v@[c as int]);
                                assert(t[i - start] == v@[i as int]);
                            }
                        }
                    }
                    return None;
                },
                None => {
                    colon = Some(i);
                },
            }
        }
        i = i + 1;
    }
    match colon {
        None => {
            proof {
                assert forall|k: int| !single_colon_at(t, k) by {
                    if 0 <= k < t.len() {
                        assert(t[k] == v@[start + k]);
                    }
                }
            }
            None
        },
        Some(c) => {
            proof {
                let k = c - start;
                assert(t[k] == v@[c as int]);
                assert forall|j: int| 0 <= j < t.len() && #[trigger] t[j] == ':' implies j == k by {
                    assert(t[j] == v@[start + j]);
                }
                assert(single_colon_at(t, k));
                let k2 = choose|k2: int| single_colon_at(t, k2);
                assert(k2 == k);
                assert(t.take(k) =~= v@.subrange(start as int, c as int));
                assert(t.skip(k + 1) =~= v@.skip(c + 1));
            }
            match monitor_in(v, start, c) {
                Some(id) => Some((id, c + 1)),
                None => None,
            }
        },
    }
}

/// The filter mode named `v[start..]`.
fn mode_in(v: &Vec<char>, start: usize) -> (r: Option<FilterMode>)
    requires
        start <= v@.len(),
    ensures
        r == mode_of_name(v@.skip(start as int)),
{
    let end = v.len();
    assert(v@.skip(start as int) =~= v@.subrange(start as int, end as int));
    if range_is(v, start, end, "BlackLayer") {
        Some(FilterMode::BlackLayer)
    } else if range_is(v, start, end, "VerticalLouver") {
        Some(FilterMode::VerticalLouver)
    } else if range_is(v, start, end, "AIOcrInterference") {
        Some(FilterMode::AIOcrInterference)
    } else if range_is(v, start, end, "HighIntensitySPD") {
        Some(FilterMode::HighIntensitySPD)
    } else if range_is(v, start, end, "StealthDark") {
        Some(FilterMode::StealthDark)
    } else if range_is(v, start, end, "StealthLight") || range_is(v, start, end, "StealthLightSubpixel") {
        Some(FilterMode::StealthLight)
    } else {
        None
    }
}

/// The panel type named `v[start..]`.
fn panel_in(v: &Vec<char>, start: usize) -> (r: Option<PanelType>)
    requires
        start <= v@.len(),
    ensures
        r == panel_of_name(v@.skip(start as int)),
{
    let end = v.len();
    assert(v@.skip(start as int) =~= v@.subrange(start as int, end as int));
    if range_is(v, start, end, "Unknown") {
        Some(PanelType::Unknown)
    } else if range_is(v, start, end, "Oled") {
        Some(PanelType::Oled)
    } else if range_is(v, start, end, "LcdIps") {
        Some(PanelType::LcdIps)
    } else if range_is(v, start, end, "LcdTn") {
        Some(PanelType::LcdTn)
    } else {
        None
    }
}

/// The display category named `v[start..]`.
fn category_in(v: &Vec<char>, start: usize) -> (r: Option<DisplayCategory>)
    requires
        start <= v@.len(),
    ensures
        r == category_of_name(v@.skip(start as int)),
{
    let end = v.len();
    assert(v@.skip(start as int) =~= v@.subrange(start as int, end as int));
    if range_is(v, start, end, "NotebookFhd") {
        Some(DisplayCategory::NotebookFhd)
    } else if range_is(v, start, end, "NotebookHiDpi") {
        Some(DisplayCategory::NotebookHiDpi)
    } else if range_is(v, start, end, "ExternalLarge4K") {
        Some(DisplayCategory::ExternalLarge4K)
    } else if range_is(v, start, end, "ExternalGeneral") {
        Some(DisplayCategory::ExternalGeneral)
    } else {
        None
    }
}

/// The optional override written `v[start..]`.
fn option_in(v: &Vec<char>, start: usize) -> (r: Option<Option<u32>>)
    requires
        start <= v@.len(),
    ensures
        r == option_of_text(v@.skip(start as int)),
{
    let end = v.len();
    let ghost t = v@.skip(start as int);
    assert(t =~= v@.subrange(start as int, end as int));
    if range_is(v, start, end, "None") {
        return Some(None);
    }
    if end - start >= 6 && range_is(v, start, start + 5, "Some(") && v[end - 1] == ')' {
        proof {
            assert(t.take(5) =~= v@.subrange(start as int, start + 5));
            assert(t.subrange(5, t.len() - 1) =~= v@.subrange(start + 5, end - 1));
        }
        match parse_fixed_chars(v, start + 5, end - 1) {
            Some(x) => Some(Some(x)),
            None => None,
        }
    } else {
        proof {
            if t.len() >= 6 && t.last() == ')' {
                assert(t.take(5) =~= v@.subrange(start as int, start + 5));
            }
        }
        None
    }
}

/// Reads the menu id `id` into the command it stands for; `None` for an id
/// that names no command.
pub fn parse_menu_id(id: &str) -> (r: Option<MenuCommand>)
    ensures
        match r {
            Some(c) => parse_menu_text(id@) == Some(c@),
            None => parse_menu_text(id@) is None,
        },
{
    let v = chars_of(id);
    let n = v.len();
    assert(v@.skip(0) =~= v@);
    if range_is(&v, 0, n, MENU_ID_GLOBAL_TOGGLE) {
        return Some(MenuCommand::GlobalToggle);
    }
    if range_is(&v, 0, n, MENU_ID_AUTO_START) {
        return Some(MenuCommand::AutoStart);
    }
    if range_is(&v, 0, n, MENU_ID_AI_MODE_OFF) {
        return Some(MenuCommand::SetAiMode(AiMode::Off));
    }
    if range_is(&v, 0, n, MENU_ID_AI_MODE_VIGILANCE) {
        return Some(MenuCommand::SetAiMode(AiMode::Vigilance));
    }
    if range_is(&v, 0, n, MENU_ID_AI_MODE_ENHANCED) {
        return Some(MenuCommand::SetAiMode(AiMode::Enhanced));
    }
    if range_is(&v, 0, n, MENU_ID_RUN_BENCHMARK_ALL) {
        return Some(MenuCommand::RunBenchmarkAll);
    }
    if range_is(&v, 0, n, MENU_ID_QUIT) {
        return Some(MenuCommand::Quit);
    }
    parse_prefixed_id(&v)
}

/// Reads an id that carries values.
fn parse_prefixed_id(v: &Vec<char>) -> (r: Option<MenuCommand>)
    ensures
        match r {
            Some(c) => parse_prefixed(v@) == Some(c@),
            None => parse_prefixed(v@) is None,
        },
{
    let n = v.len();
    if starts_with(v, MENU_ID_DISPLAY_TOGGLE_PREFIX) {
        let k = char_count(MENU_ID_DISPLAY_TOGGLE_PREFIX);
        assert(v@.skip(k as int) =~= v@.subrange(k as int, n as int));
        return match monitor_in(v, k, n) {
            Some(m) => Some(MenuCommand::DisplayToggle(m)),
            None => None,
        };
    }
    if starts_with(v, MENU_ID_ALPHA_PREFIX) {
        let k = char_count(MENU_ID_ALPHA_PREFIX);
        return match monitor_and_value_in(v, k) {
            Some((m, b)) => {
                assert(v@.skip(b as int) =~= v@.subrange(b as int, n as int));
                match parse_unsigned_chars(v, b, n, 10, 4294967295) {
                    Some(x) => Some(MenuCommand::Alpha(m, x as u32)),
                    None => None,
                }
            },
            None => None,
        };
    }
    if starts_with(v, MENU_ID_MODE_PREFIX) {
        let k = char_count(MENU_ID_MODE_PREFIX);
        return match monitor_and_value_in(v, k) {
            Some((m, b)) => match mode_in(v, b) {
                Some(x) => Some(MenuCommand::Mode(m, x)),
                None => None,
            },
            None => None,
        };
    }
    if starts_with(v, MENU_ID_CATEGORY_PREFIX) {
        let k = char_count(MENU_ID_CATEGORY_PREFIX);
        return match monitor_and_value_in(v, k) {
            Some((m, b)) => match category_in(v, b) {
                Some(x) => Some(MenuCommand::Category(m, x)),
                None => None,
            },
            None => None,
        };
    }
    if starts_with(v, MENU_ID_PANEL_PREFIX) {
        let k = char_count(MENU_ID_PANEL_PREFIX);
        return match monitor_and_value_in(v, k) {
            Some((m, b)) => match panel_in(v, b) {
                Some(x) => Some(MenuCommand::Panel(m, x)),
                None => None,
            },
            None => None,
        };
    }
    parse_prefixed_rest_id(v)
}

/// Reads an id that carries values and starts with none of the prefixes
/// tried in `parse_prefixed_id`.
#[verifier::rlimit(30)]
fn parse_prefixed_rest_id(v: &Vec<char>) -> (r: Option<MenuCommand>)
    requires
        !MENU_ID_ALPHA_PREFIX@.is_prefix_of(v@),
        !MENU_ID_MODE_PREFIX@.is_prefix_of(v@),
        !MENU_ID_CATEGORY_PREFIX@.is_prefix_of(v@),
        !MENU_ID_PANEL_PREFIX@.is_prefix_of(v@),
    ensures
        match r {
            Some(c) => parse_prefixed_rest(v@) == Some(c@),
            None => parse_prefixed_rest(v@) is None,
        },
{
    let n = v.len();
    if starts_with(v, MENU_ID_INTENSITY_PREFIX) {
        let k = char_count(MENU_ID_INTENSITY_PREFIX);
        return match monitor_and_value_in(v, k) {
            Some((m, b)) => {
                assert(v@.skip(b as int) =~= v@.subrange(b as int, n as int));
                match parse_fixed_chars(v, b, n) {
                    Some(x) => Some(MenuCommand::Intensity(m, x)),
                    None => None,
                }
            },
            None => None,
        };
    }
    if starts_with(v, MENU_ID_OVERRIDE_PERIOD_PREFIX) {
        let k = char_count(MENU_ID_OVERRIDE_PERIOD_PREFIX);
        return match monitor_and_value_in(v, k) {
            Some((m, b)) => match option_in(v, b) {
                Some(x) => Some(MenuCommand::OverridePeriod(m, x)),
                None => None,
            },
            None => None,
        };
    }
    if starts_with(v, MENU_ID_OVERRIDE_COVER_PREFIX) {
        let k = char_count(MENU_ID_OVERRIDE_COVER_PREFIX);
        return match monitor_and_value_in(v, k) {
            Some((m, b)) => match option_in(v, b) {
                Some(x) => Some(MenuCommand::OverrideCover(m, x)),
                None => None,
            },
            None => None,
        };
    }
    if starts_with(v, MENU_ID_OVERRIDE_SPEED_PREFIX) {
        let k = char_count(MENU_ID_OVERRIDE_SPEED_PREFIX);
        return match monitor_and_value_in(v, k) {
            Some((m, b)) => match option_in(v, b) {
                Some(x) => Some(MenuCommand::OverrideSpeed(m, x)),
                None => None,
            },
            None => None,
        };
    }
    if starts_with(v, MENU_ID_RESET_RECOMMENDED) {
        let k = char_count(MENU_ID_RESET_RECOMMENDED);
        assert(v@.skip(k as int) =~= v@.subrange(k as int, n as int));
        return match monitor_in(v, k, n) {
            Some(m) => Some(MenuCommand::ResetRecommended(m)),
            None => None,
        };
    }
    if starts_with(v, MENU_ID_PRESET_APPLY_PREFIX) {
        let k = char_count(MENU_ID_PRESET_APPLY_PREFIX);
        return match monitor_and_value_in(v, k) {
            Some((m, b)) => {
                assert(v@.skip(b as int) =~= v@.subrange(b as int, n as int));
                Some(MenuCommand::PresetApply(m, string_of(v, b, n)))
            },
            None => None,
        };
    }
    if starts_with(v, MENU_ID_PRESET_DELETE_PREFIX) {
        let k = char_count(MENU_ID_PRESET_DELETE_PREFIX);
        assert(v@.skip(k as int) =~= v@.subrange(k as int, n as int));
        return Some(MenuCommand::PresetDelete(string_of(v, k, n)));
    }
    if starts_with(v, MENU_ID_PRESET_SAVE_CURRENT) {
        let k = char_count(MENU_ID_PRESET_SAVE_CURRENT);
        assert(v@.skip(k as int) =~= v@.subrange(k as int, n as int));
        return match monitor_in(v, k, n) {
            Some(m) => Some(MenuCommand::PresetSaveCurrent(m)),
            None => None,
        };
    }
    if starts_with(v, MENU_ID_RUN_BENCHMARK_PREFIX) {
        let k = char_count(MENU_ID_RUN_BENCHMARK_PREFIX);
        assert(v@.skip(k as int) =~= v@.subrange(k as int, n as int));
        return match monitor_in(v, k, n) {
            Some(m) => Some(MenuCommand::RunBenchmark(m)),
            None => None,
        };
    }
    if starts_with(v, MENU_ID_PRESET_ALL_PREFIX) {
        let k = char_count(MENU_ID_PRESET_ALL_PREFIX);
        assert(v@.skip(k as int) =~= v@.subrange(k as int, n as int));
        return Some(MenuCommand::PresetApplyAll(string_of(v, k, n)));
    }
    None
}

/// The menu id of an action.
pub open spec fn menu_text(a: MenuAction) -> Seq<char> {
    match a {
        MenuAction::GlobalToggle => MENU_ID_GLOBAL_TOGGLE@,
        MenuAction::DisplayToggle(id) => MENU_ID_DISPLAY_TOGGLE_PREFIX@ + monitor_id_text(id),
        MenuAction::Alpha(id, p) => MENU_ID_ALPHA_PREFIX@ + monitor_id_text(id) + seq![':'] + decimal(
            p as nat,
        ),
        MenuAction::Mode(id, m) => MENU_ID_MODE_PREFIX@ + monitor_id_text(id) + seq![':'] + mode_name(m),
        MenuAction::Panel(id, t) => MENU_ID_PANEL_PREFIX@ + monitor_id_text(id) + seq![':'] + panel_name(t),
        MenuAction::Category(id, c) => MENU_ID_CATEGORY_PREFIX@ + monitor_id_text(id) + seq![':']
            + category_name(c),
        MenuAction::Intensity(id, v) => MENU_ID_INTENSITY_PREFIX@ + monitor_id_text(id) + seq![':']
            + fixed_text(v as nat, false),
        MenuAction::OverridePeriod(id, o) => MENU_ID_OVERRIDE_PERIOD_PREFIX@ + monitor_id_text(id)
            + seq![':'] + option_text(o),
        MenuAction::OverrideCover(id, o) => MENU_ID_OVERRIDE_COVER_PREFIX@ + monitor_id_text(id)
            + seq![':'] + option_text(o),
        MenuAction::OverrideSpeed(id, o) => MENU_ID_OVERRIDE_SPEED_PREFIX@ + monitor_id_text(id)
            + seq![':'] + option_text(o),
        MenuAction::ResetRecommended(id) => MENU_ID_RESET_RECOMMENDED@ + monitor_id_text(id),
        MenuAction::PresetApply(id, n) => MENU_ID_PRESET_APPLY_PREFIX@ + monitor_id_text(id) + seq![':']
            + n,
        MenuAction::PresetDelete(n) => MENU_ID_PRESET_DELETE_PREFIX@ + n,
        MenuAction::PresetApplyAll(n) => MENU_ID_PRESET_ALL_PREFIX@ + n,
        MenuAction::PresetSaveCurrent(id) => MENU_ID_PRESET_SAVE_CURRENT@ + monitor_id_text(id),
        MenuAction::RunBenchmark(id) => MENU_ID_RUN_BENCHMARK_PREFIX@ + monitor_id_text(id),
        MenuAction::RunBenchmarkAll => MENU_ID_RUN_BENCHMARK_ALL@,
        MenuAction::AutoStart => MENU_ID_AUTO_START@,
        MenuAction::SetAiMode(AiMode::Off) => MENU_ID_AI_MODE_OFF@,
        MenuAction::SetAiMode(AiMode::Vigilance) => MENU_ID_AI_MODE_VIGILANCE@,
        MenuAction::SetAiMode(AiMode::Enhanced) => MENU_ID_AI_MODE_ENHANCED@,
        MenuAction::Quit => MENU_ID_QUIT@,
    }
}

/// The name of `m` in menu ids.
fn mode_name_str(m: FilterMode) -> (s: &'static str)
    ensures
        s@ == mode_name(m),
{
    match m {
        FilterMode::BlackLayer => "BlackLayer",
        FilterMode::VerticalLouver => "VerticalLouver",
        FilterMode::AIOcrInterference => "AIOcrInterference",
        FilterMode::HighIntensitySPD => "HighIntensitySPD",
        FilterMode::StealthDark => "StealthDark",
        FilterMode::StealthLight => "StealthLight",
    }
}

/// The name of `t` in menu ids.
fn panel_name_str(t: PanelType) -> (s: &'static str)
    ensures
        s@ == panel_name(t),
{
    match t {
        PanelType::Unknown => "Unknown",
        PanelType::Oled => "Oled",
        PanelType::LcdIps => "LcdIps",
        PanelType::LcdTn => "LcdTn",
    }
}

/// The name of `c` in menu ids.
fn category_name_str(c: DisplayCategory) -> (s: &'static str)
    ensures
        s@ == category_name(c),
{
    match c {
        DisplayCategory::NotebookFhd => "NotebookFhd",
        DisplayCategory::NotebookHiDpi => "NotebookHiDpi",
        DisplayCategory::ExternalLarge4K => "ExternalLarge4K",
        DisplayCategory::ExternalGeneral => "ExternalGeneral",
        DisplayCategory::Unknown => "Unknown",
    }
}

/// Appends `option_text(o)` to `out`.
fn push_option(out: &mut Vec<char>, o: Option<u32>)
    ensures
        final(out)@ == old(out)@ + option_text(o),
{
    match o {
        None => push_str(out, "None"),
        Some(v) => {
            push_str(out, "Some(");
            push_fixed(out, v, true);
            push_str(out, ")");
            assert(out@ =~= old(out)@ + option_text(o));
        },
    }
}

/// Appends `prefix`, the monitor `id` and, when `colon` is set, a ':'.
fn push_head(out: &mut Vec<char>, prefix: &str, id: MonitorId, colon: bool)
    ensures
        final(out)@ == old(out)@ + prefix@ + monitor_id_text(id) + if colon {
            seq![':']
        } else {
            Seq::<char>::empty()
        },
{
    push_str(out, prefix);
    push_str(out, "0x");
    push_hexadecimal(out, id.0);
    if colon {
        out.push(':');
    }
    assert(out@ =~= old(out)@ + prefix@ + monitor_id_text(id) + if colon {
        seq![':']
    } else {
        Seq::<char>::empty()
    });
}

impl MenuCommand {
    /// The menu id of this command.
    pub fn to_menu_id(&self) -> (s: String)
        ensures
            s@ == menu_text(self@),
    {
        let mut out: Vec<char> = Vec::new();
        match self {
            MenuCommand::GlobalToggle => push_str(&mut out, MENU_ID_GLOBAL_TOGGLE),
            MenuCommand::DisplayToggle(id) => push_head(&mut out, MENU_ID_DISPLAY_TOGGLE_PREFIX, *id, false),
            MenuCommand::Alpha(id, p) => {
                push_head(&mut out, MENU_ID_ALPHA_PREFIX, *id, true);
                push_decimal(&mut out, *p as u64);
            },
            MenuCommand::Mode(id, m) => {
                push_head(&mut out, MENU_ID_MODE_PREFIX, *id, true);
                push_str(&mut out, mode_name_str(*m));
            },
            MenuCommand::Panel(id, t) => {
                push_head(&mut out, MENU_ID_PANEL_PREFIX, *id, true);
                push_str(&mut out, panel_name_str(*t));
            },
            MenuCommand::Category(id, c) => {
                push_head(&mut out, MENU_ID_CATEGORY_PREFIX, *id, true);
                push_str(&mut out, category_name_str(*c));
            },
            MenuCommand::Intensity(id, v) => {
                push_head(&mut out, MENU_ID_INTENSITY_PREFIX, *id, true);
                push_fixed(&mut out, *v, false);
            },
            MenuCommand::OverridePeriod(id, o) => {
                push_head(&mut out, MENU_ID_OVERRIDE_PERIOD_PREFIX, *id, true);
                push_option(&mut out, *o);
            },
            MenuCommand::OverrideCover(id, o) => {
                push_head(&mut out, MENU_ID_OVERRIDE_COVER_PREFIX, *id, true);
                push_option(&mut out, *o);
            },
            MenuCommand::OverrideSpeed(id, o) => {
                push_head(&mut out, MENU_ID_OVERRIDE_SPEED_PREFIX, *id, true);
                push_option(&mut out, *o);
            },
            MenuCommand::ResetRecommended(id) => push_head(&mut out, MENU_ID_RESET_RECOMMENDED, *id, false),
            MenuCommand::PresetApply(id, n) => {
                push_head(&mut out, MENU_ID_PRESET_APPLY_PREFIX, *id, true);
                push_str(&mut out, n.as_str());
            },
            MenuCommand::PresetDelete(n) => {
                push_str(&mut out, MENU_ID_PRESET_DELETE_PREFIX);
                push_str(&mut out, n.as_str());
            },
            MenuCommand::PresetApplyAll(n) => {
                push_str(&mut out, MENU_ID_PRESET_ALL_PREFIX);
                push_str(&mut out, n.as_str());
            },
            MenuCommand::PresetSaveCurrent(id) => push_head(&mut out, MENU_ID_PRESET_SAVE_CURRENT, *id, false),
            MenuCommand::RunBenchmark(id) => push_head(&mut out, MENU_ID_RUN_BENCHMARK_PREFIX, *id, false),
            MenuCommand::RunBenchmarkAll => push_str(&mut out, MENU_ID_RUN_BENCHMARK_ALL),
            MenuCommand::AutoStart => push_str(&mut out, MENU_ID_AUTO_START),
            MenuCommand::SetAiMode(AiMode::Off) => push_str(&mut out, MENU_ID_AI_MODE_OFF),
            MenuCommand::SetAiMode(AiMode::Vigilance) => push_str(&mut out, MENU_ID_AI_MODE_VIGILANCE),
            MenuCommand::SetAiMode(AiMode::Enhanced) => push_str(&mut out, MENU_ID_AI_MODE_ENHANCED),
            MenuCommand::Quit => push_str(&mut out, MENU_ID_QUIT),
        }
        assert(out@ =~= menu_text(self@));
        string_from_chars(&out)
    }
}

/// An action whose id reads back as itself: a preset applied from the menu
/// has a name without ':', and the category chosen is a known one.
pub open spec fn menu_action_well_formed(a: MenuAction) -> bool {
    match a {
        MenuAction::PresetApply(_, n) => forall|i: int| 0 <= i < n.len() ==> n[i] != ':',
        MenuAction::Category(_, c) => c != DisplayCategory::Unknown,
        _ => true,
    }
}

/// A monitor's text reads back as the monitor and has no ':'.
pub(crate) proof fn lemma_monitor_text(id: MonitorId)
    ensures
        monitor_of_text(monitor_id_text(id)) == Some(id),
        forall|i: int| 0 <= i < monitor_id_text(id).len() ==> monitor_id_text(id)[i] != ':',
{
    reveal_strlit("0x");
    let t = monitor_id_text(id);
    lemma_parse_hexadecimal(id.0);
    lemma_hexadecimal_value(id.0 as nat);
    assert(t.skip(2) =~= hexadecimal(id.0 as nat));
    assert forall|i: int| 0 <= i < t.len() implies t[i] != ':' by {
        if i >= 2 {
            assert(t[i] == hexadecimal(id.0 as nat)[i - 2]);
        }
    }
}

/// `a`, ':' and `b` split at that ':' when neither part has one.
pub(crate) proof fn lemma_split_colon(a: Seq<char>, b: Seq<char>)
    requires
        forall|i: int| 0 <= i < a.len() ==> a[i] != ':',
        forall|i: int| 0 <= i < b.len() ==> b[i] != ':',
    ensures
        split_colon(a + seq![':'] + b) == Some((a, b)),
{
    let s = a + seq![':'] + b;
    let k = a.len() as int;
    assert forall|j: int| 0 <= j < s.len() && #[trigger] s[j] == ':' implies j == k by {
        if j < k {
            assert(s[j] == a[j]);
        }
        if j > k {
            assert(s[j] == b[j - k - 1]);
        }
    }
    assert(single_colon_at(s, k));
    let i = choose|i: int| single_colon_at(s, i);
    assert(i == k);
    assert(s.take(k) =~= a);
    assert(s.skip(k + 1) =~= b);
}

/// The id of an action with a monitor and a value is read as that monitor
/// and that value.
pub(crate) proof fn lemma_monitor_and_value(p: Seq<char>, id: MonitorId, b: Seq<char>)
    requires
        forall|i: int| 0 <= i < b.len() ==> b[i] != ':',
    ensures
        p.is_prefix_of(p + monitor_id_text(id) + seq![':'] + b),
        parse_valued(p, p + monitor_id_text(id) + seq![':'] + b) == valued_action(p, id, b),
{
    let s = p + monitor_id_text(id) + seq![':'] + b;
    lemma_monitor_text(id);
    lemma_split_colon(monitor_id_text(id), b);
    assert(s.skip(p.len() as int) =~= monitor_id_text(id) + seq![':'] + b);
    assert(s.subrange(0, p.len() as int) =~= p);
}

/// The id of an action with a monitor only is read as that monitor.
pub(crate) proof fn lemma_monitor_only(p: Seq<char>, id: MonitorId)
    ensures
        p.is_prefix_of(p + monitor_id_text(id)),
        (p + monitor_id_text(id)).skip(p.len() as int) == monitor_id_text(id),
        monitor_of_text(monitor_id_text(id)) == Some(id),
{
    let s = p + monitor_id_text(id);
    lemma_monitor_text(id);
    assert(s.skip(p.len() as int) =~= monitor_id_text(id));
    assert(s.subrange(0, p.len() as int) =~= p);
}

/// An optional override written out reads back as itself, without ':'.
pub(crate) proof fn lemma_option_text(o: Option<u32>)
    ensures
        option_of_text(option_text(o)) == Some(o),
        forall|i: int| 0 <= i < option_text(o).len() ==> option_text(o)[i] != ':',
{
    reveal_strlit("None");
    reveal_strlit("Some(");
    reveal_strlit(")");
    match o {
        None => {},
        Some(v) => {
            let f = fixed_text(v as nat, true);
            let t = option_text(o);
            lemma_parse_fixed(v, true);
            lemma_fixed_text_plain(v as nat, true);
            assert(t.take(5) =~= "Some("@);
            assert(t.subrange(5, t.len() - 1) =~= f);
            assert forall|i: int| 0 <= i < t.len() implies t[i] != ':' by {
                if 5 <= i < t.len() - 1 {
                    assert(t[i] == f[i - 5]);
                }
            }
        },
    }
}

} // verus!
