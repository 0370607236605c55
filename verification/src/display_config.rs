//! Per-display configuration: filter modes, panel and display categories,
//! the recommended filter profile of each category, and the settings a
//! display carries.
//!
//! Fractional quantities (alpha, intensity, millimetres, PPI, ratios, hertz)
//! are held in fixed point: an integer count of ten-thousandths, so that
//! `UNIT` stands for 1.0.
use vstd::prelude::*;
use crate::text::{
    decimal, hexadecimal, push_decimal, push_hexadecimal, push_signed_decimal, push_str, signed_decimal,
    string_from_chars,
};

verus! {

/// The fixed-point representation of 1.0: every fractional quantity of the
/// library is an integer count of `1 / UNIT`.
pub const UNIT: u32 = 10000;

/// The pattern an overlay draws.
#[derive(Debug, Clone, Copy, PartialEq, Eq, Structural)]
pub enum FilterMode {
    BlackLayer,
    VerticalLouver,
    AIOcrInterference,
    HighIntensitySPD,
    StealthDark,
    StealthLight,
}

/// Size and use of a display, which decides its recommended profile.
#[derive(Debug, Clone, Copy, PartialEq, Eq, Structural)]
pub enum DisplayCategory {
    /// Built-in display (up to about 16 inches), FHD or less (PPI below 180).
    NotebookFhd,
    /// Built-in display (up to about 16 inches), 2K/QHD or more (PPI 180 and up).
    NotebookHiDpi,
    /// External display of 27 inches or more at 4K or more.
    ExternalLarge4K,
    /// Any other external display (FHD/QHD, around 24 inches).
    ExternalGeneral,
    /// Not decided (for instance right after a hot-plug).
    Unknown,
}

/// Panel technology of a display.
#[derive(Debug, Clone, Copy, PartialEq, Eq, Structural)]
pub enum PanelType {
    Unknown,
    Oled,
    LcdIps,
    LcdTn,
}

/// The label of a panel type shown to the user.
pub open spec fn panel_label(p: PanelType) -> Seq<char> {
    match p {
        PanelType::Unknown => "Unknown"@,
        PanelType::Oled => "OLED"@,
        PanelType::LcdIps => "LCD IPS"@,
        PanelType::LcdTn => "LCD TN"@,
    }
}

impl PanelType {
    /// The label of this panel type.
    pub fn to_str(self) -> (s: &'static str)
        ensures
            s@ == panel_label(self),
    {
        match self {
            PanelType::Unknown => "Unknown",
            PanelType::Oled => "OLED",
            PanelType::LcdIps => "LCD IPS",
            PanelType::LcdTn => "LCD TN",
        }
    }
}

/// Identifier of a monitor, as the platform reports it.
#[derive(Debug, Clone, Copy, PartialEq, Eq, Hash, PartialOrd, Ord, Structural)]
pub struct MonitorId(pub u64);

/// The text of a monitor id: "0x" followed by its lowercase hexadecimal value.
pub open spec fn monitor_id_text(id: MonitorId) -> Seq<char> {
    "0x"@ + hexadecimal(id.0 as nat)
}

impl MonitorId {
    /// The id written as "0x" and lowercase hexadecimal digits.
    pub fn to_hex_string(&self) -> (s: String)
        ensures
            s@ == monitor_id_text(*self),
    {
        let mut out: Vec<char> = Vec::new();
        push_str(&mut out, "0x");
        push_hexadecimal(&mut out, self.0);
        string_from_chars(&out)
    }
}

/// Recommended filter parameters of a display category.
#[derive(Debug, Clone, Copy, PartialEq, Eq, Structural)]
pub struct DisplayProfile {
    pub category: DisplayCategory,
    /// Estimated pixels per inch, in ten-thousandths.
    pub ppi: u32,
    /// Physical width of one stripe period, in ten-thousandths of a
    /// millimetre.
    pub period_mm: u32,
    /// Share of a period that is covered, in ten-thousandths (10000 covers
    /// it all).
    pub cover_ratio: u32,
    /// Scroll speed in ten-thousandths of a millimetre per second.
    pub scroll_speed_mm_per_sec: u32,
    /// Phase flip frequency in ten-thousandths of a hertz.
    pub phase_flip_hz: u32,
    /// Whether the pattern runs in both directions (a grid) or only vertically.
    pub bidirectional: bool,
}

/// The recommended profile of a category on a panel that is not OLED.
pub open spec fn base_profile(category: DisplayCategory) -> DisplayProfile {
    match category {
        DisplayCategory::NotebookFhd => DisplayProfile {
            category,
            ppi: 1570000,
            period_mm: 5000,
            cover_ratio: 7500,
            scroll_speed_mm_per_sec: 100000,
            phase_flip_hz: 0,
            bidirectional: true,
        },
        DisplayCategory::NotebookHiDpi => DisplayProfile {
            category,
            ppi: 2200000,
            period_mm: 5000,
            cover_ratio: 8000,
            scroll_speed_mm_per_sec: 50000,
            phase_flip_hz: 0,
            bidirectional: true,
        },
        DisplayCategory::ExternalLarge4K => DisplayProfile {
            category,
            ppi: 1630000,
            period_mm: 6000,
            cover_ratio: 4500,
            scroll_speed_mm_per_sec: 100000,
            phase_flip_hz: 250000,
            bidirectional: true,
        },
        DisplayCategory::ExternalGeneral => DisplayProfile {
            category,
            ppi: 920000,
            period_mm: 6000,
            cover_ratio: 4500,
            scroll_speed_mm_per_sec: 0,
            phase_flip_hz: 280000,
            bidirectional: false,
        },
        DisplayCategory::Unknown => DisplayProfile {
            category,
            ppi: 1100000,
            period_mm: 5000,
            cover_ratio: 5000,
            scroll_speed_mm_per_sec: 50000,
            phase_flip_hz: 300000,
            bidirectional: true,
        },
    }
}

/// The recommended profile of a category on a panel: an OLED panel covers
/// 0.05 more of each period and scrolls 1.2 times as fast.
pub open spec fn recommended_profile(category: DisplayCategory, panel_type: PanelType) -> DisplayProfile {
    let b = base_profile(category);
    if panel_type == PanelType::Oled {
        DisplayProfile {
            category: b.category,
            ppi: b.ppi,
            period_mm: b.period_mm,
            cover_ratio: (b.cover_ratio + 500) as u32,
            scroll_speed_mm_per_sec: (b.scroll_speed_mm_per_sec * 6 / 5) as u32,
            phase_flip_hz: b.phase_flip_hz,
            bidirectional: b.bidirectional,
        }
    } else {
        b
    }
}

/// The filter mode recommended on a panel type.
pub open spec fn recommended_mode(panel_type: PanelType) -> FilterMode {
    match panel_type {
        PanelType::Unknown => FilterMode::BlackLayer,
        _ => FilterMode::HighIntensitySPD,
    }
}

/// The filter intensity recommended for a category.
pub open spec fn recommended_intensity_of(category: DisplayCategory) -> u32 {
    match category {
        DisplayCategory::NotebookHiDpi => 7500,
        DisplayCategory::ExternalLarge4K => 15000,
        _ => 10000,
    }
}

/// The alpha recommended for every display (0.30).
pub open spec fn recommended_alpha_value() -> u32 {
    3000
}

/// The contrast jammer's intensity scale of a category.
pub open spec fn intensity_scale_of(category: DisplayCategory) -> u32 {
    match category {
        DisplayCategory::NotebookFhd => 10000,
        DisplayCategory::NotebookHiDpi => 8000,
        DisplayCategory::ExternalLarge4K => 14000,
        DisplayCategory::ExternalGeneral => 11000,
        DisplayCategory::Unknown => 10000,
    }
}

/// A length in millimetres converted to pixels at `ppi` (25.4 mm per inch),
/// rounded down; `ppi` 0 stands for the profile's own PPI.
pub open spec fn mm_to_px(mm: u32, ppi: u32, profile_ppi: u32) -> u64 {
    let p = if ppi > 0 { ppi } else { profile_ppi };
    ((mm as int) * (p as int) / 254000) as u64
}

impl DisplayProfile {
    /// The recommended profile of `category` on `panel_type`.
    pub fn from_config(category: DisplayCategory, panel_type: PanelType) -> (p: Self)
        ensures
            p == recommended_profile(category, panel_type),
    {
        let mut profile = match category {
            DisplayCategory::NotebookFhd => DisplayProfile {
                category,
                ppi: 1570000,
                period_mm: 5000,
                cover_ratio: 7500,
                scroll_speed_mm_per_sec: 100000,
                phase_flip_hz: 0,
                bidirectional: true,
            },
            DisplayCategory::NotebookHiDpi => DisplayProfile {
                category,
                ppi: 2200000,
                period_mm: 5000,
                cover_ratio: 8000,
                scroll_speed_mm_per_sec: 50000,
                phase_flip_hz: 0,
                bidirectional: true,
            },
            DisplayCategory::ExternalLarge4K => DisplayProfile {
                category,
                ppi: 1630000,
                period_mm: 6000,
                cover_ratio: 4500,
                scroll_speed_mm_per_sec: 100000,
                phase_flip_hz: 250000,
                bidirectional: true,
            },
            DisplayCategory::ExternalGeneral => DisplayProfile {
                category,
                ppi: 920000,
                period_mm: 6000,
                cover_ratio: 4500,
                scroll_speed_mm_per_sec: 0,
                phase_flip_hz: 280000,
                bidirectional: false,
            },
            DisplayCategory::Unknown => DisplayProfile {
                category,
                ppi: 1100000,
                period_mm: 5000,
                cover_ratio: 5000,
                scroll_speed_mm_per_sec: 50000,
                phase_flip_hz: 300000,
                bidirectional: true,
            },
        };
        if panel_type == PanelType::Oled {
            profile.cover_ratio = profile.cover_ratio + 500;
            profile.scroll_speed_mm_per_sec = profile.scroll_speed_mm_per_sec * 6 / 5;
        }
        profile
    }

    /// The filter mode recommended on `panel_type`.
    pub fn recommended_filter_mode(&self, panel_type: PanelType) -> (m: FilterMode)
        ensures
            m == recommended_mode(panel_type),
    {
        match panel_type {
            PanelType::Unknown => FilterMode::BlackLayer,
            _ => FilterMode::HighIntensitySPD,
        }
    }

    /// The filter intensity recommended for this profile's category.
    pub fn recommended_intensity(&self) -> (v: u32)
        ensures
            v == recommended_intensity_of(self.category),
    {
        match self.category {
            DisplayCategory::NotebookHiDpi => 7500,
            DisplayCategory::ExternalLarge4K => 15000,
            _ => 10000,
        }
    }

    /// The recommended alpha (0.30).
    pub fn recommended_alpha(&self) -> (v: u32)
        ensures
            v == recommended_alpha_value(),
    {
        3000
    }

    /// The stripe period in pixels (fixed point) at `ppi`; `ppi` 0 uses the
    /// profile's PPI.
    pub fn period_px(&self, ppi: u32) -> (px: u64)
        ensures
            px == mm_to_px(self.period_mm, ppi, self.ppi),
    {
        let p: u64 = if ppi > 0 { ppi as u64 } else { self.ppi as u64 };
        assert((self.period_mm as u64) * p <= 0xffff_ffffu64 * 0xffff_ffffu64) by (nonlinear_arith)
            requires
                self.period_mm <= 0xffff_ffffu32,
                p <= 0xffff_ffffu64,
        ;
        (self.period_mm as u64) * p / 254000
    }

    /// The scroll speed in pixels per second (fixed point) at `ppi`; `ppi` 0
    /// uses the profile's PPI.
    pub fn scroll_speed_px(&self, ppi: u32) -> (px: u64)
        ensures
            px == mm_to_px(self.scroll_speed_mm_per_sec, ppi, self.ppi),
    {
        let p: u64 = if ppi > 0 { ppi as u64 } else { self.ppi as u64 };
        assert((self.scroll_speed_mm_per_sec as u64) * p <= 0xffff_ffffu64 * 0xffff_ffffu64)
            by (nonlinear_arith)
            requires
                self.scroll_speed_mm_per_sec <= 0xffff_ffffu32,
                p <= 0xffff_ffffu64,
        ;
        (self.scroll_speed_mm_per_sec as u64) * p / 254000
    }

    /// The contrast jammer's intensity scale of this profile's category.
    pub fn intensity_scale(&self) -> (v: u32)
        ensures
            v == intensity_scale_of(self.category),
    {
        match self.category {
            DisplayCategory::NotebookFhd => 10000,
            DisplayCategory::NotebookHiDpi => 8000,
            DisplayCategory::ExternalLarge4K => 14000,
            DisplayCategory::ExternalGeneral => 11000,
            DisplayCategory::Unknown => 10000,
        }
    }
}

/// The filter settings of a display, as a preset stores them.
#[derive(Debug, Clone, Copy, PartialEq, Eq, Structural)]
pub struct FilterSettings {
    pub alpha: u32,
    pub filter_mode: FilterMode,
    pub filter_intensity: u32,
    pub override_period_mm: Option<u32>,
    pub override_cover_ratio: Option<u32>,
    pub override_scroll_speed: Option<u32>,
}

/// Named filter settings.
#[derive(Debug)]
pub struct Preset {
    pub name: String,
    pub settings: FilterSettings,
}

impl Clone for Preset {
    fn clone(&self) -> (r: Self)
        ensures
            r == *self,
    {
        Preset { name: self.name.clone(), settings: self.settings }
    }
}

/// Settings of one display.
#[derive(Debug)]
pub struct DisplayConfig {
    pub enabled: bool,
    /// Opacity of the overlay, in ten-thousandths (0 to 10000).
    pub alpha: u32,
    pub filter_mode: FilterMode,
    pub panel_type: PanelType,
    /// Filter intensity in ten-thousandths (5000 to 20000 in the menu).
    pub filter_intensity: u32,
    /// "{x}_{y}_{width}_{height}" of the display, which finds its settings
    /// again after it is reconnected.
    pub position_key: String,
    /// Detected display category; the user may change it.
    pub display_category: DisplayCategory,
    /// Estimated PPI, in ten-thousandths.
    pub ppi: u32,
    /// Manual override of the stripe period, in ten-thousandths of a
    /// millimetre.
    pub override_period_mm: Option<u32>,
    /// Manual override of the cover ratio, in ten-thousandths.
    pub override_cover_ratio: Option<u32>,
    /// Manual override of the scroll speed, in ten-thousandths of a
    /// millimetre per second.
    pub override_scroll_speed: Option<u32>,
}

impl Clone for DisplayConfig {
    fn clone(&self) -> (r: Self)
        ensures
            r == *self,
    {
        DisplayConfig {
            enabled: self.enabled,
            alpha: self.alpha,
            filter_mode: self.filter_mode,
            panel_type: self.panel_type,
            filter_intensity: self.filter_intensity,
            position_key: self.position_key.clone(),
            display_category: self.display_category,
            ppi: self.ppi,
            override_period_mm: self.override_period_mm,
            override_cover_ratio: self.override_cover_ratio,
            override_scroll_speed: self.override_scroll_speed,
        }
    }
}

/// The settings of a fresh display: enabled, alpha 0.30, black layer, unknown
/// panel, intensity 1.0, no position key, unknown category, 110 PPI and no
/// overrides.
pub open spec fn is_default_config(c: DisplayConfig) -> bool {
    &&& c.enabled
    &&& c.alpha == 3000
    &&& c.filter_mode == FilterMode::BlackLayer
    &&& c.panel_type == PanelType::Unknown
    &&& c.filter_intensity == 10000
    &&& c.position_key@ == Seq::<char>::empty()
    &&& c.display_category == DisplayCategory::Unknown
    &&& c.ppi == 1100000
    &&& c.override_period_mm is None
    &&& c.override_cover_ratio is None
    &&& c.override_scroll_speed is None
}

impl Default for DisplayConfig {
    fn default() -> (c: Self)
        ensures
            is_default_config(c),
    {
        DisplayConfig {
            enabled: true,
            alpha: 3000,
            filter_mode: FilterMode::BlackLayer,
            panel_type: PanelType::Unknown,
            filter_intensity: 10000,
            position_key: String::new(),
            display_category: DisplayCategory::Unknown,
            ppi: 1100000,
            override_period_mm: None,
            override_cover_ratio: None,
            override_scroll_speed: None,
        }
    }
}

/// An alpha converted to a byte: `alpha * 255` rounded to the nearest
/// integer (halves up), at most 255.
pub open spec fn alpha_byte(alpha: u32) -> u8 {
    let v = ((alpha as int) * 255 + 5000) / 10000;
    if v > 255 {
        255u8
    } else {
        v as u8
    }
}

/// The profile a display uses: the recommended one for its category and
/// panel, with each manual override in place of the recommended value.
pub open spec fn effective_profile(c: DisplayConfig) -> DisplayProfile {
    let p = recommended_profile(c.display_category, c.panel_type);
    DisplayProfile {
        category: p.category,
        ppi: p.ppi,
        period_mm: match c.override_period_mm {
            Some(v) => v,
            None => p.period_mm,
        },
        cover_ratio: match c.override_cover_ratio {
            Some(v) => v,
            None => p.cover_ratio,
        },
        scroll_speed_mm_per_sec: match c.override_scroll_speed {
            Some(v) => v,
            None => p.scroll_speed_mm_per_sec,
        },
        phase_flip_hz: p.phase_flip_hz,
        bidirectional: p.bidirectional,
    }
}

/// The filter settings a display carries.
pub open spec fn settings_of(c: DisplayConfig) -> FilterSettings {
    FilterSettings {
        alpha: c.alpha,
        filter_mode: c.filter_mode,
        filter_intensity: c.filter_intensity,
        override_period_mm: c.override_period_mm,
        override_cover_ratio: c.override_cover_ratio,
        override_scroll_speed: c.override_scroll_speed,
    }
}

/// `c` with the filter settings `s` in place of its own.
pub open spec fn with_settings(c: DisplayConfig, s: FilterSettings) -> DisplayConfig {
    DisplayConfig {
        alpha: s.alpha,
        filter_mode: s.filter_mode,
        filter_intensity: s.filter_intensity,
        override_period_mm: s.override_period_mm,
        override_cover_ratio: s.override_cover_ratio,
        override_scroll_speed: s.override_scroll_speed,
        ..c
    }
}

/// The position key of a display at (`x`, `y`) with the given size.
pub open spec fn position_key_text(x: i32, y: i32, width: u32, height: u32) -> Seq<char> {
    signed_decimal(x as int) + "_"@ + signed_decimal(y as int) + "_"@ + decimal(width as nat) + "_"@
        + decimal(height as nat)
}

impl DisplayConfig {
    /// The alpha as a byte (0 to 255).
    pub fn alpha_u8(&self) -> (b: u8)
        ensures
            b == alpha_byte(self.alpha),
    {
        let v: u64 = ((self.alpha as u64) * 255 + 5000) / 10000;
        if v > 255 {
            255
        } else {
            v as u8
        }
    }

    /// "{x}_{y}_{width}_{height}".
    pub fn make_position_key(x: i32, y: i32, width: u32, height: u32) -> (key: String)
        ensures
            key@ == position_key_text(x, y, width, height),
    {
        let mut out: Vec<char> = Vec::new();
        push_signed_decimal(&mut out, x as i64);
        push_str(&mut out, "_");
        push_signed_decimal(&mut out, y as i64);
        push_str(&mut out, "_");
        push_decimal(&mut out, width as u64);
        push_str(&mut out, "_");
        push_decimal(&mut out, height as u64);
        proof {
            assert(out@ =~= position_key_text(x, y, width, height));
        }
        string_from_chars(&out)
    }

    /// The recommended profile with the manual overrides applied.
    pub fn get_effective_profile(&self) -> (p: DisplayProfile)
        ensures
            p == effective_profile(*self),
    {
        let mut profile = DisplayProfile::from_config(self.display_category, self.panel_type);
        if let Some(val) = self.override_period_mm {
            profile.period_mm = val;
        }
        if let Some(val) = self.override_cover_ratio {
            profile.cover_ratio = val;
        }
        if let Some(val) = self.override_scroll_speed {
            profile.scroll_speed_mm_per_sec = val;
        }
        profile
    }

    /// The current filter settings.
    pub fn get_settings(&self) -> (s: FilterSettings)
        ensures
            s == settings_of(*self),
    {
        FilterSettings {
            alpha: self.alpha,
            filter_mode: self.filter_mode,
            filter_intensity: self.filter_intensity,
            override_period_mm: self.override_period_mm,
            override_cover_ratio: self.override_cover_ratio,
            override_scroll_speed: self.override_scroll_speed,
        }
    }

    /// Puts `settings` in place of the current filter settings.
    pub fn apply_settings(&mut self, settings: &FilterSettings)
        ensures
            *final(self) == with_settings(*old(self), *settings),
    {
        self.alpha = settings.alpha;
        self.filter_mode = settings.filter_mode;
        self.filter_intensity = settings.filter_intensity;
        self.override_period_mm = settings.override_period_mm;
        self.override_cover_ratio = settings.override_cover_ratio;
        self.override_scroll_speed = settings.override_scroll_speed;
    }

    /// Whether the current filter settings are exactly `settings`.
    pub fn matches_settings(&self, settings: &FilterSettings) -> (b: bool)
        ensures
            b == (settings_of(*self) == *settings),
    {
        self.alpha == settings.alpha && self.filter_mode == settings.filter_mode
            && self.filter_intensity == settings.filter_intensity
            && self.override_period_mm == settings.override_period_mm
            && self.override_cover_ratio == settings.override_cover_ratio
            && self.override_scroll_speed == settings.override_scroll_speed
    }
}

} // verus!
