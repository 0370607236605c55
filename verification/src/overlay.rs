//! The parameters an overlay is drawn with: the pattern of the display's
//! effective profile, in pixels at the display's PPI, and the codes the
//! shader takes for the mode and the panel type. The caller hands them to
//! the GPU.
use vstd::prelude::*;
use crate::app::{config_of, AppState};
use crate::display_config::{
    effective_profile, intensity_scale_of, mm_to_px, recommended_profile, DisplayCategory,
    DisplayConfig, DisplayProfile, FilterMode, MonitorId, PanelType,
};

verus! {

/// What the shader draws for one display.
#[derive(Debug, Clone, Copy, PartialEq, Eq, Structural)]
pub struct OverlayParams {
    /// The filter mode, numbered in declaration order (black layer 0 to
    /// stealth light 5).
    pub mode_code: u32,
    /// The panel type, numbered unknown 0, OLED 1, LCD IPS 2, LCD TN 3.
    pub panel_code: u32,
    /// The filter intensity (ten-thousandths).
    pub intensity: u32,
    pub bidirectional: bool,
    /// The stripe period in pixels (ten-thousandths).
    pub period_px: u64,
    /// The scroll speed in pixels per second (ten-thousandths).
    pub scroll_speed_px: u64,
    pub cover_ratio: u32,
    pub phase_flip_hz: u32,
    /// How much the luminance is compressed (ten-thousandths).
    pub luminance_compress: u32,
    /// The system is in light mode.
    pub light_mode: bool,
}

/// The shader's number of a filter mode.
pub open spec fn mode_code(m: FilterMode) -> u32 {
    match m {
        FilterMode::BlackLayer => 0,
        FilterMode::VerticalLouver => 1,
        FilterMode::AIOcrInterference => 2,
        FilterMode::HighIntensitySPD => 3,
        FilterMode::StealthDark => 4,
        FilterMode::StealthLight => 5,
    }
}

/// The shader's number of a panel type.
pub open spec fn panel_code(p: PanelType) -> u32 {
    match p {
        PanelType::Unknown => 0,
        PanelType::Oled => 1,
        PanelType::LcdIps => 2,
        PanelType::LcdTn => 3,
    }
}

/// The luminance compression of a profile: 0.20 divided by its intensity
/// scale, kept within 0.10 and 0.35, rounded down.
pub open spec fn luminance_compression(scale: u32) -> u32 {
    let v: int = 20000000int / (scale as int);
    if v < 1000 {
        1000
    } else if v > 3500 {
        3500
    } else {
        v as u32
    }
}

/// The parameters of the overlay of display `id` in state `s`, with the
/// system in dark mode or not: a display without settings is drawn with
/// those of a fresh display (unknown category and panel, 110 PPI).
pub open spec fn overlay_params_of(s: AppState, id: MonitorId, dark_mode: bool) -> OverlayParams {
    let m = s.displays@;
    let (profile, ppi, mode, panel, intensity) = match config_of(m, id) {
        Some(c) => (effective_profile(c), c.ppi, c.filter_mode, c.panel_type, c.filter_intensity),
        None => (
            recommended_profile(DisplayCategory::Unknown, PanelType::Unknown),
            1100000u32,
            FilterMode::BlackLayer,
            PanelType::Unknown,
            10000u32,
        ),
    };
    OverlayParams {
        mode_code: mode_code(mode),
        panel_code: panel_code(panel),
        intensity,
        bidirectional: profile.bidirectional,
        period_px: mm_to_px(profile.period_mm, ppi, profile.ppi),
        scroll_speed_px: mm_to_px(profile.scroll_speed_mm_per_sec, ppi, profile.ppi),
        cover_ratio: profile.cover_ratio,
        phase_flip_hz: profile.phase_flip_hz,
        luminance_compress: luminance_compression(intensity_scale_of(profile.category)),
        light_mode: !dark_mode,
    }
}

impl AppState {
    /// The parameters to draw the overlay of display `id` with.
    pub fn overlay_params(&self, id: &MonitorId, dark_mode: bool) -> (p: OverlayParams)
        ensures
            p == overlay_params_of(*self, *id, dark_mode),
    {
        let (profile, ppi): (DisplayProfile, u32) = match self.displays.get(&id.0) {
            Some(c) => (c.get_effective_profile(), c.ppi),
            None => (DisplayProfile::from_config(DisplayCategory::Unknown, PanelType::Unknown), 1100000),
        };
        let mode = self.filter_mode(id);
        let panel = self.panel_type(id);
        let mode_code: u32 = match mode {
            FilterMode::BlackLayer => 0,
            FilterMode::VerticalLouver => 1,
            FilterMode::AIOcrInterference => 2,
            FilterMode::HighIntensitySPD => 3,
            FilterMode::StealthDark => 4,
            FilterMode::StealthLight => 5,
        };
        let panel_code: u32 = match panel {
            PanelType::Unknown => 0,
            PanelType::Oled => 1,
            PanelType::LcdIps => 2,
            PanelType::LcdTn => 3,
        };
        let scale = profile.intensity_scale();
        let v = 20000000 / scale;
        let compress = if v < 1000 {
            1000
        } else if v > 3500 {
            3500
        } else {
            v
        };
        OverlayParams {
            mode_code,
            panel_code,
            intensity: self.filter_intensity(id),
            bidirectional: profile.bidirectional,
            period_px: profile.period_px(ppi),
            scroll_speed_px: profile.scroll_speed_px(ppi),
            cover_ratio: profile.cover_ratio,
            phase_flip_hz: profile.phase_flip_hz,
            luminance_compress: compress,
            light_mode: !dark_mode,
        }
    }
}

} // verus!
