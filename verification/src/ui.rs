//! The heads-up display: a translucent bar across the top of the window
//! with a single text label.
use vstd::prelude::*;
use vstd::string::*;

verus! {

/// The heads-up display: a named root bar sized as a percentage of the
/// window, with centered items, an inner padding in pixels, a translucent
/// background given as channels and an alpha percentage, and a text label.
#[derive(Debug, Clone, PartialEq, Eq)]
pub struct HudConfig {
    pub root_name: String,
    pub width_percent: u8,
    pub height_percent: u8,
    pub align_center: bool,
    pub padding_px: u8,
    pub background_red: u8,
    pub background_green: u8,
    pub background_blue: u8,
    pub background_alpha_percent: u8,
    pub label: String,
    pub font_size: u8,
}

/// Builds the heads-up display: one root bar named `UI Root`, across the
/// whole width and a tenth of the height of the window, its items centered,
/// padded by ten pixels, on a half-transparent black background, showing
/// `Money!` at font size 32.
pub fn hud_config() -> (h: HudConfig)
    ensures
        h.root_name@ == "UI Root"@,
        h.width_percent == 100,
        h.height_percent == 10,
        h.align_center,
        h.padding_px == 10,
        h.background_red == 0,
        h.background_green == 0,
        h.background_blue == 0,
        h.background_alpha_percent == 50,
        h.label@ == "Money!"@,
        h.font_size == 32,
{
    HudConfig {
        root_name: String::from_str("UI Root"),
        width_percent: 100,
        height_percent: 10,
        align_center: true,
        padding_px: 10,
        background_red: 0,
        background_green: 0,
        background_blue: 0,
        background_alpha_percent: 50,
        label: String::from_str("Money!"),
        font_size: 32,
    }
}

} // verus!
