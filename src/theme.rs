//! The tinted themes: each is one hue and a brightness, from which five shades
//! are derived and laid on the widgets.
use vstd::prelude::*;

verus! {

/// A tinted theme with a hue and brightness of its own.
#[derive(Clone, Copy, Debug, PartialEq, Eq, Structural)]
pub enum Preset {
    Cadmium,
    Acid,
    Forest,
    Sky,
    Iris,
    Violet,
    Raspberry,
}

impl Preset {
    /// The hue of the theme, in degrees.
    pub open spec fn spec_hue(self) -> nat {
        match self {
            Preset::Cadmium => 0,
            Preset::Acid => 70,
            Preset::Forest => 160,
            Preset::Sky => 212,
            Preset::Iris => 240,
            Preset::Violet => 290,
            Preset::Raspberry => 310,
        }
    }

    /// The brightness of the theme, in hundredths.
    pub open spec fn spec_brightness(self) -> nat {
        match self {
            Preset::Cadmium => 80,
            Preset::Acid => 60,
            Preset::Forest => 70,
            Preset::Sky => 100,
            Preset::Iris => 130,
            Preset::Violet => 75,
            Preset::Raspberry => 70,
        }
    }

    /// The hue of the theme, in degrees.
    pub fn hue_degrees(&self) -> (r: u32)
        ensures
            r == self.spec_hue(),
            r < 360,
    {
        match self {
            Preset::Cadmium => 0,
            Preset::Acid => 70,
            Preset::Forest => 160,
            Preset::Sky => 212,
            Preset::Iris => 240,
            Preset::Violet => 290,
            Preset::Raspberry => 310,
        }
    }

    /// The brightness of the theme, in hundredths: it scales the value of
    /// every shade.
    pub fn brightness_percent(&self) -> (r: u32)
        ensures
            r == self.spec_brightness(),
    {
        match self {
            Preset::Cadmium => 80,
            Preset::Acid => 60,
            Preset::Forest => 70,
            Preset::Sky => 100,
            Preset::Iris => 130,
            Preset::Violet => 75,
            Preset::Raspberry => 70,
        }
    }
}

/// Number of shades derived from a hue.
pub const SHADE_COUNT: usize = 5;

/// The shade that fills selected text.
pub const SELECTION_SHADE: usize = 3;

/// Saturation of each shade, in hundredths.
pub open spec fn spec_saturation(shade: nat) -> nat {
    if shade == 0 {
        60
    } else if shade == 1 {
        67
    } else if shade == 2 {
        71
    } else if shade == 3 {
        94
    } else {
        73
    }
}

/// Value of each shade at brightness one, in hundredths.
pub open spec fn spec_value(shade: nat) -> nat {
    if shade == 0 {
        27
    } else if shade == 1 {
        42
    } else if shade == 2 {
        67
    } else if shade == 3 {
        96
    } else {
        98
    }
}

/// Saturation of a shade, in hundredths.
pub fn shade_saturation_percent(shade: usize) -> (r: u32)
    requires
        shade < SHADE_COUNT,
    ensures
        r == spec_saturation(shade as nat),
{
    match shade {
        0 => 60,
        1 => 67,
        2 => 71,
        3 => 94,
        _ => 73,
    }
}

/// Value of a shade at brightness one, in hundredths; the theme's brightness
/// scales it.
pub fn shade_value_percent(shade: usize) -> (r: u32)
    requires
        shade < SHADE_COUNT,
    ensures
        r == spec_value(shade as nat),
{
    match shade {
        0 => 27,
        1 => 42,
        2 => 67,
        3 => 96,
        _ => 98,
    }
}

/// The interactive states of a widget that a tinted theme colours.
#[derive(Clone, Copy, Debug, PartialEq, Eq, Structural)]
pub enum WidgetState {
    Inactive,
    Hovered,
    Active,
    Open,
}

/// The shades of a widget state's background fill and weak background fill.
pub open spec fn spec_fills(state: WidgetState) -> (nat, nat) {
    match state {
        WidgetState::Inactive => (0, 1),
        WidgetState::Hovered => (1, 4),
        WidgetState::Active => (2, 3),
        WidgetState::Open => (1, 4),
    }
}

/// The shades of a widget state's background fill and weak background fill.
pub fn fill_shades(state: WidgetState) -> (r: (usize, usize))
    ensures
        r.0 == spec_fills(state).0,
        r.1 == spec_fills(state).1,
        r.0 < SHADE_COUNT,
        r.1 < SHADE_COUNT,
{
    match state {
        WidgetState::Inactive => (0, 1),
        WidgetState::Hovered => (1, 4),
        WidgetState::Active => (2, 3),
        WidgetState::Open => (1, 4),
    }
}

} // verus!
