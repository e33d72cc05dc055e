//! Color themes for the embedding render layer.
//!
//! Colors are plain values here -- a named terminal color or an RGB
//! triple -- so the palette tables are ordinary data with exact
//! contracts; the render layer maps them onto its own color type.
use vstd::prelude::*;

verus! {

/// A display color: one of the named terminal colors the themes use, or
/// a direct RGB triple.
#[derive(Clone, Copy, Debug, PartialEq, Eq, Structural)]
pub enum PaletteColor {
    Yellow,
    Magenta,
    Cyan,
    LightRed,
    Rgb(u8, u8, u8),
}

/// The available themes.
#[derive(Clone, Copy, Debug, PartialEq, Eq, Structural)]
pub enum GameTheme {
    Dark,
    Light,
}

/// The full palette one theme assigns to the screen's parts.
#[derive(Clone, Copy, Debug, PartialEq, Eq, Structural)]
pub struct ThemeColors {
    pub background: PaletteColor,
    pub border: PaletteColor,
    pub text: PaletteColor,
    pub accent: PaletteColor,
    pub player_bar: PaletteColor,
    pub player_bar_power: PaletteColor,
    pub ball: PaletteColor,
}

/// The palette of each theme: a dark table of named colors over a deep
/// blue-green background, and a light solarized-inspired table.
pub open spec fn theme_palette(theme: GameTheme) -> ThemeColors {
    match theme {
        GameTheme::Dark => ThemeColors {
            background: PaletteColor::Rgb(0, 43, 54),
            border: PaletteColor::Yellow,
            text: PaletteColor::Yellow,
            accent: PaletteColor::Magenta,
            player_bar: PaletteColor::Cyan,
            player_bar_power: PaletteColor::Yellow,
            ball: PaletteColor::LightRed,
        },
        GameTheme::Light => ThemeColors {
            background: PaletteColor::Rgb(238, 232, 213),
            border: PaletteColor::Rgb(38, 139, 210),
            text: PaletteColor::Rgb(44, 62, 80),
            accent: PaletteColor::Rgb(42, 161, 152),
            player_bar: PaletteColor::Rgb(38, 139, 210),
            player_bar_power: PaletteColor::Rgb(181, 137, 0),
            ball: PaletteColor::Rgb(220, 50, 47),
        },
    }
}

impl GameTheme {
    /// This theme's palette, exactly as `theme_palette` tabulates it.
    pub fn colors(&self) -> (r: ThemeColors)
        ensures
            r == theme_palette(*self),
    {
        match self {
            GameTheme::Dark => ThemeColors {
                background: PaletteColor::Rgb(0, 43, 54),
                border: PaletteColor::Yellow,
                text: PaletteColor::Yellow,
                accent: PaletteColor::Magenta,
                player_bar: PaletteColor::Cyan,
                player_bar_power: PaletteColor::Yellow,
                ball: PaletteColor::LightRed,
            },
            GameTheme::Light => ThemeColors {
                background: PaletteColor::Rgb(238, 232, 213),
                border: PaletteColor::Rgb(38, 139, 210),
                text: PaletteColor::Rgb(44, 62, 80),
                accent: PaletteColor::Rgb(42, 161, 152),
                player_bar: PaletteColor::Rgb(38, 139, 210),
                player_bar_power: PaletteColor::Rgb(181, 137, 0),
                ball: PaletteColor::Rgb(220, 50, 47),
            },
        }
    }
}

} // verus!
