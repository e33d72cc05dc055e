//! Name labels, centering helpers, and the theme palettes.
use pong_core::geometry::{centered_rect, centered_rect_with_percentage, GameArea};
use pong_core::helpers::string_to_char_array;
use pong_core::theme::{GameTheme, PaletteColor};

#[test]
fn name_is_padded_with_spaces() {
    let arr = string_to_char_array("Forg");
    let s: String = arr.iter().collect();
    assert_eq!(s, "Forg            ");
    assert_eq!(arr.len(), 16);
}

#[test]
fn long_name_is_cut_to_width() {
    let arr = string_to_char_array("A name that is far too long");
    let s: String = arr.iter().collect();
    assert_eq!(s, "A name that is f");
}

#[test]
fn empty_name_is_all_spaces() {
    let arr = string_to_char_array("");
    assert!(arr.iter().all(|c| *c == ' '));
}

#[test]
fn exact_width_name_is_kept_whole() {
    let arr = string_to_char_array("0123456789abcdef");
    let s: String = arr.iter().collect();
    assert_eq!(s, "0123456789abcdef");
}

#[test]
fn centered_rect_centers() {
    let r = centered_rect(130, 28, 200, 50);
    assert_eq!(r, GameArea::new(35, 11, 130, 28));
}

#[test]
fn centered_rect_with_percentage_scales_and_centers() {
    let r = centered_rect_with_percentage(60, 20, 200, 50);
    assert_eq!(r.width, 120);
    assert_eq!(r.height, 10);
    assert_eq!(r.x, 40);
    assert_eq!(r.y, 20);
}

#[test]
fn centered_rect_with_percentage_raises_small_heights() {
    // a fifth of 10 rows would be 2; the height is raised to 5
    let r = centered_rect_with_percentage(50, 20, 100, 10);
    assert_eq!(r.height, 5);
    // but never past the grid itself
    let tiny = centered_rect_with_percentage(50, 50, 100, 3);
    assert_eq!(tiny.height, 3);
}

#[test]
fn dark_theme_palette() {
    let c = GameTheme::Dark.colors();
    assert_eq!(c.background, PaletteColor::Rgb(0, 43, 54));
    assert_eq!(c.border, PaletteColor::Yellow);
    assert_eq!(c.text, PaletteColor::Yellow);
    assert_eq!(c.accent, PaletteColor::Magenta);
    assert_eq!(c.player_bar, PaletteColor::Cyan);
    assert_eq!(c.player_bar_power, PaletteColor::Yellow);
    assert_eq!(c.ball, PaletteColor::LightRed);
}

#[test]
fn light_theme_palette() {
    let c = GameTheme::Light.colors();
    assert_eq!(c.background, PaletteColor::Rgb(238, 232, 213));
    assert_eq!(c.border, PaletteColor::Rgb(38, 139, 210));
    assert_eq!(c.text, PaletteColor::Rgb(44, 62, 80));
    assert_eq!(c.accent, PaletteColor::Rgb(42, 161, 152));
    assert_eq!(c.player_bar, PaletteColor::Rgb(38, 139, 210));
    assert_eq!(c.player_bar_power, PaletteColor::Rgb(181, 137, 0));
    assert_eq!(c.ball, PaletteColor::Rgb(220, 50, 47));
}
