//! Tests for display modes, color themes, and the frame transport form.

use scope_rs::display::{ColorTheme, DisplayMode, Rgb};
use scope_rs::frame::{pack, unpack, XYSample};

#[test]
fn display_mode_names_and_default() {
    assert_eq!(DisplayMode::default(), DisplayMode::Lines);
    assert_eq!(DisplayMode::Dots.name(), "Dots");
    assert_eq!(DisplayMode::Lines.name(), "Lines");
    assert_eq!(DisplayMode::Gradient.name(), "Gradient");
    assert_eq!(DisplayMode::Points.name(), "Points");
    let all = DisplayMode::all();
    assert_eq!(
        all,
        vec![DisplayMode::Dots, DisplayMode::Lines, DisplayMode::Gradient, DisplayMode::Points]
    );
}

#[test]
fn theme_names_and_default() {
    assert_eq!(ColorTheme::default(), ColorTheme::Green);
    assert_eq!(ColorTheme::Amber.name(), "Amber");
    assert_eq!(ColorTheme::all().len(), 7);
}

#[test]
fn theme_colors_exact() {
    let (trace, background) = ColorTheme::Green.colors();
    assert_eq!(trace, Rgb::new(100, 255, 100));
    assert_eq!(background, Rgb::new(10, 20, 10));
    let (trace, background) = ColorTheme::Amber.colors();
    assert_eq!(trace, Rgb::new(255, 176, 0));
    assert_eq!(background, Rgb::new(20, 15, 5));
    let (trace, background) = ColorTheme::Red.colors();
    assert_eq!(trace, Rgb::new(255, 100, 100));
    assert_eq!(background, Rgb::new(20, 10, 10));
}

#[test]
fn frame_pack_round_trip() {
    let s = XYSample::new(0.75f32.to_bits(), (-0.5f32).to_bits());
    let w = pack(s);
    let back = unpack(w);
    assert_eq!(back, s);
    assert_eq!(f32::from_bits(back.x), 0.75);
    assert_eq!(f32::from_bits(back.y), -0.5);
    // The packed word separates the channels: x in the high half.
    assert_eq!((w >> 32) as u32, 0.75f32.to_bits());
}

#[test]
fn silent_frame_is_zero_word() {
    let s = XYSample::default();
    assert_eq!(s, XYSample::new(0, 0));
    assert_eq!(pack(s), 0);
    assert_eq!(f32::from_bits(s.x), 0.0);
}
