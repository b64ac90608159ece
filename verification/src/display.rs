//! Display modes and color themes of the oscilloscope view.
//!
//! The renderer itself consumes a snapshot of frames and produces pixels
//! outside this library; what lives here are the plain facts it draws on:
//! the mode names, the theme names and each theme's trace and background
//! colors.

use vstd::prelude::*;

verus! {

/// Display mode for the oscilloscope.
#[derive(Debug, Clone, Copy, PartialEq, Eq, Structural)]
pub enum DisplayMode {
    /// Draw individual dots at each sample point.
    Dots,
    /// Connect samples with lines (the default).
    Lines,
    /// Gradient effect with intensity varying by trace speed.
    Gradient,
    /// Points only, no persistence.
    Points,
}

impl Default for DisplayMode {
    /// Lines is the default mode.
    fn default() -> (m: Self)
        ensures
            m == DisplayMode::Lines,
    {
        DisplayMode::Lines
    }
}

/// Every display mode, in display order.
pub open spec fn all_modes_spec() -> Seq<DisplayMode> {
    seq![DisplayMode::Dots, DisplayMode::Lines, DisplayMode::Gradient, DisplayMode::Points]
}

impl DisplayMode {
    /// The mode's display name.
    pub fn name(&self) -> (r: &'static str)
        ensures
            self is Dots ==> r@ == "Dots"@,
            self is Lines ==> r@ == "Lines"@,
            self is Gradient ==> r@ == "Gradient"@,
            self is Points ==> r@ == "Points"@,
    {
        match self {
            DisplayMode::Dots => "Dots",
            DisplayMode::Lines => "Lines",
            DisplayMode::Gradient => "Gradient",
            DisplayMode::Points => "Points",
        }
    }

    /// Every display mode, in display order.
    pub fn all() -> (r: Vec<DisplayMode>)
        ensures
            r@ == all_modes_spec(),
    {
        let mut r: Vec<DisplayMode> = Vec::new();
        r.push(DisplayMode::Dots);
        r.push(DisplayMode::Lines);
        r.push(DisplayMode::Gradient);
        r.push(DisplayMode::Points);
        proof {
            assert(r@ =~= all_modes_spec());
        }
        r
    }
}

/// An sRGB color, one byte per channel.
#[derive(Debug, Clone, Copy, PartialEq, Eq, Structural)]
pub struct Rgb {
    pub r: u8,
    pub g: u8,
    pub b: u8,
}

impl Rgb {
    pub fn new(r: u8, g: u8, b: u8) -> (c: Self)
        ensures
            c == (Rgb { r, g, b }),
    {
        Rgb { r, g, b }
    }
}

/// Color theme preset.
#[derive(Debug, Clone, Copy, PartialEq, Eq, Structural)]
pub enum ColorTheme {
    Green,
    Amber,
    Blue,
    White,
    Purple,
    Cyan,
    Red,
}

impl Default for ColorTheme {
    /// The classic green phosphor is the default theme.
    fn default() -> (t: Self)
        ensures
            t == ColorTheme::Green,
    {
        ColorTheme::Green
    }
}

/// Every theme, in display order.
pub open spec fn all_themes_spec() -> Seq<ColorTheme> {
    seq![
        ColorTheme::Green,
        ColorTheme::Amber,
        ColorTheme::Blue,
        ColorTheme::White,
        ColorTheme::Purple,
        ColorTheme::Cyan,
        ColorTheme::Red,
    ]
}

/// The trace and background colors of each theme.
pub open spec fn theme_colors_spec(t: ColorTheme) -> (Rgb, Rgb) {
    match t {
        ColorTheme::Green => (Rgb { r: 100, g: 255, b: 100 }, Rgb { r: 10, g: 20, b: 10 }),
        ColorTheme::Amber => (Rgb { r: 255, g: 176, b: 0 }, Rgb { r: 20, g: 15, b: 5 }),
        ColorTheme::Blue => (Rgb { r: 100, g: 150, b: 255 }, Rgb { r: 10, g: 10, b: 20 }),
        ColorTheme::White => (Rgb { r: 220, g: 220, b: 220 }, Rgb { r: 15, g: 15, b: 15 }),
        ColorTheme::Purple => (Rgb { r: 200, g: 100, b: 255 }, Rgb { r: 15, g: 10, b: 20 }),
        ColorTheme::Cyan => (Rgb { r: 100, g: 255, b: 255 }, Rgb { r: 10, g: 20, b: 20 }),
        ColorTheme::Red => (Rgb { r: 255, g: 100, b: 100 }, Rgb { r: 20, g: 10, b: 10 }),
    }
}

impl ColorTheme {
    /// The theme's display name.
    pub fn name(&self) -> (r: &'static str)
        ensures
            self is Green ==> r@ == "Green"@,
            self is Amber ==> r@ == "Amber"@,
            self is Blue ==> r@ == "Blue"@,
            self is White ==> r@ == "White"@,
            self is Purple ==> r@ == "Purple"@,
            self is Cyan ==> r@ == "Cyan"@,
            self is Red ==> r@ == "Red"@,
    {
        match self {
            ColorTheme::Green => "Green",
            ColorTheme::Amber => "Amber",
            ColorTheme::Blue => "Blue",
            ColorTheme::White => "White",
            ColorTheme::Purple => "Purple",
            ColorTheme::Cyan => "Cyan",
            ColorTheme::Red => "Red",
        }
    }

    /// The theme's trace color and background color, in that order.
    pub fn colors(&self) -> (c: (Rgb, Rgb))
        ensures
            c == theme_colors_spec(*self),
    {
        match self {
            ColorTheme::Green => (Rgb::new(100, 255, 100), Rgb::new(10, 20, 10)),
            ColorTheme::Amber => (Rgb::new(255, 176, 0), Rgb::new(20, 15, 5)),
            ColorTheme::Blue => (Rgb::new(100, 150, 255), Rgb::new(10, 10, 20)),
            ColorTheme::White => (Rgb::new(220, 220, 220), Rgb::new(15, 15, 15)),
            ColorTheme::Purple => (Rgb::new(200, 100, 255), Rgb::new(15, 10, 20)),
            ColorTheme::Cyan => (Rgb::new(100, 255, 255), Rgb::new(10, 20, 20)),
            ColorTheme::Red => (Rgb::new(255, 100, 100), Rgb::new(20, 10, 10)),
        }
    }

    /// Every theme, in display order.
    pub fn all() -> (r: Vec<ColorTheme>)
        ensures
            r@ == all_themes_spec(),
    {
        let mut r: Vec<ColorTheme> = Vec::new();
        r.push(ColorTheme::Green);
        r.push(ColorTheme::Amber);
        r.push(ColorTheme::Blue);
        r.push(ColorTheme::White);
        r.push(ColorTheme::Purple);
        r.push(ColorTheme::Cyan);
        r.push(ColorTheme::Red);
        proof {
            assert(r@ =~= all_themes_spec());
        }
        r
    }
}

} // verus!
