//! Colors and themes.
//!
//! An element may override the inherited text color either with a concrete
//! color or with a reference to the theme's primary accent, which is resolved
//! lazily against the active theme only when a concrete value is needed.

use vstd::prelude::*;

verus! {

/// An RGBA color, eight bits per channel.
#[derive(Clone, Copy, Debug, PartialEq, Eq, Structural)]
pub struct Color {
    pub red: u8,
    pub green: u8,
    pub blue: u8,
    pub alpha: u8,
}

impl Color {
    /// Builds a color from its four channels.
    pub fn new(red: u8, green: u8, blue: u8, alpha: u8) -> (c: Color)
        ensures
            c == (Color { red, green, blue, alpha }),
    {
        Color { red, green, blue, alpha }
    }
}

/// The read-only color bundle supplied by the theme provider: a primary
/// accent color and a default on-surface text color, fixed for the lifetime
/// of one presentation run.
#[derive(Clone, Copy, Debug, PartialEq, Eq, Structural)]
pub struct Palette {
    /// The primary accent color.
    pub primary: Color,
    /// The default color for text drawn on the surface.
    pub on_surface: Color,
}

/// A color request carried by an element: either a concrete color, or a
/// reference to the active theme's primary accent.
#[derive(Clone, Copy, Debug, PartialEq, Eq, Structural)]
pub enum ElementColor {
    /// A concrete color, used as given.
    Color(Color),
    /// The active theme's primary accent, resolved lazily.
    Primary,
}

/// What an element color denotes once the theme is known.
pub open spec fn spec_resolve(c: ElementColor, theme: Palette) -> Color {
    match c {
        ElementColor::Color(color) => color,
        ElementColor::Primary => theme.primary,
    }
}

impl From<Color> for ElementColor {
    fn from(value: Color) -> (r: ElementColor) {
        ElementColor::Color(value)
    }
}

impl vstd::std_specs::convert::FromSpecImpl<Color> for ElementColor {
    open spec fn obeys_from_spec() -> bool {
        true
    }

    open spec fn from_spec(value: Color) -> ElementColor {
        ElementColor::Color(value)
    }
}

} // verus!
