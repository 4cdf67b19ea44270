//! The two palettes of the screen and how the theme flag picks one.

use vstd::prelude::*;

use crate::screen::MostroLogin;

verus! {

/// Corner radius of every button, in logical pixels.
pub const BUTTON_CORNER_RADIUS: u16 = 7;

/// A colour given by its red, green and blue components.
#[derive(Clone, Copy, Debug, PartialEq, Eq, Structural)]
pub struct Rgb {
    pub r: u8,
    pub g: u8,
    pub b: u8,
}

/// The toolkit theme the screen asks for.
#[derive(Clone, Copy, Debug, PartialEq, Eq, Structural)]
pub enum ThemeChoice {
    Dark,
    Light,
}

/// Background of the window's container.
#[derive(Clone, Copy, Debug, PartialEq, Eq, Structural)]
pub struct ContainerAppearance {
    pub background: Rgb,
}

/// Look of a button that is not pressed.
#[derive(Clone, Copy, Debug, PartialEq, Eq, Structural)]
pub struct ButtonAppearance {
    pub background: Rgb,
    pub text_color: Rgb,
    pub corner_radius: u16,
}

/// Style of the container that holds the whole screen.
#[derive(Clone, Copy, Debug, PartialEq, Eq, Structural)]
pub struct ContainerStyle {
    pub is_dark_mode: bool,
}

/// Style shared by the four buttons.
#[derive(Clone, Copy, Debug, PartialEq, Eq, Structural)]
pub struct ButtonStyle;

/// White, #FFFFFF.
pub open spec fn white() -> Rgb {
    Rgb { r: 0xff, g: 0xff, b: 0xff }
}

/// Black, #000000.
pub open spec fn black() -> Rgb {
    Rgb { r: 0, g: 0, b: 0 }
}

/// The near-black background of the dark palette, #080808.
pub open spec fn near_black() -> Rgb {
    Rgb { r: 0x08, g: 0x08, b: 0x08 }
}

/// Background of the screen: near black in the dark palette, white in the light one.
pub open spec fn background_for(is_dark_mode: bool) -> Rgb {
    if is_dark_mode {
        near_black()
    } else {
        white()
    }
}

/// The toolkit theme for the theme flag.
pub open spec fn theme_for(is_dark_mode: bool) -> ThemeChoice {
    if is_dark_mode {
        ThemeChoice::Dark
    } else {
        ThemeChoice::Light
    }
}

/// Buttons look the same in both palettes: black text on white, rounded corners.
pub open spec fn button_look() -> ButtonAppearance {
    ButtonAppearance { background: white(), text_color: black(), corner_radius: BUTTON_CORNER_RADIUS }
}

impl ContainerStyle {
    /// The container's look for its theme flag.
    pub fn appearance(&self) -> (r: ContainerAppearance)
        ensures
            r.background == background_for(self.is_dark_mode),
    {
        let background = if self.is_dark_mode {
            Rgb { r: 0x08, g: 0x08, b: 0x08 }
        } else {
            Rgb { r: 0xff, g: 0xff, b: 0xff }
        };
        ContainerAppearance { background }
    }
}

impl ButtonStyle {
    /// The look of a button at rest.
    pub fn active(&self) -> (r: ButtonAppearance)
        ensures
            r == button_look(),
    {
        ButtonAppearance {
            background: Rgb { r: 0xff, g: 0xff, b: 0xff },
            text_color: Rgb { r: 0, g: 0, b: 0 },
            corner_radius: BUTTON_CORNER_RADIUS,
        }
    }
}

impl MostroLogin {
    /// The toolkit theme that goes with the current palette.
    pub fn theme(&self) -> (r: ThemeChoice)
        ensures
            r == theme_for(self.is_dark_mode),
    {
        if self.is_dark_mode {
            ThemeChoice::Dark
        } else {
            ThemeChoice::Light
        }
    }
}

} // verus!
