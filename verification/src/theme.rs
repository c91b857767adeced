//! Highlighting themes and the window's colour scheme that goes with each.
use vstd::prelude::*;

verus! {

/// A syntax-highlighting theme.
#[derive(Debug, Clone, Copy, PartialEq, Eq, Structural)]
pub enum Theme {
    SolarizedDark,
    Base16Mocha,
    Base16Ocean,
    Base16Eighties,
    InspiredGitHub,
}

/// Whether the window is drawn light on dark or dark on light.
#[derive(Debug, Clone, Copy, PartialEq, Eq, Structural)]
pub enum ColorScheme {
    Dark,
    Light,
}

impl Theme {
    /// Every theme but `InspiredGitHub` has a dark background.
    pub open spec fn dark(self) -> bool {
        self != Theme::InspiredGitHub
    }

    /// Whether the theme has a dark background.
    pub fn is_dark(&self) -> (dark: bool)
        ensures
            dark == self.dark(),
    {
        match self {
            Theme::SolarizedDark
            | Theme::Base16Mocha
            | Theme::Base16Ocean
            | Theme::Base16Eighties => true,
            Theme::InspiredGitHub => false,
        }
    }

    /// The colour scheme that suits the theme.
    pub open spec fn scheme(self) -> ColorScheme {
        if self.dark() {
            ColorScheme::Dark
        } else {
            ColorScheme::Light
        }
    }
}

} // verus!
