//! Named themes and their color records: general surfaces, text, and the
//! two button families.
use vstd::prelude::*;

use crate::color::Color;

verus! {

/// Name of the theme that ships with the editor and is selected when no
/// configuration says otherwise.
pub const DEFAULT_THEME_NAME: &'static str = "gruvbox";

/// Colors of the general surfaces.
#[derive(Clone, Copy, Debug, PartialEq, Eq, Structural)]
pub struct General {
    pub background: Color,
    pub border: Color,
    pub horizontal_rule: Color,
    pub unread_indicator: Color,
}

/// Colors of the text roles.
#[derive(Clone, Copy, Debug, PartialEq, Eq, Structural)]
pub struct Text {
    pub primary: Color,
    pub secondary: Color,
    pub tertiary: Color,
    pub success: Color,
    pub error: Color,
}

/// Colors of one button family, per interaction state.
#[derive(Clone, Copy, Debug, PartialEq, Eq, Structural)]
pub struct Button {
    pub background: Color,
    pub background_hover: Color,
    pub background_selected: Color,
    pub background_selected_hover: Color,
}

/// The two button families.
#[derive(Clone, Copy, Debug, PartialEq, Eq, Structural)]
pub struct Buttons {
    pub primary: Button,
    pub secondary: Button,
}

/// A theme's full color record.
#[derive(Clone, Copy, Debug, PartialEq, Eq, Structural)]
pub struct Colors {
    pub general: General,
    pub text: Text,
    pub buttons: Buttons,
}

/// The color every unset slot falls back to.
pub open spec fn spec_transparent() -> Color {
    Color { r: 0, g: 0, b: 0, a: 0 }
}

/// A color record with every slot left unset.
pub open spec fn spec_default_colors() -> Colors {
    Colors {
        general: General {
            background: spec_transparent(),
            border: spec_transparent(),
            horizontal_rule: spec_transparent(),
            unread_indicator: spec_transparent(),
        },
        text: Text {
            primary: spec_transparent(),
            secondary: spec_transparent(),
            tertiary: spec_transparent(),
            success: spec_transparent(),
            error: spec_transparent(),
        },
        buttons: Buttons {
            primary: Button {
                background: spec_transparent(),
                background_hover: spec_transparent(),
                background_selected: spec_transparent(),
                background_selected_hover: spec_transparent(),
            },
            secondary: Button {
                background: spec_transparent(),
                background_hover: spec_transparent(),
                background_selected: spec_transparent(),
                background_selected_hover: spec_transparent(),
            },
        },
    }
}

impl Default for Colors {
    /// Every slot starts out transparent; a theme file fills them in.
    fn default() -> (c: Colors)
        ensures
            c == spec_default_colors(),
    {
        let t = Color::transparent();
        Colors {
            general: General {
                background: t,
                border: t,
                horizontal_rule: t,
                unread_indicator: t,
            },
            text: Text { primary: t, secondary: t, tertiary: t, success: t, error: t },
            buttons: Buttons {
                primary: Button {
                    background: t,
                    background_hover: t,
                    background_selected: t,
                    background_selected_hover: t,
                },
                secondary: Button {
                    background: t,
                    background_hover: t,
                    background_selected: t,
                    background_selected_hover: t,
                },
            },
        }
    }
}

/// A named theme.
#[derive(Debug)]
pub struct Theme {
    pub name: String,
    pub colors: Colors,
}

impl Clone for Theme {
    fn clone(&self) -> (r: Self)
        ensures
            r == *self,
    {
        Theme { name: self.name.clone(), colors: self.colors }
    }
}

impl Theme {
    /// Pairs a name with its colors.
    pub fn new(name: String, colors: Colors) -> (t: Theme)
        ensures
            t == (Theme { name, colors }),
    {
        Theme { name, colors }
    }
}

/// Whether `t` is the built-in theme: the default name over the default
/// colors.
pub open spec fn is_default_theme(t: Theme) -> bool {
    t.name@ == DEFAULT_THEME_NAME@ && t.colors == spec_default_colors()
}

impl Default for Theme {
    fn default() -> (t: Theme)
        ensures
            t.name@ == DEFAULT_THEME_NAME@,
            t.colors == spec_default_colors(),
    {
        Theme { name: String::from_str(DEFAULT_THEME_NAME), colors: Colors::default() }
    }
}

} // verus!
