//! Which theme is in force: a single selection, or a light / dark pair that
//! follows the desktop's color-scheme preference.
use vstd::prelude::*;

use crate::theme;

verus! {

/// The configured selection: one theme for every mode, or one per mode.
#[derive(Debug)]
pub enum Selected {
    Static(theme::Theme),
    Dynamic { light: theme::Theme, dark: theme::Theme },
}

impl Clone for Selected {
    fn clone(&self) -> (r: Self)
        ensures
            r == *self,
    {
        match self {
            Selected::Static(t) => Selected::Static(t.clone()),
            Selected::Dynamic { light, dark } => Selected::Dynamic {
                light: light.clone(),
                dark: dark.clone(),
            },
        }
    }
}

impl Default for Selected {
    fn default() -> (s: Selected)
        ensures
            s is Static,
            s matches Selected::Static(t) ==> theme::is_default_theme(t),
    {
        Selected::Static(theme::Theme::default())
    }
}

impl Selected {
    /// Whether the selection follows the desktop's mode.
    pub fn is_dynamic(&self) -> (r: bool)
        ensures
            r == (self is Dynamic),
    {
        match self {
            Selected::Static(_) => false,
            Selected::Dynamic { .. } => true,
        }
    }

    /// A selection that follows the desktop's mode.
    pub fn dynamic(light: theme::Theme, dark: theme::Theme) -> (s: Selected)
        ensures
            s == (Selected::Dynamic { light, dark }),
    {
        Selected::Dynamic { light, dark }
    }

    /// A selection fixed on one theme.
    pub fn specific(theme: theme::Theme) -> (s: Selected)
        ensures
            s == Selected::Static(theme),
    {
        Selected::Static(theme)
    }
}

/// The selection together with every theme that was found.
#[derive(Debug)]
pub struct Appearance {
    pub selected: Selected,
    pub all: Vec<theme::Theme>,
}

impl Default for Appearance {
    fn default() -> (a: Appearance)
        ensures
            a.selected is Static,
            (a.selected matches Selected::Static(t) ==> theme::is_default_theme(t)),
            a.all@.len() == 1,
            theme::is_default_theme(a.all@[0]),
    {
        let mut all: Vec<theme::Theme> = Vec::new();
        all.push(theme::Theme::default());
        Appearance { selected: Selected::default(), all }
    }
}

/// The desktop's color-scheme preference, reduced to the two modes the
/// editor distinguishes.
#[derive(Clone, Copy, Debug, PartialEq, PartialOrd, Eq, Structural)]
pub enum Mode {
    Dark,
    Light,
}

/// What the desktop reports, before the unspecified answer is folded into
/// a mode.
#[derive(Clone, Copy, Debug, PartialEq, Eq, Structural)]
pub enum SystemMode {
    Dark,
    Light,
    Unspecified,
}

/// Relies on dark_light::detect: queries the desktop environment for its
/// color-scheme preference. The answer depends on the environment, so
/// nothing is promised of it; a failed query yields `None`.
#[verifier::external_body]
fn detect_system() -> (r: Option<SystemMode>) {
    match dark_light::detect() {
        Ok(dark_light::Mode::Dark) => Some(SystemMode::Dark),
        Ok(dark_light::Mode::Light) => Some(SystemMode::Light),
        Ok(dark_light::Mode::Unspecified) => Some(SystemMode::Unspecified),
        Err(_) => None,
    }
}

impl Mode {
    /// The mode a system answer is read as: an unspecified preference
    /// counts as light.
    pub open spec fn spec_from_system(mode: SystemMode) -> Mode {
        match mode {
            SystemMode::Dark => Mode::Dark,
            SystemMode::Light => Mode::Light,
            SystemMode::Unspecified => Mode::Light,
        }
    }

    /// Reads a system answer, counting an unspecified preference as light.
    pub fn from_system(mode: SystemMode) -> (m: Mode)
        ensures
            m == Mode::spec_from_system(mode),
    {
        match mode {
            SystemMode::Dark => Mode::Dark,
            SystemMode::Light => Mode::Light,
            SystemMode::Unspecified => Mode::Light,
        }
    }
}

/// Asks the desktop for its mode; `None` when the query fails. Which mode
/// comes back depends on the environment alone.
pub fn detect() -> (r: Option<Mode>)
{
    let Some(mode) = detect_system() else {
        return None;
    };
    Some(Mode::from_system(mode))
}

/// The theme a selection yields under a detected mode: a static selection
/// ignores the mode; a dynamic one picks its light or dark theme, and falls
/// back to the default theme when no mode could be detected.
pub open spec fn spec_theme_for_mode(selected: Selected, mode: Option<Mode>, r: theme::Theme) -> bool {
    match selected {
        Selected::Static(t) => r == t,
        Selected::Dynamic { light, dark } => match mode {
            Some(Mode::Dark) => r == dark,
            Some(Mode::Light) => r == light,
            None => theme::is_default_theme(r),
        },
    }
}

/// The theme `selected` yields under `mode`.
pub fn theme_for_mode(selected: &Selected, mode: Option<Mode>) -> (r: theme::Theme)
    ensures
        spec_theme_for_mode(*selected, mode, r),
{
    match selected {
        Selected::Static(t) => t.clone(),
        Selected::Dynamic { light, dark } => match mode {
            Some(Mode::Dark) => dark.clone(),
            Some(Mode::Light) => light.clone(),
            None => theme::Theme::default(),
        },
    }
}

/// The theme in force right now: the selection resolved against the
/// desktop's current mode. Whatever the desktop answers, the result is the
/// selected theme, one side of the dynamic pair, or the default theme.
pub fn theme(selected: &Selected) -> (r: theme::Theme)
    ensures
        exists|mode: Option<Mode>| spec_theme_for_mode(*selected, mode, r),
{
    let mode = detect();
    let r = theme_for_mode(selected, mode);
    proof {
        assert(spec_theme_for_mode(*selected, mode, r));
    }
    r
}

} // verus!
