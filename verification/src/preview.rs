//! The theme the interface draws with: either the selected theme alone, or
//! a preview laid over it that can still be discarded.
use vstd::prelude::*;

use crate::theme;

verus! {

/// The active theme, with an optional preview on top of the selection.
#[derive(Debug)]
pub enum Theme {
    Selected(theme::Theme),
    Preview { selected: theme::Theme, preview: theme::Theme },
}

impl Clone for Theme {
    fn clone(&self) -> (r: Self)
        ensures
            r == *self,
    {
        match self {
            Theme::Selected(selected) => Theme::Selected(selected.clone()),
            Theme::Preview { selected, preview } => Theme::Preview {
                selected: selected.clone(),
                preview: preview.clone(),
            },
        }
    }
}

impl Theme {
    /// The underlying selection, with any preview peeled off.
    pub open spec fn spec_selected(&self) -> theme::Theme {
        match self {
            Theme::Selected(selected) => *selected,
            Theme::Preview { selected, .. } => *selected,
        }
    }

    /// The colors currently drawn: the preview's while one is shown, else
    /// the selection's.
    pub open spec fn spec_colors(&self) -> theme::Colors {
        match self {
            Theme::Selected(selected) => selected.colors,
            Theme::Preview { preview, .. } => preview.colors,
        }
    }

    /// Lays `theme` over the selection as a preview; the selection itself
    /// is kept.
    pub fn preview(&self, theme: theme::Theme) -> (r: Self)
        ensures
            r == (Theme::Preview { selected: self.spec_selected(), preview: theme }),
    {
        match self {
            Theme::Selected(selected) => Theme::Preview { selected: selected.clone(), preview: theme },
            Theme::Preview { selected, .. } => Theme::Preview {
                selected: selected.clone(),
                preview: theme,
            },
        }
    }

    /// Drops any preview and falls back to the selection.
    pub fn selected(&self) -> (r: Self)
        ensures
            r == Theme::Selected(self.spec_selected()),
    {
        match self {
            Theme::Selected(selected) => Theme::Selected(selected.clone()),
            Theme::Preview { selected, .. } => Theme::Selected(selected.clone()),
        }
    }

    /// The colors currently drawn.
    pub fn colors(&self) -> (c: &theme::Colors)
        ensures
            *c == self.spec_colors(),
    {
        match self {
            Theme::Selected(selected) => &selected.colors,
            Theme::Preview { preview, .. } => &preview.colors,
        }
    }

    /// Adopts `theme` as the selection, with no preview shown.
    pub fn from_theme(theme: theme::Theme) -> (r: Self)
        ensures
            r == Theme::Selected(theme),
    {
        Theme::Selected(theme)
    }
}

impl Default for Theme {
    fn default() -> (r: Theme)
        ensures
            r is Selected,
            theme::is_default_theme(r.spec_selected()),
    {
        Theme::Selected(theme::Theme::default())
    }
}

} // verus!
