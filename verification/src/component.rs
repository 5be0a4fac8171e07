//! Selectors for the individual color slots of a theme, as the theme editor
//! edits them: each selector reads its slot and writes it back, clearing it
//! to transparent when no color is given.
use vstd::prelude::*;

use crate::color::Color;
use crate::theme;

verus! {

/// A slot of the general surface colors.
#[derive(Clone, Copy, Debug, PartialEq, Eq, Structural)]
pub enum General {
    Background,
    Border,
    HorizontalRule,
    UnreadIndicator,
}

/// A slot of the text colors.
#[derive(Clone, Copy, Debug, PartialEq, Eq, Structural)]
pub enum Text {
    Primary,
    Secondary,
    Tertiary,
    Success,
    Error,
}

/// A slot of one button family.
#[derive(Clone, Copy, Debug, PartialEq, Eq, Structural)]
pub enum Button {
    Background,
    BackgroundHover,
    BackgroundSelected,
    BackgroundSelectedHover,
}

/// A button slot together with the family it belongs to.
#[derive(Clone, Copy, Debug, PartialEq, Eq, Structural)]
pub enum Buttons {
    Primary(Button),
    Secondary(Button),
}

/// Any editable color slot of a theme.
#[derive(Clone, Copy, Debug, PartialEq, Eq, Structural)]
pub enum Component {
    General(General),
    Text(Text),
    Buttons(Buttons),
}

/// The color an unset slot is cleared to.
pub open spec fn cleared(color: Option<Color>) -> Color {
    match color {
        Some(c) => c,
        None => theme::spec_transparent(),
    }
}

impl General {
    /// The current color of this slot.
    pub open spec fn spec_color(&self, colors: theme::General) -> Color {
        match self {
            General::Background => colors.background,
            General::Border => colors.border,
            General::HorizontalRule => colors.horizontal_rule,
            General::UnreadIndicator => colors.unread_indicator,
        }
    }

    /// The record with this slot set to `color`, or cleared.
    pub open spec fn spec_updated(&self, colors: theme::General, color: Option<Color>) -> theme::General {
        match self {
            General::Background => theme::General { background: cleared(color), ..colors },
            General::Border => theme::General { border: cleared(color), ..colors },
            General::HorizontalRule => theme::General { horizontal_rule: cleared(color), ..colors },
            General::UnreadIndicator => theme::General { unread_indicator: cleared(color), ..colors },
        }
    }

    /// Reads this slot.
    pub fn color(&self, colors: &theme::General) -> (c: Color)
        ensures
            c == self.spec_color(*colors),
    {
        match self {
            General::Background => colors.background,
            General::Border => colors.border,
            General::HorizontalRule => colors.horizontal_rule,
            General::UnreadIndicator => colors.unread_indicator,
        }
    }

    /// Writes this slot, clearing it when no color is given.
    pub fn update(&self, colors: &mut theme::General, color: Option<Color>)
        ensures
            *final(colors) == self.spec_updated(*old(colors), color),
    {
        let c = match color {
            Some(c) => c,
            None => Color::transparent(),
        };
        match self {
            General::Background => {
                colors.background = c;
            },
            General::Border => {
                colors.border = c;
            },
            General::HorizontalRule => {
                colors.horizontal_rule = c;
            },
            General::UnreadIndicator => {
                colors.unread_indicator = c;
            },
        }
    }
}

impl Text {
    /// The current color of this slot.
    pub open spec fn spec_color(&self, colors: theme::Text) -> Color {
        match self {
            Text::Primary => colors.primary,
            Text::Secondary => colors.secondary,
            Text::Tertiary => colors.tertiary,
            Text::Success => colors.success,
            Text::Error => colors.error,
        }
    }

    /// The record with this slot set to `color`, or cleared.
    pub open spec fn spec_updated(&self, colors: theme::Text, color: Option<Color>) -> theme::Text {
        match self {
            Text::Primary => theme::Text { primary: cleared(color), ..colors },
            Text::Secondary => theme::Text { secondary: cleared(color), ..colors },
            Text::Tertiary => theme::Text { tertiary: cleared(color), ..colors },
            Text::Success => theme::Text { success: cleared(color), ..colors },
            Text::Error => theme::Text { error: cleared(color), ..colors },
        }
    }

    /// Reads this slot.
    pub fn color(&self, colors: &theme::Text) -> (c: Color)
        ensures
            c == self.spec_color(*colors),
    {
        match self {
            Text::Primary => colors.primary,
            Text::Secondary => colors.secondary,
            Text::Tertiary => colors.tertiary,
            Text::Success => colors.success,
            Text::Error => colors.error,
        }
    }

    /// Writes this slot, clearing it when no color is given.
    pub fn update(&self, colors: &mut theme::Text, color: Option<Color>)
        ensures
            *final(colors) == self.spec_updated(*old(colors), color),
    {
        let c = match color {
            Some(c) => c,
            None => Color::transparent(),
        };
        match self {
            Text::Primary => {
                colors.primary = c;
            },
            Text::Secondary => {
                colors.secondary = c;
            },
            Text::Tertiary => {
                colors.tertiary = c;
            },
            Text::Success => {
                colors.success = c;
            },
            Text::Error => {
                colors.error = c;
            },
        }
    }
}

impl Button {
    /// The current color of this slot.
    pub open spec fn spec_color(&self, colors: theme::Button) -> Color {
        match self {
            Button::Background => colors.background,
            Button::BackgroundHover => colors.background_hover,
            Button::BackgroundSelected => colors.background_selected,
            Button::BackgroundSelectedHover => colors.background_selected_hover,
        }
    }

    /// The record with this slot set to `color`, or cleared.
    pub open spec fn spec_updated(&self, colors: theme::Button, color: Option<Color>) -> theme::Button {
        match self {
            Button::Background => theme::Button { background: cleared(color), ..colors },
            Button::BackgroundHover => theme::Button { background_hover: cleared(color), ..colors },
            Button::BackgroundSelected => theme::Button {
                background_selected: cleared(color),
                ..colors
            },
            Button::BackgroundSelectedHover => theme::Button {
                background_selected_hover: cleared(color),
                ..colors
            },
        }
    }

    /// Reads this slot.
    pub fn color(&self, colors: &theme::Button) -> (c: Color)
        ensures
            c == self.spec_color(*colors),
    {
        match self {
            Button::Background => colors.background,
            Button::BackgroundHover => colors.background_hover,
            Button::BackgroundSelected => colors.background_selected,
            Button::BackgroundSelectedHover => colors.background_selected_hover,
        }
    }

    /// Writes this slot, clearing it when no color is given.
    pub fn update(&self, colors: &mut theme::Button, color: Option<Color>)
        ensures
            *final(colors) == self.spec_updated(*old(colors), color),
    {
        let c = match color {
            Some(c) => c,
            None => Color::transparent(),
        };
        match self {
            Button::Background => {
                colors.background = c;
            },
            Button::BackgroundHover => {
                colors.background_hover = c;
            },
            Button::BackgroundSelected => {
                colors.background_selected = c;
            },
            Button::BackgroundSelectedHover => {
                colors.background_selected_hover = c;
            },
        }
    }
}

impl Buttons {
    /// The current color of this slot.
    pub open spec fn spec_color(&self, colors: theme::Buttons) -> Color {
        match self {
            Buttons::Primary(b) => b.spec_color(colors.primary),
            Buttons::Secondary(b) => b.spec_color(colors.secondary),
        }
    }

    /// The record with this slot set to `color`, or cleared.
    pub open spec fn spec_updated(&self, colors: theme::Buttons, color: Option<Color>) -> theme::Buttons {
        match self {
            Buttons::Primary(b) => theme::Buttons {
                primary: b.spec_updated(colors.primary, color),
                ..colors
            },
            Buttons::Secondary(b) => theme::Buttons {
                secondary: b.spec_updated(colors.secondary, color),
                ..colors
            },
        }
    }

    /// Reads this slot.
    pub fn color(&self, colors: &theme::Buttons) -> (c: Color)
        ensures
            c == self.spec_color(*colors),
    {
        match self {
            Buttons::Primary(b) => b.color(&colors.primary),
            Buttons::Secondary(b) => b.color(&colors.secondary),
        }
    }

    /// Writes this slot, clearing it when no color is given.
    pub fn update(&self, colors: &mut theme::Buttons, color: Option<Color>)
        ensures
            *final(colors) == self.spec_updated(*old(colors), color),
    {
        match self {
            Buttons::Primary(b) => {
                b.update(&mut colors.primary, color);
            },
            Buttons::Secondary(b) => {
                b.update(&mut colors.secondary, color);
            },
        }
    }
}

impl Component {
    /// The current color of this slot.
    pub open spec fn spec_color(&self, colors: theme::Colors) -> Color {
        match self {
            Component::General(g) => g.spec_color(colors.general),
            Component::Text(t) => t.spec_color(colors.text),
            Component::Buttons(b) => b.spec_color(colors.buttons),
        }
    }

    /// The record with this slot set to `color`, or cleared.
    pub open spec fn spec_updated(&self, colors: theme::Colors, color: Option<Color>) -> theme::Colors {
        match self {
            Component::General(g) => theme::Colors {
                general: g.spec_updated(colors.general, color),
                ..colors
            },
            Component::Text(t) => theme::Colors { text: t.spec_updated(colors.text, color), ..colors },
            Component::Buttons(b) => theme::Colors {
                buttons: b.spec_updated(colors.buttons, color),
                ..colors
            },
        }
    }

    /// Reads this slot. Every slot of this record is editable, so a color
    /// always comes back.
    pub fn color(&self, colors: &theme::Colors) -> (c: Option<Color>)
        ensures
            c == Some(self.spec_color(*colors)),
    {
        match self {
            Component::General(g) => Some(g.color(&colors.general)),
            Component::Text(t) => Some(t.color(&colors.text)),
            Component::Buttons(b) => Some(b.color(&colors.buttons)),
        }
    }

    /// Writes this slot, clearing it when no color is given.
    pub fn update(&self, colors: &mut theme::Colors, color: Option<Color>)
        ensures
            *final(colors) == self.spec_updated(*old(colors), color),
    {
        match self {
            Component::General(g) => {
                g.update(&mut colors.general, color);
            },
            Component::Text(t) => {
                t.update(&mut colors.text, color);
            },
            Component::Buttons(b) => {
                b.update(&mut colors.buttons, color);
            },
        }
    }
}

/// The slots the theme editor offers, in the order it lists them: the
/// general surfaces, the text roles, then each button family slot by slot.
pub open spec fn spec_components() -> Seq<Component> {
    seq![
        Component::General(General::Background),
        Component::General(General::Border),
        Component::General(General::HorizontalRule),
        Component::General(General::UnreadIndicator),
        Component::Text(Text::Primary),
        Component::Text(Text::Secondary),
        Component::Text(Text::Tertiary),
        Component::Text(Text::Success),
        Component::Text(Text::Error),
        Component::Buttons(Buttons::Primary(Button::Background)),
        Component::Buttons(Buttons::Primary(Button::BackgroundHover)),
        Component::Buttons(Buttons::Primary(Button::BackgroundSelected)),
        Component::Buttons(Buttons::Primary(Button::BackgroundSelectedHover)),
        Component::Buttons(Buttons::Secondary(Button::Background)),
        Component::Buttons(Buttons::Secondary(Button::BackgroundHover)),
        Component::Buttons(Buttons::Secondary(Button::BackgroundSelected)),
        Component::Buttons(Buttons::Secondary(Button::BackgroundSelectedHover)),
    ]
}

/// Lists every editable slot, in the editor's order.
pub fn components() -> (r: Vec<Component>)
    ensures
        r@ == spec_components(),
{
    let mut r: Vec<Component> = Vec::new();
    r.push(Component::General(General::Background));
    r.push(Component::General(General::Border));
    r.push(Component::General(General::HorizontalRule));
    r.push(Component::General(General::UnreadIndicator));
    r.push(Component::Text(Text::Primary));
    r.push(Component::Text(Text::Secondary));
    r.push(Component::Text(Text::Tertiary));
    r.push(Component::Text(Text::Success));
    r.push(Component::Text(Text::Error));
    r.push(Component::Buttons(Buttons::Primary(Button::Background)));
    r.push(Component::Buttons(Buttons::Primary(Button::BackgroundHover)));
    r.push(Component::Buttons(Buttons::Primary(Button::BackgroundSelected)));
    r.push(Component::Buttons(Buttons::Primary(Button::BackgroundSelectedHover)));
    r.push(Component::Buttons(Buttons::Secondary(Button::Background)));
    r.push(Component::Buttons(Buttons::Secondary(Button::BackgroundHover)));
    r.push(Component::Buttons(Buttons::Secondary(Button::BackgroundSelected)));
    r.push(Component::Buttons(Buttons::Secondary(Button::BackgroundSelectedHover)));
    proof {
        assert(r@ =~= spec_components());
    }
    r
}

} // verus!
