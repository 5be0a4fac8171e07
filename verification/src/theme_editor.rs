//! The theme editor: a form that edits one color slot at a time, previews
//! the result over the selected theme, and can save, share, or discard it.
use vstd::prelude::*;

use crate::color;
use crate::color::Color;
use crate::component::Component;
use crate::component::Text;
use crate::preview;
use crate::theme;

verus! {

/// Name given to the theme being edited while it is only a preview.
pub const CUSTOM_THEME_NAME: &'static str = "Custom Theme";

/// What the editor asks of its surroundings.
#[derive(Debug, Clone)]
pub enum Event {
    Close,
    ReloadThemes,
}

/// One input to the editor.
#[derive(Debug)]
pub enum Message {
    Color(Color),
    Component(Component),
    HexInput(String),
    Save,
    Apply,
    Discard,
    Revert,
    Clear,
    Copy,
    Share,
    SavePath(Option<String>),
    Saved(Result<(), String>),
    ClearSaveResult,
    ClearCopy,
}

/// Outside work an update asks the caller to perform; its outcome comes
/// back as a later `Message`.
#[derive(Debug, Clone)]
pub enum Action {
    /// Nothing to do.
    Idle,
    /// Ask the user for a path to save under; answer with `SavePath`.
    PickSavePath,
    /// Write the colors as a theme file under `path`; answer with `Saved`.
    SaveColors { path: String, colors: theme::Colors },
    /// Put a share link for the colors on the clipboard; answer with
    /// `ClearCopy` once the confirmation should disappear.
    CopyColors { colors: theme::Colors },
    /// Open the theme-sharing page for the colors.
    OpenSharePage { colors: theme::Colors },
    /// Answer with `ClearSaveResult` once the save status should disappear.
    ScheduleClearSaveResult,
}

/// The editor's own state: which slot is being edited, the raw text of the
/// hex field, and the transient save / copy indicators.
#[derive(Debug, Clone)]
pub struct ThemeEditor {
    pub window: u64,
    pub component: Component,
    pub hex_input: Option<String>,
    pub save_result: Option<bool>,
    pub copied: bool,
}

/// Whether `new_t` shows, over the selection `old_t` keeps, a preview named
/// as the custom theme and carrying exactly `colors`.
pub open spec fn previews_with(old_t: preview::Theme, new_t: preview::Theme, colors: theme::Colors) -> bool {
    &&& new_t is Preview
    &&& new_t.spec_selected() == old_t.spec_selected()
    &&& new_t.spec_colors() == colors
    &&& (new_t matches preview::Theme::Preview { preview, .. } ==> preview.name@
        == CUSTOM_THEME_NAME@)
}

impl ThemeEditor {
    /// A fresh editor for the given window, open on the primary text color.
    pub fn new(window: u64) -> (e: ThemeEditor)
        ensures
            e == (ThemeEditor {
                window,
                component: Component::Text(Text::Primary),
                hex_input: Option::<String>::None,
                save_result: Option::<bool>::None,
                copied: false,
            }),
    {
        ThemeEditor {
            window,
            component: Component::Text(Text::Primary),
            hex_input: None,
            save_result: None,
            copied: false,
        }
    }

    /// Replaces the preview with the edited colors under the custom name.
    fn show_preview(theme: &mut preview::Theme, colors: theme::Colors)
        ensures
            previews_with(*old(theme), *final(theme), colors),
    {
        let name = String::from_str(CUSTOM_THEME_NAME);
        *theme = theme.preview(theme::Theme::new(name, colors));
    }

    /// Steps the editor on one message. The relation below pins, for each
    /// message, the editor's next state, how the displayed theme changes,
    /// the outside work requested, and the event raised.
    pub fn update(&mut self, message: Message, theme: &mut preview::Theme) -> (r: (
        Action,
        Option<Event>,
    ))
        ensures
            spec_update(*old(self), *final(self), *old(theme), *final(theme), message, r.0, r.1),
    {
        match message {
            Message::Color(c) => {
                self.hex_input = None;
                let mut colors = *theme.colors();
                self.component.update(&mut colors, Some(c));
                Self::show_preview(theme, colors);
                (Action::Idle, None)
            },
            Message::Component(component) => {
                self.hex_input = None;
                self.component = component;
                (Action::Idle, None)
            },
            Message::HexInput(input) => {
                match color::hex_to_color(input.as_str()) {
                    Some(c) => {
                        let mut colors = *theme.colors();
                        self.component.update(&mut colors, Some(c));
                        Self::show_preview(theme, colors);
                    },
                    None => {},
                }
                self.hex_input = Some(input);
                (Action::Idle, None)
            },
            Message::Save => (Action::PickSavePath, None),
            Message::Apply => (Action::Idle, Some(Event::Close)),
            Message::Discard => {
                *theme = theme.selected();
                (Action::Idle, Some(Event::Close))
            },
            Message::Revert => {
                self.hex_input = None;
                let selected = theme.selected();
                let mut colors = *selected.colors();
                let original = self.component.color(&colors);
                self.component.update(&mut colors, original);
                Self::show_preview(theme, colors);
                (Action::Idle, None)
            },
            Message::Clear => {
                self.hex_input = None;
                let mut colors = *theme.colors();
                self.component.update(&mut colors, None);
                Self::show_preview(theme, colors);
                (Action::Idle, None)
            },
            Message::Copy => {
                self.copied = true;
                (Action::CopyColors { colors: *theme.colors() }, None)
            },
            Message::Share => (Action::OpenSharePage { colors: *theme.colors() }, None),
            Message::SavePath(None) => (Action::Idle, None),
            Message::SavePath(Some(path)) => (
                Action::SaveColors { path, colors: *theme.colors() },
                None,
            ),
            Message::Saved(Err(_)) => {
                self.save_result = Some(false);
                (Action::ScheduleClearSaveResult, None)
            },
            Message::Saved(Ok(())) => {
                self.save_result = Some(true);
                (Action::ScheduleClearSaveResult, Some(Event::ReloadThemes))
            },
            Message::ClearSaveResult => {
                self.save_result = None;
                (Action::Idle, None)
            },
            Message::ClearCopy => {
                self.copied = false;
                (Action::Idle, None)
            },
        }
    }
}

/// How one message steps the editor: relates the state, theme, action and
/// event after `update` to the state and theme before it.
pub open spec fn spec_update(
    old_s: ThemeEditor,
    new_s: ThemeEditor,
    old_t: preview::Theme,
    new_t: preview::Theme,
    message: Message,
    action: Action,
    event: Option<Event>,
) -> bool {
    match message {
        Message::Color(c) => {
            &&& new_s == (ThemeEditor { hex_input: Option::<String>::None, ..old_s })
            &&& previews_with(
                old_t,
                new_t,
                old_s.component.spec_updated(old_t.spec_colors(), Some(c)),
            )
            &&& action is Idle
            &&& event is None
        },
        Message::Component(component) => {
            &&& new_s == (ThemeEditor { hex_input: Option::<String>::None, component, ..old_s })
            &&& new_t == old_t
            &&& action is Idle
            &&& event is None
        },
        Message::HexInput(input) => {
            &&& new_s == (ThemeEditor { hex_input: Some(input), ..old_s })
            &&& match color::spec_hex_to_color(input@) {
                Some(c) => previews_with(
                    old_t,
                    new_t,
                    old_s.component.spec_updated(old_t.spec_colors(), Some(c)),
                ),
                None => new_t == old_t,
            }
            &&& action is Idle
            &&& event is None
        },
        Message::Save => {
            &&& new_s == old_s
            &&& new_t == old_t
            &&& action is PickSavePath
            &&& event is None
        },
        Message::Apply => {
            &&& new_s == old_s
            &&& new_t == old_t
            &&& action is Idle
            &&& event == Some(Event::Close)
        },
        Message::Discard => {
            &&& new_s == old_s
            &&& new_t == preview::Theme::Selected(old_t.spec_selected())
            &&& action is Idle
            &&& event == Some(Event::Close)
        },
        Message::Revert => {
            &&& new_s == (ThemeEditor { hex_input: Option::<String>::None, ..old_s })
            &&& previews_with(
                old_t,
                new_t,
                old_s.component.spec_updated(
                    old_t.spec_selected().colors,
                    Some(old_s.component.spec_color(old_t.spec_selected().colors)),
                ),
            )
            &&& action is Idle
            &&& event is None
        },
        Message::Clear => {
            &&& new_s == (ThemeEditor { hex_input: Option::<String>::None, ..old_s })
            &&& previews_with(
                old_t,
                new_t,
                old_s.component.spec_updated(old_t.spec_colors(), Option::<Color>::None),
            )
            &&& action is Idle
            &&& event is None
        },
        Message::Copy => {
            &&& new_s == (ThemeEditor { copied: true, ..old_s })
            &&& new_t == old_t
            &&& action == (Action::CopyColors { colors: old_t.spec_colors() })
            &&& event is None
        },
        Message::Share => {
            &&& new_s == old_s
            &&& new_t == old_t
            &&& action == (Action::OpenSharePage { colors: old_t.spec_colors() })
            &&& event is None
        },
        Message::SavePath(path) => {
            &&& new_s == old_s
            &&& new_t == old_t
            &&& match path {
                Some(path) => action == (Action::SaveColors {
                    path,
                    colors: old_t.spec_colors(),
                }),
                None => action is Idle,
            }
            &&& event is None
        },
        Message::Saved(outcome) => {
            &&& new_s == (ThemeEditor { save_result: Some(outcome is Ok), ..old_s })
            &&& new_t == old_t
            &&& action is ScheduleClearSaveResult
            &&& event == (if outcome is Ok {
                Some(Event::ReloadThemes)
            } else {
                Option::<Event>::None
            })
        },
        Message::ClearSaveResult => {
            &&& new_s == (ThemeEditor { save_result: Option::<bool>::None, ..old_s })
            &&& new_t == old_t
            &&& action is Idle
            &&& event is None
        },
        Message::ClearCopy => {
            &&& new_s == (ThemeEditor { copied: false, ..old_s })
            &&& new_t == old_t
            &&& action is Idle
            &&& event is None
        },
    }
}

} // verus!
