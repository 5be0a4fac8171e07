//! Keyboard configuration: which key binding triggers which editor command.
use vstd::prelude::*;
use vstd::string::StrSliceExecFns;

use crate::strutil;

verus! {

/// A key on its own, before modifiers.
#[derive(Clone, Copy, Debug, PartialEq, Eq, Structural)]
pub enum Key {
    Escape,
    Up,
    Down,
    Left,
    Right,
    Character(char),
}

/// The modifier keys held together with a key.
#[derive(Clone, Copy, Debug, PartialEq, Eq, Structural)]
pub struct Modifiers {
    pub command: bool,
    pub shift: bool,
    pub alt: bool,
}

/// A key together with its modifiers.
#[derive(Clone, Copy, Debug, PartialEq, Eq, Structural)]
pub struct KeyBind {
    pub key: Key,
    pub modifiers: Modifiers,
}

/// What a shortcut does.
#[derive(Clone, Copy, Debug, PartialEq, Eq, Structural)]
pub enum Command {
    MoveUp,
    MoveDown,
    MoveLeft,
    MoveRight,
    ToggleSidebar,
    ToggleFullscreen,
    ThemeEditor,
    QuitApplication,
}

/// A binding paired with the command it triggers.
#[derive(Clone, Copy, Debug, PartialEq, Eq, Structural)]
pub struct Shortcut {
    pub bind: KeyBind,
    pub command: Command,
}

/// Pairs a binding with its command.
pub fn shortcut(bind: KeyBind, command: Command) -> (s: Shortcut)
    ensures
        s == (Shortcut { bind, command }),
{
    Shortcut { bind, command }
}

/// The modifier set with only the platform command key held.
pub open spec fn spec_command_only() -> Modifiers {
    Modifiers { command: true, shift: false, alt: false }
}

/// The modifier set with only the alt key held.
pub open spec fn spec_alt_only() -> Modifiers {
    Modifiers { command: false, shift: false, alt: true }
}

impl KeyBind {
    /// Alt with an arrow key moves focus up.
    pub fn move_up() -> (b: KeyBind)
        ensures
            b == (KeyBind { key: Key::Up, modifiers: spec_alt_only() }),
    {
        KeyBind { key: Key::Up, modifiers: Modifiers { command: false, shift: false, alt: true } }
    }

    /// Alt with an arrow key moves focus down.
    pub fn move_down() -> (b: KeyBind)
        ensures
            b == (KeyBind { key: Key::Down, modifiers: spec_alt_only() }),
    {
        KeyBind { key: Key::Down, modifiers: Modifiers { command: false, shift: false, alt: true } }
    }

    /// Alt with an arrow key moves focus left.
    pub fn move_left() -> (b: KeyBind)
        ensures
            b == (KeyBind { key: Key::Left, modifiers: spec_alt_only() }),
    {
        KeyBind { key: Key::Left, modifiers: Modifiers { command: false, shift: false, alt: true } }
    }

    /// Alt with an arrow key moves focus right.
    pub fn move_right() -> (b: KeyBind)
        ensures
            b == (KeyBind { key: Key::Right, modifiers: spec_alt_only() }),
    {
        KeyBind { key: Key::Right, modifiers: Modifiers { command: false, shift: false, alt: true } }
    }

    /// The command key with `b` toggles the sidebar.
    pub fn toggle_sidebar() -> (b: KeyBind)
        ensures
            b == (KeyBind { key: Key::Character('b'), modifiers: spec_command_only() }),
    {
        KeyBind {
            key: Key::Character('b'),
            modifiers: Modifiers { command: true, shift: false, alt: false },
        }
    }

    /// The command key with `f` toggles fullscreen.
    pub fn toggle_fullscreen() -> (b: KeyBind)
        ensures
            b == (KeyBind { key: Key::Character('f'), modifiers: spec_command_only() }),
    {
        KeyBind {
            key: Key::Character('f'),
            modifiers: Modifiers { command: true, shift: false, alt: false },
        }
    }

    /// The command key with `t` opens the theme editor.
    pub fn theme_editor() -> (b: KeyBind)
        ensures
            b == (KeyBind { key: Key::Character('t'), modifiers: spec_command_only() }),
    {
        KeyBind {
            key: Key::Character('t'),
            modifiers: Modifiers { command: true, shift: false, alt: false },
        }
    }
}

/// The key a configuration name denotes: one of the named keys, or any
/// single character standing for itself.
pub open spec fn spec_key_from_name(s: Seq<char>) -> Option<Key> {
    if s == "up"@ {
        Some(Key::Up)
    } else if s == "down"@ {
        Some(Key::Down)
    } else if s == "left"@ {
        Some(Key::Left)
    } else if s == "right"@ {
        Some(Key::Right)
    } else if s == "escape"@ {
        Some(Key::Escape)
    } else if s.len() == 1 {
        Some(Key::Character(s[0]))
    } else {
        Option::<Key>::None
    }
}

/// Reads a key from its configuration name; any other string is rejected.
pub fn key_from_name(name: &str) -> (r: Option<Key>)
    ensures
        r == spec_key_from_name(name@),
{
    if strutil::str_equal(name, "up") {
        Some(Key::Up)
    } else if strutil::str_equal(name, "down") {
        Some(Key::Down)
    } else if strutil::str_equal(name, "left") {
        Some(Key::Left)
    } else if strutil::str_equal(name, "right") {
        Some(Key::Right)
    } else if strutil::str_equal(name, "escape") {
        Some(Key::Escape)
    } else if name.unicode_len() == 1 {
        Some(Key::Character(name.get_char(0)))
    } else {
        None
    }
}

/// The keyboard section of the configuration: one binding per command, and
/// an optional binding that quits the application.
#[derive(Clone, Copy, Debug, PartialEq, Eq, Structural)]
pub struct Keyboard {
    pub move_up: KeyBind,
    pub move_down: KeyBind,
    pub move_left: KeyBind,
    pub move_right: KeyBind,
    pub toggle_sidebar: KeyBind,
    pub toggle_fullscreen: KeyBind,
    pub theme_editor: KeyBind,
    pub quit_application: Option<KeyBind>,
}

/// The stock bindings, with no quit shortcut.
pub open spec fn spec_default_keyboard() -> Keyboard {
    Keyboard {
        move_up: (KeyBind { key: Key::Up, modifiers: spec_alt_only() }),
        move_down: (KeyBind { key: Key::Down, modifiers: spec_alt_only() }),
        move_left: (KeyBind { key: Key::Left, modifiers: spec_alt_only() }),
        move_right: (KeyBind { key: Key::Right, modifiers: spec_alt_only() }),
        toggle_sidebar: (KeyBind { key: Key::Character('b'), modifiers: spec_command_only() }),
        toggle_fullscreen: (KeyBind { key: Key::Character('f'), modifiers: spec_command_only() }),
        theme_editor: (KeyBind { key: Key::Character('t'), modifiers: spec_command_only() }),
        quit_application: Option::<KeyBind>::None,
    }
}

impl Default for Keyboard {
    /// The stock bindings, with no quit shortcut.
    fn default() -> (k: Keyboard)
        ensures
            k == spec_default_keyboard(),
    {
        Keyboard {
            move_up: KeyBind::move_up(),
            move_down: KeyBind::move_down(),
            move_left: KeyBind::move_left(),
            move_right: KeyBind::move_right(),
            toggle_sidebar: KeyBind::toggle_sidebar(),
            toggle_fullscreen: KeyBind::toggle_fullscreen(),
            theme_editor: KeyBind::theme_editor(),
            quit_application: None,
        }
    }
}

impl Keyboard {
    /// The shortcut table this configuration induces, one entry per command
    /// in a fixed order, with the quit shortcut appended when configured.
    pub open spec fn spec_shortcuts(&self) -> Seq<Shortcut> {
        let base = seq![
            Shortcut { bind: self.move_up, command: Command::MoveUp },
            Shortcut { bind: self.move_down, command: Command::MoveDown },
            Shortcut { bind: self.move_left, command: Command::MoveLeft },
            Shortcut { bind: self.move_right, command: Command::MoveRight },
            Shortcut { bind: self.toggle_sidebar, command: Command::ToggleSidebar },
            Shortcut { bind: self.toggle_fullscreen, command: Command::ToggleFullscreen },
            Shortcut { bind: self.theme_editor, command: Command::ThemeEditor },
        ];
        match self.quit_application {
            Some(quit) => base.push(Shortcut { bind: quit, command: Command::QuitApplication }),
            None => base,
        }
    }

    /// Builds the shortcut table.
    pub fn shortcuts(&self) -> (r: Vec<Shortcut>)
        ensures
            r@ == self.spec_shortcuts(),
    {
        let mut shortcuts: Vec<Shortcut> = Vec::new();
        shortcuts.push(shortcut(self.move_up, Command::MoveUp));
        shortcuts.push(shortcut(self.move_down, Command::MoveDown));
        shortcuts.push(shortcut(self.move_left, Command::MoveLeft));
        shortcuts.push(shortcut(self.move_right, Command::MoveRight));
        shortcuts.push(shortcut(self.toggle_sidebar, Command::ToggleSidebar));
        shortcuts.push(shortcut(self.toggle_fullscreen, Command::ToggleFullscreen));
        shortcuts.push(shortcut(self.theme_editor, Command::ThemeEditor));
        if let Some(quit_application) = self.quit_application {
            shortcuts.push(shortcut(quit_application, Command::QuitApplication));
        }
        proof {
            assert(shortcuts@ =~= self.spec_shortcuts());
        }
        shortcuts
    }
}

} // verus!
