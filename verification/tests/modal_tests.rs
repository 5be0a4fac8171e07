use tsu::appearance::{theme_for_mode, Mode, Selected};
use tsu::event::{filtered, Event as EditorEvent, RawEvent};
use tsu::keys::{Key, Modifiers};
use tsu::environment::{config_dir, CONFIG_FILE_NAME};
use tsu::modal::command_palette::{Message as PaletteMessage, State};
use tsu::modal::{Event, Message, Modal};
use tsu::theme::{Colors, Theme};

fn commands() -> Vec<String> {
    vec![
        String::from("Open File"),
        String::from("Save File"),
        String::from("Toggle Sidebar"),
    ]
}

#[test]
fn fresh_palette_shows_every_command() {
    let s = State::new(commands());
    assert_eq!(s.input_value, "");
    assert_eq!(s.filtered, commands());
}

#[test]
fn filter_is_case_insensitive() {
    let mut s = State::new(commands());
    let r = s.update(&PaletteMessage::InputChanged(String::from("FILE")));
    assert!(r.is_none());
    assert_eq!(s.input_value, "FILE");
    assert_eq!(
        s.filtered,
        vec![String::from("Open File"), String::from("Save File")]
    );

    s.update(&PaletteMessage::InputChanged(String::from("toggle")));
    assert_eq!(s.filtered, vec![String::from("Toggle Sidebar")]);

    s.update(&PaletteMessage::InputChanged(String::from("nothing")));
    assert!(s.filtered.is_empty());

    s.update(&PaletteMessage::InputChanged(String::new()));
    assert_eq!(s.filtered, commands(), "empty input lets everything through");
}

#[test]
fn executing_a_command_closes_the_modal() {
    let mut s = State::new(commands());
    let r = s.update(&PaletteMessage::ExecuteCommand(String::from("Open File")));
    assert!(matches!(r, Some(Event::CloseModal)));
}

#[test]
fn modal_cancel_closes_and_palette_messages_are_routed() {
    let mut m = Modal::CommandPalette(State::new(commands()));
    assert!(m.window_id().is_none());

    let r = m.update(&Message::Cancel);
    assert!(matches!(r, Some(Event::CloseModal)));

    let r = m.update(&Message::CommandPalette(PaletteMessage::InputChanged(String::from(
        "save",
    ))));
    assert!(r.is_none());
    let Modal::CommandPalette(state) = &m;
    assert_eq!(state.filtered, vec![String::from("Save File")]);
}

#[test]
fn static_selection_ignores_the_mode() {
    let selected = Selected::specific(Theme::new(String::from("ocean"), Colors::default()));
    for mode in [None, Some(Mode::Dark), Some(Mode::Light)] {
        assert_eq!(theme_for_mode(&selected, mode).name, "ocean");
    }
}

#[test]
fn dynamic_selection_follows_the_mode() {
    let selected = Selected::dynamic(
        Theme::new(String::from("day"), Colors::default()),
        Theme::new(String::from("night"), Colors::default()),
    );
    assert_eq!(theme_for_mode(&selected, Some(Mode::Light)).name, "day");
    assert_eq!(theme_for_mode(&selected, Some(Mode::Dark)).name, "night");
    assert_eq!(theme_for_mode(&selected, None).name, "gruvbox");
}

#[test]
fn selected_kind_is_reported() {
    let s = Selected::specific(Theme::default());
    assert!(!s.is_dynamic());
    let s = Selected::dynamic(Theme::default(), Theme::default());
    assert!(s.is_dynamic());
}

#[test]
fn portable_directory_overrides_platform_directory() {
    assert_eq!(
        config_dir(Some(String::from("/opt/app")), String::from("/home/u/.config/tsu")),
        "/opt/app"
    );
    assert_eq!(
        config_dir(None, String::from("/home/u/.config/tsu")),
        "/home/u/.config/tsu"
    );
    assert_eq!(CONFIG_FILE_NAME, "config.toml");
}

#[test]
fn raw_events_filter_down_to_editor_events() {
    let none = Modifiers { command: false, shift: false, alt: false };
    let chord = Modifiers { command: true, shift: true, alt: false };

    let escape = RawEvent::KeyPressed { key: Key::Escape, modifiers: none };
    assert_eq!(filtered(escape), Some(EditorEvent::Escape));

    let palette = RawEvent::KeyPressed { key: Key::Character('p'), modifiers: chord };
    assert_eq!(filtered(palette), Some(EditorEvent::OpenControlPalette));

    let plain_p = RawEvent::KeyPressed { key: Key::Character('p'), modifiers: none };
    assert_eq!(filtered(plain_p), None);

    let wrong_key = RawEvent::KeyPressed { key: Key::Character('q'), modifiers: chord };
    assert_eq!(filtered(wrong_key), None);

    assert_eq!(
        filtered(RawEvent::MouseLeftPressed { ignored: true }),
        Some(EditorEvent::LeftClick)
    );
    assert_eq!(filtered(RawEvent::MouseLeftPressed { ignored: false }), None);
    assert_eq!(filtered(RawEvent::Other), None);
}
