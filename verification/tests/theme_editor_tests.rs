use tsu::color::Color;
use tsu::component::{Component, Text};
use tsu::preview;
use tsu::theme::{Colors, Theme};
use tsu::theme_editor::{Action, Event, Message, ThemeEditor};

fn editor_and_theme() -> (ThemeEditor, preview::Theme) {
    (ThemeEditor::new(7), preview::Theme::from_theme(Theme::default()))
}

#[test]
fn new_editor_starts_on_primary_text() {
    let e = ThemeEditor::new(3);
    assert_eq!(e.window, 3);
    assert_eq!(e.component, Component::Text(Text::Primary));
    assert!(e.hex_input.is_none());
    assert!(e.save_result.is_none());
    assert!(!e.copied);
}

#[test]
fn picking_a_color_previews_it_on_the_edited_slot() {
    let (mut e, mut theme) = editor_and_theme();
    let red = Color::opaque(255, 0, 0);
    let (action, event) = e.update(Message::Color(red), &mut theme);
    assert!(matches!(action, Action::Idle));
    assert!(event.is_none());
    assert_eq!(theme.colors().text.primary, red);
    match &theme {
        preview::Theme::Preview { selected, preview } => {
            assert_eq!(selected.name, "gruvbox");
            assert_eq!(preview.name, "Custom Theme");
        }
        preview::Theme::Selected(_) => panic!("expected a preview"),
    }
}

#[test]
fn valid_hex_input_previews_and_is_kept() {
    let (mut e, mut theme) = editor_and_theme();
    e.update(Message::HexInput(String::from("#00FF00")), &mut theme);
    assert_eq!(e.hex_input.as_deref(), Some("#00FF00"));
    assert_eq!(theme.colors().text.primary, Color::opaque(0, 255, 0));
}

#[test]
fn invalid_hex_input_is_kept_but_changes_nothing() {
    let (mut e, mut theme) = editor_and_theme();
    let before = *theme.colors();
    e.update(Message::HexInput(String::from("#xyz")), &mut theme);
    assert_eq!(e.hex_input.as_deref(), Some("#xyz"));
    assert_eq!(*theme.colors(), before);
}

#[test]
fn discard_restores_the_selected_theme_and_closes() {
    let (mut e, mut theme) = editor_and_theme();
    e.update(Message::Color(Color::opaque(9, 9, 9)), &mut theme);
    let (action, event) = e.update(Message::Discard, &mut theme);
    assert!(matches!(action, Action::Idle));
    assert!(matches!(event, Some(Event::Close)));
    match &theme {
        preview::Theme::Selected(t) => {
            assert_eq!(t.name, "gruvbox");
            assert_eq!(t.colors, Colors::default());
        }
        preview::Theme::Preview { .. } => panic!("preview should be gone"),
    }
}

#[test]
fn apply_closes_and_keeps_the_preview() {
    let (mut e, mut theme) = editor_and_theme();
    e.update(Message::Color(Color::opaque(9, 9, 9)), &mut theme);
    let (_, event) = e.update(Message::Apply, &mut theme);
    assert!(matches!(event, Some(Event::Close)));
    assert_eq!(theme.colors().text.primary, Color::opaque(9, 9, 9));
}

#[test]
fn clear_resets_the_edited_slot_to_transparent() {
    let (mut e, mut theme) = editor_and_theme();
    e.update(Message::Color(Color::opaque(9, 9, 9)), &mut theme);
    e.update(Message::Clear, &mut theme);
    assert_eq!(theme.colors().text.primary, Color::transparent());
}

#[test]
fn save_flow_asks_for_path_then_writes_then_reports() {
    let (mut e, mut theme) = editor_and_theme();
    let (action, event) = e.update(Message::Save, &mut theme);
    assert!(matches!(action, Action::PickSavePath));
    assert!(event.is_none());

    let (action, _) = e.update(Message::SavePath(Some(String::from("/tmp/t.toml"))), &mut theme);
    match action {
        Action::SaveColors { path, colors } => {
            assert_eq!(path, "/tmp/t.toml");
            assert_eq!(colors, *theme.colors());
        }
        other => panic!("unexpected action {other:?}"),
    }

    let (action, event) = e.update(Message::Saved(Ok(())), &mut theme);
    assert!(matches!(action, Action::ScheduleClearSaveResult));
    assert!(matches!(event, Some(Event::ReloadThemes)));
    assert_eq!(e.save_result, Some(true));

    e.update(Message::ClearSaveResult, &mut theme);
    assert!(e.save_result.is_none());
}

#[test]
fn failed_save_reports_failure_without_reload() {
    let (mut e, mut theme) = editor_and_theme();
    let (action, event) = e.update(Message::Saved(Err(String::from("disk full"))), &mut theme);
    assert!(matches!(action, Action::ScheduleClearSaveResult));
    assert!(event.is_none());
    assert_eq!(e.save_result, Some(false));
}

#[test]
fn copy_marks_copied_until_cleared() {
    let (mut e, mut theme) = editor_and_theme();
    let (action, _) = e.update(Message::Copy, &mut theme);
    match action {
        Action::CopyColors { colors } => assert_eq!(colors, *theme.colors()),
        other => panic!("unexpected action {other:?}"),
    }
    assert!(e.copied);
    e.update(Message::ClearCopy, &mut theme);
    assert!(!e.copied);
}

#[test]
fn revert_returns_the_slot_to_the_selected_color() {
    let (mut e, mut theme) = editor_and_theme();
    e.update(Message::Color(Color::opaque(1, 2, 3)), &mut theme);
    e.update(Message::Revert, &mut theme);
    assert_eq!(theme.colors().text.primary, Colors::default().text.primary);
}
