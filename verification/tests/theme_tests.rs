use tsu::color::Color;
use tsu::component::{Button, Buttons, Component, General, Text};
use tsu::theme::{Colors, Theme, DEFAULT_THEME_NAME};

fn transparent() -> Color {
    Color { r: 0, g: 0, b: 0, a: 0 }
}

#[test]
fn default_colors_are_all_transparent() {
    let c = Colors::default();
    assert_eq!(c.general.background, transparent());
    assert_eq!(c.general.border, transparent());
    assert_eq!(c.text.primary, transparent());
    assert_eq!(c.text.error, transparent());
    assert_eq!(c.buttons.primary.background_hover, transparent());
    assert_eq!(c.buttons.secondary.background_selected_hover, transparent());
}

#[test]
fn default_theme_carries_default_name() {
    let t = Theme::default();
    assert_eq!(t.name, DEFAULT_THEME_NAME);
    assert_eq!(t.name, "gruvbox");
    assert_eq!(t.colors, Colors::default());
}

#[test]
fn component_update_writes_only_its_slot() {
    let mut colors = Colors::default();
    let red = Color::opaque(255, 0, 0);
    Component::General(General::Border).update(&mut colors, Some(red));
    assert_eq!(colors.general.border, red);
    assert_eq!(colors.general.background, transparent());
    assert_eq!(colors.text.primary, transparent());

    Component::Text(Text::Success).update(&mut colors, Some(red));
    assert_eq!(colors.text.success, red);

    Component::Buttons(Buttons::Secondary(Button::BackgroundSelected)).update(
        &mut colors,
        Some(red),
    );
    assert_eq!(colors.buttons.secondary.background_selected, red);
    assert_eq!(colors.buttons.primary.background_selected, transparent());
}

#[test]
fn component_update_without_color_clears_slot() {
    let mut colors = Colors::default();
    let red = Color::opaque(255, 0, 0);
    Component::Text(Text::Primary).update(&mut colors, Some(red));
    assert_eq!(colors.text.primary, red);
    Component::Text(Text::Primary).update(&mut colors, None);
    assert_eq!(colors.text.primary, transparent());
}

#[test]
fn component_color_reads_back_what_update_wrote() {
    let mut colors = Colors::default();
    let c = Color { r: 10, g: 20, b: 30, a: 40 };
    for component in tsu::component::components() {
        component.update(&mut colors, Some(c));
        assert_eq!(component.color(&colors), Some(c));
    }
}

#[test]
fn component_list_holds_every_slot_once() {
    let list = tsu::component::components();
    assert_eq!(list.len(), 17);
    assert_eq!(list[0], Component::General(General::Background));
    assert_eq!(list[4], Component::Text(Text::Primary));
    assert_eq!(list[9], Component::Buttons(Buttons::Primary(Button::Background)));
    assert_eq!(
        list[16],
        Component::Buttons(Buttons::Secondary(Button::BackgroundSelectedHover))
    );
    for i in 0..list.len() {
        for j in 0..i {
            assert_ne!(list[i], list[j]);
        }
    }
}
