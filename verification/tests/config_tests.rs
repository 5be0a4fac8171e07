use tsu::appearance::Selected;
use tsu::config::{
    default_font_weight, default_tooltip, font_weight_from_name, select_appearance, Config,
    FontWeight,
};
use tsu::keys::{key_from_name, Command, Key, KeyBind, Keyboard};
use tsu::theme::{Colors, Theme};

#[test]
fn every_font_weight_name_parses() {
    assert_eq!(font_weight_from_name("thin"), Some(FontWeight::Thin));
    assert_eq!(font_weight_from_name("extra-light"), Some(FontWeight::ExtraLight));
    assert_eq!(font_weight_from_name("light"), Some(FontWeight::Light));
    assert_eq!(font_weight_from_name("normal"), Some(FontWeight::Normal));
    assert_eq!(font_weight_from_name("medium"), Some(FontWeight::Medium));
    assert_eq!(font_weight_from_name("semibold"), Some(FontWeight::Semibold));
    assert_eq!(font_weight_from_name("bold"), Some(FontWeight::Bold));
    assert_eq!(font_weight_from_name("extra-bold"), Some(FontWeight::ExtraBold));
    assert_eq!(font_weight_from_name("black"), Some(FontWeight::Black));
}

#[test]
fn unknown_font_weight_name_is_rejected() {
    assert_eq!(font_weight_from_name(""), None);
    assert_eq!(font_weight_from_name("Bold"), None);
    assert_eq!(font_weight_from_name("heavy"), None);
    assert_eq!(default_font_weight(), FontWeight::Normal);
}

#[test]
fn tooltips_default_on() {
    assert!(default_tooltip());
}

#[test]
fn default_config_is_self_consistent() {
    let c = Config::default();
    assert!(matches!(c.appearance.selected, Selected::Static(_)));
    assert_eq!(c.appearance.all.len(), 1);
    assert_eq!(c.appearance.all[0].name, "gruvbox");
    assert!(c.font.family.is_none());
    assert_eq!(c.keyboard, Keyboard::default());
}

fn named(name: &str) -> Theme {
    Theme::new(String::from(name), Colors::default())
}

#[test]
fn matching_key_selects_its_theme() {
    let entries = vec![named("gruvbox"), named("ocean")];
    let a = select_appearance(entries, "ocean", None);
    match &a.selected {
        Selected::Static(t) => assert_eq!(t.name, "ocean"),
        Selected::Dynamic { .. } => panic!("expected static"),
    }
    assert_eq!(a.all.len(), 2, "builtin already present, nothing appended");
}

#[test]
fn unmatched_key_falls_back_to_default_theme() {
    let entries = vec![named("ocean")];
    let a = select_appearance(entries, "missing", None);
    match &a.selected {
        Selected::Static(t) => assert_eq!(t.name, "gruvbox"),
        Selected::Dynamic { .. } => panic!("expected static"),
    }
    assert_eq!(a.all.len(), 2, "default theme appended");
    assert_eq!(a.all[1].name, "gruvbox");
}

#[test]
fn builtin_name_is_recognized_in_any_case() {
    let entries = vec![named("GruvBox")];
    let a = select_appearance(entries, "GruvBox", None);
    assert_eq!(a.all.len(), 1, "case-folded name counts as the builtin");
}

#[test]
fn dynamic_keys_select_light_and_dark() {
    let entries = vec![named("day"), named("night"), named("gruvbox")];
    let a = select_appearance(entries, "day", Some("night"));
    match &a.selected {
        Selected::Dynamic { light, dark } => {
            assert_eq!(light.name, "day");
            assert_eq!(dark.name, "night");
        }
        Selected::Static(_) => panic!("expected dynamic"),
    }
}

#[test]
fn last_entry_of_a_name_wins() {
    let mut a = named("dup");
    a.colors.general.background = tsu::color::Color::opaque(1, 1, 1);
    let mut b = named("dup");
    b.colors.general.background = tsu::color::Color::opaque(2, 2, 2);
    let entries = vec![a, b, named("gruvbox")];
    let selected = select_appearance(entries, "dup", None);
    match &selected.selected {
        Selected::Static(t) => {
            assert_eq!(t.colors.general.background, tsu::color::Color::opaque(2, 2, 2))
        }
        Selected::Dynamic { .. } => panic!("expected static"),
    }
}

#[test]
fn shortcut_table_lists_every_binding() {
    let k = Keyboard::default();
    let table = k.shortcuts();
    assert_eq!(table.len(), 7);
    assert_eq!(table[0].bind, KeyBind::move_up());
    assert_eq!(table[0].command, Command::MoveUp);
    assert_eq!(table[6].command, Command::ThemeEditor);

    let mut with_quit = Keyboard::default();
    with_quit.quit_application = Some(KeyBind::theme_editor());
    let table = with_quit.shortcuts();
    assert_eq!(table.len(), 8);
    assert_eq!(table[7].command, Command::QuitApplication);
}

#[test]
fn key_names_parse_to_keys() {
    assert_eq!(key_from_name("up"), Some(Key::Up));
    assert_eq!(key_from_name("down"), Some(Key::Down));
    assert_eq!(key_from_name("left"), Some(Key::Left));
    assert_eq!(key_from_name("right"), Some(Key::Right));
    assert_eq!(key_from_name("escape"), Some(Key::Escape));
    assert_eq!(key_from_name("b"), Some(Key::Character('b')));
    assert_eq!(key_from_name("P"), Some(Key::Character('P')));
    assert_eq!(key_from_name(""), None);
    assert_eq!(key_from_name("page-up"), None);
}
