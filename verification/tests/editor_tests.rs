use tsu::config::Config;
use tsu::editor::command_palette::{
    Application, Command, CommandPalette, Configuration, Event as PaletteEvent,
    Message as PaletteMessage, Theme as ThemeCommand, Ui, Version, VersionInfo, Window,
};
use tsu::editor::{Action, Editor, Grid, PaneState, Panes};
use tsu::event::Event;
use tsu::pane::Axis;
use tsu::preview;
use tsu::theme::Theme;

fn version() -> VersionInfo {
    VersionInfo { current: String::from("1.2.3"), remote: None }
}

#[test]
fn grid_lookup_and_replace() {
    let mut g = Grid::new(10);
    assert!(g.get(10).is_some());
    assert!(g.get(11).is_none());
    assert!(g.replace(10, PaneState { file: Some(String::from("/tmp/x")) }));
    assert_eq!(g.get(10).unwrap().file.as_deref(), Some("/tmp/x"));
    assert!(!g.replace(11, PaneState::new()));
}

#[test]
fn grid_split_and_close_keep_layout_and_panes_in_step() {
    let mut g = Grid::new(1);
    g.split(0, Axis::Vertical, 500, 2);
    assert_eq!(g.panes.len(), 2);
    assert_eq!(g.layout.leaves(), 2);
    assert_eq!(g.panes[0].0, 1);
    assert_eq!(g.panes[1].0, 2);

    g.split(1, Axis::Horizontal, 250, 3);
    assert_eq!(g.panes.len(), 3);
    assert_eq!(g.layout.leaves(), 3);
    assert_eq!(g.panes[2].0, 3);

    g.close(1);
    assert_eq!(g.panes.len(), 2);
    assert_eq!(g.layout.leaves(), 2);
    assert_eq!(g.panes[0].0, 1);
    assert_eq!(g.panes[1].0, 3);
}

#[test]
fn panes_look_up_across_windows() {
    let mut panes = Panes::new(100, 1);
    assert_eq!(panes.len(), 1);
    assert!(panes.get(100, 1).is_some());
    assert!(panes.get(100, 2).is_none());
    assert!(panes.get(200, 1).is_none());

    panes.popout.push((200, Grid::new(2)));
    assert_eq!(panes.len(), 2);
    assert!(panes.get(200, 2).is_some());
    assert!(panes.get(200, 1).is_none());
}

#[test]
fn toggling_the_palette_opens_and_closes_it() {
    let config = Config::default();
    let mut editor = Editor::empty(1, 1);
    let mut theme = preview::Theme::from_theme(Theme::default());
    let v = version();

    editor.toggle_command_palette(&config, &v, &mut theme);
    let commands = &editor.command_palette.as_ref().unwrap().commands;
    assert!(!commands.is_empty());

    let edited = theme.preview(Theme::new(String::from("tmp"), *theme.colors()));
    theme = edited;
    editor.toggle_command_palette(&config, &v, &mut theme);
    assert!(editor.command_palette.is_none());
    assert!(
        matches!(theme, preview::Theme::Selected(_)),
        "closing falls back to the selection"
    );
}

#[test]
fn escape_closes_palette_only_on_main_window() {
    let config = Config::default();
    let mut editor = Editor::empty(1, 1);
    let mut theme = preview::Theme::from_theme(Theme::default());
    let v = version();

    editor.toggle_command_palette(&config, &v, &mut theme);
    let action = editor.handle_event(2, Event::Escape, &config, &v, &mut theme);
    assert_eq!(action, Action::CloseContextMenu { window: 2 });
    assert!(editor.command_palette.is_some());

    let action = editor.handle_event(1, Event::Escape, &config, &v, &mut theme);
    assert_eq!(action, Action::Idle);
    assert!(editor.command_palette.is_none());
}

#[test]
fn palette_chord_opens_the_palette() {
    let config = Config::default();
    let mut editor = Editor::empty(1, 1);
    let mut theme = preview::Theme::from_theme(Theme::default());
    let v = version();
    editor.handle_event(1, Event::OpenControlPalette, &config, &v, &mut theme);
    assert!(editor.command_palette.is_some());
}

#[test]
fn command_list_is_ordered_and_complete() {
    let config = Config::default();
    let list = Command::list(&config, &version());
    assert!(matches!(list[0], Command::Version(_)));
    assert!(matches!(list[1], Command::Application(Application::Quit)));
    assert!(matches!(
        list[2],
        Command::Configuration(Configuration::OpenConfigFile)
    ));
    assert!(matches!(list[8], Command::Theme(ThemeCommand::OpenEditor)));
    // one theme switch per configured theme, between the fixed entries
    assert!(matches!(list[10], Command::Theme(ThemeCommand::Switch(_))));
    let n = list.len();
    assert_eq!(n, 10 + config.appearance.all.len() + 2);
    assert!(matches!(list[n - 2], Command::UI(Ui::ToggleSidebarVisibility)));
    assert!(matches!(list[n - 1], Command::Window(Window::ToggleFullscreen)));
}

#[test]
fn command_labels_spell_out_category_and_entry() {
    assert_eq!(Command::Application(Application::Quit).label(), "Application: Quit");
    assert_eq!(
        Command::Configuration(Configuration::OpenConfigDirectory).label(),
        "Configuration: Open config directory"
    );
    assert_eq!(Command::UI(Ui::ToggleSidebarVisibility).label(), "UI: Toggle sidebar visibility");
    assert_eq!(Command::Window(Window::ToggleFullscreen).label(), "Window: Toggle Fullscreen");
    let switch = Command::Theme(ThemeCommand::Switch(Theme::default()));
    assert_eq!(switch.label(), "Theme: Switch to gruvbox");
}

#[test]
fn version_label_names_newer_release() {
    let v = Version::Application(VersionInfo {
        current: String::from("1.0.0"),
        remote: Some(String::from("1.1.0")),
    });
    assert_eq!(v.label(), "1.0.0 (Latest: 1.1.0)");

    let v = Version::Application(VersionInfo {
        current: String::from("1.0.0"),
        remote: Some(String::from("1.0.0")),
    });
    assert_eq!(v.label(), "1.0.0 (Latest release)");

    let v = Version::Application(VersionInfo { current: String::from("1.0.0"), remote: None });
    assert_eq!(v.label(), "1.0.0 (Latest release)");
}

#[test]
fn palette_update_routes_messages() {
    let config = Config::default();
    let mut p = CommandPalette::new(&config, &version());

    let r = p.update(PaletteMessage::Command(Command::Application(Application::Quit)));
    assert!(matches!(r, Some(PaletteEvent::Command(Command::Application(Application::Quit)))));

    let r = p.update(PaletteMessage::Hovered(Command::Theme(ThemeCommand::Switch(
        Theme::default(),
    ))));
    match r {
        Some(PaletteEvent::ThemePreview(Some(t))) => assert_eq!(t.name, "gruvbox"),
        other => panic!("unexpected {other:?}"),
    }

    let r = p.update(PaletteMessage::Hovered(Command::UI(Ui::ToggleSidebarVisibility)));
    assert!(matches!(r, Some(PaletteEvent::ThemePreview(None))));

    assert!(matches!(p.update(PaletteMessage::Unfocused), Some(PaletteEvent::Unfocused)));
    assert!(p.update(PaletteMessage::Ignored).is_none());
}

#[test]
fn long_paths_are_shortened_with_an_ellipsis() {
    let short = "/home/user/notes.txt";
    assert_eq!(tsu::editor::status_path(short), short);

    let long: String = format!("/very/long{}", "/segment".repeat(10));
    assert!(long.len() > 60);
    let shown = tsu::editor::status_path(&long);
    let tail: String = long.chars().skip(long.chars().count() - 40).collect();
    assert_eq!(shown, format!("...{tail}"));
}

#[test]
fn cursor_label_is_one_based() {
    assert_eq!(tsu::editor::cursor_label(0, 0), "1:1");
    assert_eq!(tsu::editor::cursor_label(9, 41), "10:42");
    assert_eq!(tsu::editor::cursor_label(99, 0), "100:1");
}

#[test]
fn layouts_snapshot_main_and_popouts() {
    let mut panes = Panes::new(1, 1);
    panes.main.split(0, Axis::Vertical, 500, 2);
    panes.popout.push((9, Grid::new(3)));
    let editor = Editor {
        panes,
        focus: tsu::editor::Focus { window: 1, pane: 1 },
        command_palette: None,
        theme_editor: None,
    };
    let (main, popout) = editor.layouts();
    assert_eq!(main.leaves(), 2);
    assert_eq!(popout.len(), 1);
    assert_eq!(popout[0].0, 9);
    assert_eq!(popout[0].1.leaves(), 1);
}

#[test]
fn iter_enumerates_main_then_popout_panes() {
    let mut panes = Panes::new(1, 10);
    panes.main.split(0, Axis::Vertical, 500, 11);
    panes.popout.push((2, Grid::new(20)));
    panes.popout.push((3, Grid::new(30)));
    assert_eq!(panes.iter(), vec![(1, 10), (1, 11), (2, 20), (3, 30)]);
}
