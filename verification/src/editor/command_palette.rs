//! The editor's command palette: the commands it offers, their display
//! labels, and how choosing or hovering one is answered.
use vstd::prelude::*;
use vstd::string::StringExecFns;

use crate::config::Config;
use crate::strutil;
use crate::theme;

verus! {

/// The running version, with the latest released one when known.
#[derive(Debug)]
pub struct VersionInfo {
    pub current: String,
    pub remote: Option<String>,
}

impl Clone for VersionInfo {
    fn clone(&self) -> (r: Self)
        ensures
            r == *self,
    {
        let remote = match &self.remote {
            Some(rm) => Some(rm.clone()),
            None => None,
        };
        proof {
            assert(remote == self.remote);
        }
        VersionInfo { current: self.current.clone(), remote }
    }
}

/// Application-wide commands.
#[derive(Clone, Copy, Debug, PartialEq, Eq, Structural)]
pub enum Application {
    Quit,
}

/// The version entry.
#[derive(Debug)]
pub enum Version {
    Application(VersionInfo),
}

impl Clone for Version {
    fn clone(&self) -> (r: Self)
        ensures
            r == *self,
    {
        match self {
            Version::Application(v) => Version::Application(v.clone()),
        }
    }
}

/// Commands on the configuration and its directories.
#[derive(Clone, Copy, Debug, PartialEq, Eq, Structural)]
pub enum Configuration {
    Reload,
    OpenConfigDirectory,
    OpenConfigFile,
    OpenWebsite,
    OpenCacheDirectory,
    OpenDataDirectory,
}

/// Commands on the interface.
#[derive(Clone, Copy, Debug, PartialEq, Eq, Structural)]
pub enum Ui {
    ToggleSidebarVisibility,
}

/// Commands on the window.
#[derive(Clone, Copy, Debug, PartialEq, Eq, Structural)]
pub enum Window {
    ToggleFullscreen,
}

/// Commands on themes.
#[derive(Debug)]
pub enum Theme {
    Switch(theme::Theme),
    OpenEditor,
    OpenThemesWebsite,
}

impl Clone for Theme {
    fn clone(&self) -> (r: Self)
        ensures
            r == *self,
    {
        match self {
            Theme::Switch(t) => Theme::Switch(t.clone()),
            Theme::OpenEditor => Theme::OpenEditor,
            Theme::OpenThemesWebsite => Theme::OpenThemesWebsite,
        }
    }
}

/// Any palette command.
#[derive(Debug)]
pub enum Command {
    Application(Application),
    Version(Version),
    Configuration(Configuration),
    UI(Ui),
    Theme(Theme),
    Window(Window),
}

impl Clone for Command {
    fn clone(&self) -> (r: Self)
        ensures
            r == *self,
    {
        match self {
            Command::Application(a) => Command::Application(*a),
            Command::Version(v) => Command::Version(v.clone()),
            Command::Configuration(c) => Command::Configuration(*c),
            Command::UI(u) => Command::UI(*u),
            Command::Theme(t) => Command::Theme(t.clone()),
            Command::Window(w) => Command::Window(*w),
        }
    }
}

impl Application {
    /// Every application command.
    pub fn list() -> (r: Vec<Application>)
        ensures
            r@ == seq![Application::Quit],
    {
        let mut r: Vec<Application> = Vec::new();
        r.push(Application::Quit);
        proof {
            assert(r@ =~= seq![Application::Quit]);
        }
        r
    }

    /// The command's label.
    pub open spec fn spec_label(&self) -> Seq<char> {
        "Quit"@
    }

    /// The command's label.
    pub fn label(&self) -> (r: String)
        ensures
            r@ == self.spec_label(),
    {
        match self {
            Application::Quit => String::from_str("Quit"),
        }
    }
}

impl Version {
    /// The one version entry.
    pub fn list(version: &VersionInfo) -> (r: Vec<Version>)
        ensures
            r@ == seq![Version::Application(*version)],
    {
        let mut r: Vec<Version> = Vec::new();
        r.push(Version::Application(version.clone()));
        proof {
            assert(r@ =~= seq![Version::Application(*version)]);
        }
        r
    }

    /// The current version, then the latest release: named when it differs
    /// from the current one, and marked current otherwise.
    pub open spec fn spec_label(&self) -> Seq<char> {
        match self {
            Version::Application(version) => version.current@ + " "@ + (match version.remote {
                Some(remote) => if remote@ != version.current@ {
                    "(Latest: "@ + remote@ + ")"@
                } else {
                    "(Latest release)"@
                },
                None => "(Latest release)"@,
            }),
        }
    }

    /// The entry's label.
    pub fn label(&self) -> (r: String)
        ensures
            r@ == self.spec_label(),
    {
        match self {
            Version::Application(version) => {
                let mut out = version.current.clone();
                out.append(" ");
                let newer = match &version.remote {
                    Some(remote) => {
                        if !strutil::str_equal(remote.as_str(), version.current.as_str()) {
                            let mut latest = String::from_str("(Latest: ");
                            latest.append(remote.as_str());
                            latest.append(")");
                            latest
                        } else {
                            String::from_str("(Latest release)")
                        }
                    },
                    None => String::from_str("(Latest release)"),
                };
                out.append(newer.as_str());
                out
            },
        }
    }
}

impl Configuration {
    /// Every configuration command, in the palette's order.
    pub fn list() -> (r: Vec<Configuration>)
        ensures
            r@ == seq![
                Configuration::OpenConfigFile,
                Configuration::OpenConfigDirectory,
                Configuration::OpenDataDirectory,
                Configuration::OpenCacheDirectory,
                Configuration::OpenWebsite,
                Configuration::Reload,
            ],
    {
        let mut r: Vec<Configuration> = Vec::new();
        r.push(Configuration::OpenConfigFile);
        r.push(Configuration::OpenConfigDirectory);
        r.push(Configuration::OpenDataDirectory);
        r.push(Configuration::OpenCacheDirectory);
        r.push(Configuration::OpenWebsite);
        r.push(Configuration::Reload);
        proof {
            assert(r@ =~= seq![
                Configuration::OpenConfigFile,
                Configuration::OpenConfigDirectory,
                Configuration::OpenDataDirectory,
                Configuration::OpenCacheDirectory,
                Configuration::OpenWebsite,
                Configuration::Reload,
            ]);
        }
        r
    }

    /// The command's label.
    pub open spec fn spec_label(&self) -> Seq<char> {
        match self {
            Configuration::OpenConfigDirectory => "Open config directory"@,
            Configuration::OpenWebsite => "Open documentation website"@,
            Configuration::Reload => "Reload config file"@,
            Configuration::OpenCacheDirectory => "Open cache directory"@,
            Configuration::OpenDataDirectory => "Open data directory"@,
            Configuration::OpenConfigFile => "Open config file in default editor"@,
        }
    }

    /// The command's label.
    pub fn label(&self) -> (r: String)
        ensures
            r@ == self.spec_label(),
    {
        match self {
            Configuration::OpenConfigDirectory => String::from_str("Open config directory"),
            Configuration::OpenWebsite => String::from_str("Open documentation website"),
            Configuration::Reload => String::from_str("Reload config file"),
            Configuration::OpenCacheDirectory => String::from_str("Open cache directory"),
            Configuration::OpenDataDirectory => String::from_str("Open data directory"),
            Configuration::OpenConfigFile => String::from_str(
                "Open config file in default editor",
            ),
        }
    }
}

impl Ui {
    /// Every interface command.
    pub fn list() -> (r: Vec<Ui>)
        ensures
            r@ == seq![Ui::ToggleSidebarVisibility],
    {
        let mut r: Vec<Ui> = Vec::new();
        r.push(Ui::ToggleSidebarVisibility);
        proof {
            assert(r@ =~= seq![Ui::ToggleSidebarVisibility]);
        }
        r
    }

    /// The command's label.
    pub open spec fn spec_label(&self) -> Seq<char> {
        "Toggle sidebar visibility"@
    }

    /// The command's label.
    pub fn label(&self) -> (r: String)
        ensures
            r@ == self.spec_label(),
    {
        match self {
            Ui::ToggleSidebarVisibility => String::from_str("Toggle sidebar visibility"),
        }
    }
}

impl Window {
    /// Every window command.
    pub fn list() -> (r: Vec<Window>)
        ensures
            r@ == seq![Window::ToggleFullscreen],
    {
        let mut r: Vec<Window> = Vec::new();
        r.push(Window::ToggleFullscreen);
        proof {
            assert(r@ =~= seq![Window::ToggleFullscreen]);
        }
        r
    }

    /// The command's label.
    pub open spec fn spec_label(&self) -> Seq<char> {
        "Toggle Fullscreen"@
    }

    /// The command's label.
    pub fn label(&self) -> (r: String)
        ensures
            r@ == self.spec_label(),
    {
        match self {
            Window::ToggleFullscreen => String::from_str("Toggle Fullscreen"),
        }
    }
}

impl Theme {
    /// The fixed theme commands, then one switch per known theme.
    pub open spec fn spec_list(all: Seq<theme::Theme>) -> Seq<Theme> {
        seq![Theme::OpenEditor, Theme::OpenThemesWebsite] + all.map_values(
            |t: theme::Theme| Theme::Switch(t),
        )
    }

    /// Lists the theme commands for the themes in `config`.
    pub fn list(config: &Config) -> (r: Vec<Theme>)
        ensures
            r@ == Theme::spec_list(config.appearance.all@),
    {
        let mut r: Vec<Theme> = Vec::new();
        r.push(Theme::OpenEditor);
        r.push(Theme::OpenThemesWebsite);
        let all = &config.appearance.all;
        let ghost prefix = r@;
        let mut i: usize = 0;
        while i < all.len()
            invariant
                i <= all@.len(),
                prefix == seq![Theme::OpenEditor, Theme::OpenThemesWebsite],
                r@ == prefix + all@.subrange(0, i as int).map_values(
                    |t: theme::Theme| Theme::Switch(t),
                ),
            decreases all@.len() - i,
        {
            r.push(Theme::Switch(all[i].clone()));
            proof {
                assert(r@ =~= prefix + all@.subrange(0, i + 1).map_values(
                    |t: theme::Theme| Theme::Switch(t),
                ));
            }
            i += 1;
        }
        proof {
            assert(all@.subrange(0, all@.len() as int) =~= all@);
        }
        r
    }

    /// The command's label; switching names the theme switched to.
    pub open spec fn spec_label(&self) -> Seq<char> {
        match self {
            Theme::Switch(t) => "Switch to "@ + t.name@,
            Theme::OpenEditor => "Open editor"@,
            Theme::OpenThemesWebsite => "Discover more themes (Opens website)"@,
        }
    }

    /// The command's label.
    pub fn label(&self) -> (r: String)
        ensures
            r@ == self.spec_label(),
    {
        match self {
            Theme::Switch(t) => {
                let mut out = String::from_str("Switch to ");
                out.append(t.name.as_str());
                out
            },
            Theme::OpenEditor => String::from_str("Open editor"),
            Theme::OpenThemesWebsite => String::from_str("Discover more themes (Opens website)"),
        }
    }
}

impl Command {
    /// Everything the palette offers, in its order: the version, the
    /// application commands, the configuration commands, the theme
    /// commands, then the interface and window commands.
    pub open spec fn spec_list(all: Seq<theme::Theme>, version: VersionInfo) -> Seq<Command> {
        seq![
            Command::Version(Version::Application(version)),
            Command::Application(Application::Quit),
            Command::Configuration(Configuration::OpenConfigFile),
            Command::Configuration(Configuration::OpenConfigDirectory),
            Command::Configuration(Configuration::OpenDataDirectory),
            Command::Configuration(Configuration::OpenCacheDirectory),
            Command::Configuration(Configuration::OpenWebsite),
            Command::Configuration(Configuration::Reload),
            Command::Theme(Theme::OpenEditor),
            Command::Theme(Theme::OpenThemesWebsite),
        ] + all.map_values(|t: theme::Theme| Command::Theme(Theme::Switch(t))) + seq![
            Command::UI(Ui::ToggleSidebarVisibility),
            Command::Window(Window::ToggleFullscreen),
        ]
    }

    /// Lists every palette command for this configuration and version.
    pub fn list(config: &Config, version: &VersionInfo) -> (r: Vec<Command>)
        ensures
            r@ == Command::spec_list(config.appearance.all@, *version),
    {
        let mut r: Vec<Command> = Vec::new();
        r.push(Command::Version(Version::Application(version.clone())));
        r.push(Command::Application(Application::Quit));
        r.push(Command::Configuration(Configuration::OpenConfigFile));
        r.push(Command::Configuration(Configuration::OpenConfigDirectory));
        r.push(Command::Configuration(Configuration::OpenDataDirectory));
        r.push(Command::Configuration(Configuration::OpenCacheDirectory));
        r.push(Command::Configuration(Configuration::OpenWebsite));
        r.push(Command::Configuration(Configuration::Reload));
        r.push(Command::Theme(Theme::OpenEditor));
        r.push(Command::Theme(Theme::OpenThemesWebsite));
        let ghost prefix = r@;
        let all = &config.appearance.all;
        let mut i: usize = 0;
        while i < all.len()
            invariant
                i <= all@.len(),
                prefix.len() == 10,
                r@ == prefix + all@.subrange(0, i as int).map_values(
                    |t: theme::Theme| Command::Theme(Theme::Switch(t)),
                ),
            decreases all@.len() - i,
        {
            r.push(Command::Theme(Theme::Switch(all[i].clone())));
            proof {
                assert(r@ =~= prefix + all@.subrange(0, i + 1).map_values(
                    |t: theme::Theme| Command::Theme(Theme::Switch(t)),
                ));
            }
            i += 1;
        }
        r.push(Command::UI(Ui::ToggleSidebarVisibility));
        r.push(Command::Window(Window::ToggleFullscreen));
        proof {
            assert(all@.subrange(0, all@.len() as int) =~= all@);
            assert(r@ =~= Command::spec_list(config.appearance.all@, *version));
        }
        r
    }

    /// The command's label: its category, a colon, and the entry's label.
    pub open spec fn spec_label(&self) -> Seq<char> {
        match self {
            Command::Configuration(c) => "Configuration: "@ + c.spec_label(),
            Command::UI(u) => "UI: "@ + u.spec_label(),
            Command::Theme(t) => "Theme: "@ + t.spec_label(),
            Command::Version(v) => "Version: "@ + v.spec_label(),
            Command::Window(w) => "Window: "@ + w.spec_label(),
            Command::Application(a) => "Application: "@ + a.spec_label(),
        }
    }

    /// The command's label.
    pub fn label(&self) -> (r: String)
        ensures
            r@ == self.spec_label(),
    {
        match self {
            Command::Configuration(c) => {
                let mut out = String::from_str("Configuration: ");
                out.append(c.label().as_str());
                out
            },
            Command::UI(u) => {
                let mut out = String::from_str("UI: ");
                out.append(u.label().as_str());
                out
            },
            Command::Theme(t) => {
                let mut out = String::from_str("Theme: ");
                out.append(t.label().as_str());
                out
            },
            Command::Version(v) => {
                let mut out = String::from_str("Version: ");
                out.append(v.label().as_str());
                out
            },
            Command::Window(w) => {
                let mut out = String::from_str("Window: ");
                out.append(w.label().as_str());
                out
            },
            Command::Application(a) => {
                let mut out = String::from_str("Application: ");
                out.append(a.label().as_str());
                out
            },
        }
    }
}

/// What the palette asks of its surroundings.
#[derive(Debug)]
pub enum Event {
    Command(Command),
    ThemePreview(Option<theme::Theme>),
    Unfocused,
}

/// One input to the palette.
#[derive(Debug)]
pub enum Message {
    Command(Command),
    Hovered(Command),
    Unfocused,
    Ignored,
}

/// The palette itself: the commands it offers.
#[derive(Debug)]
pub struct CommandPalette {
    pub commands: Vec<Command>,
}

impl CommandPalette {
    /// A palette over every command this configuration and version offer.
    pub fn new(config: &Config, version: &VersionInfo) -> (p: CommandPalette)
        ensures
            p.commands@ == Command::spec_list(config.appearance.all@, *version),
    {
        CommandPalette { commands: Command::list(config, version) }
    }

    /// Answers one message: a chosen command is handed on; hovering a theme
    /// switch previews that theme, hovering anything else clears the
    /// preview; losing focus says so; everything else is ignored.
    pub fn update(&mut self, message: Message) -> (r: Option<Event>)
        ensures
            *final(self) == *old(self),
            match message {
                Message::Command(command) => r == Some(Event::Command(command)),
                Message::Hovered(command) => match command {
                    Command::Theme(Theme::Switch(t)) => r == Some(
                        Event::ThemePreview(Some(t)),
                    ),
                    _ => r == Some(Event::ThemePreview(Option::<theme::Theme>::None)),
                },
                Message::Unfocused => r == Some(Event::Unfocused),
                Message::Ignored => r is None,
            },
    {
        match message {
            Message::Command(command) => Some(Event::Command(command)),
            Message::Hovered(command) => match command {
                Command::Theme(Theme::Switch(t)) => Some(Event::ThemePreview(Some(t))),
                _ => Some(Event::ThemePreview(None)),
            },
            Message::Unfocused => Some(Event::Unfocused),
            Message::Ignored => None,
        }
    }
}

} // verus!
