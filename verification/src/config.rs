//! The editor's configuration: fonts, key bindings, and how the themes
//! found on disk are resolved against the configured theme keys.
use vstd::prelude::*;

use crate::appearance::Appearance;
use crate::appearance::Selected;
use crate::keys::Keyboard;
use crate::strutil;
use crate::theme;

verus! {

/// A font weight, by its configuration name.
#[derive(Clone, Copy, Debug, PartialEq, Eq, Structural)]
pub enum FontWeight {
    Thin,
    ExtraLight,
    Light,
    Normal,
    Medium,
    Semibold,
    Bold,
    ExtraBold,
    Black,
}

/// The weight used when the configuration names none.
pub fn default_font_weight() -> (w: FontWeight)
    ensures
        w == FontWeight::Normal,
{
    FontWeight::Normal
}

/// The weight a configuration name denotes, or `None` for any other string.
pub open spec fn spec_font_weight_from_name(s: Seq<char>) -> Option<FontWeight> {
    if s == "thin"@ {
        Some(FontWeight::Thin)
    } else if s == "extra-light"@ {
        Some(FontWeight::ExtraLight)
    } else if s == "light"@ {
        Some(FontWeight::Light)
    } else if s == "normal"@ {
        Some(FontWeight::Normal)
    } else if s == "medium"@ {
        Some(FontWeight::Medium)
    } else if s == "semibold"@ {
        Some(FontWeight::Semibold)
    } else if s == "bold"@ {
        Some(FontWeight::Bold)
    } else if s == "extra-bold"@ {
        Some(FontWeight::ExtraBold)
    } else if s == "black"@ {
        Some(FontWeight::Black)
    } else {
        Option::<FontWeight>::None
    }
}

/// Reads a font weight from its configuration name; any other string is
/// rejected.
pub fn font_weight_from_name(name: &str) -> (r: Option<FontWeight>)
    ensures
        r == spec_font_weight_from_name(name@),
{
    if strutil::str_equal(name, "thin") {
        Some(FontWeight::Thin)
    } else if strutil::str_equal(name, "extra-light") {
        Some(FontWeight::ExtraLight)
    } else if strutil::str_equal(name, "light") {
        Some(FontWeight::Light)
    } else if strutil::str_equal(name, "normal") {
        Some(FontWeight::Normal)
    } else if strutil::str_equal(name, "medium") {
        Some(FontWeight::Medium)
    } else if strutil::str_equal(name, "semibold") {
        Some(FontWeight::Semibold)
    } else if strutil::str_equal(name, "bold") {
        Some(FontWeight::Bold)
    } else if strutil::str_equal(name, "extra-bold") {
        Some(FontWeight::ExtraBold)
    } else if strutil::str_equal(name, "black") {
        Some(FontWeight::Black)
    } else {
        None
    }
}

/// The font section of the configuration.
#[derive(Debug)]
pub struct Font {
    pub family: Option<String>,
    pub size: Option<u8>,
    pub weight: FontWeight,
    pub bold_weight: Option<FontWeight>,
}

impl Clone for Font {
    fn clone(&self) -> (r: Self)
        ensures
            r.family == self.family,
            r.size == self.size,
            r.weight == self.weight,
            r.bold_weight == self.bold_weight,
    {
        let family = match &self.family {
            Some(f) => Some(f.clone()),
            None => None,
        };
        Font { family, size: self.size, weight: self.weight, bold_weight: self.bold_weight }
    }
}

impl Default for Font {
    /// No family or size preference, and the normal weight.
    fn default() -> (f: Font)
        ensures
            f.family is None,
            f.size is None,
            f.weight == FontWeight::Normal,
            f.bold_weight is None,
    {
        Font { family: None, size: None, weight: FontWeight::Normal, bold_weight: None }
    }
}

/// Whether tooltips are shown when the configuration does not say.
pub fn default_tooltip() -> (r: bool)
    ensures
        r,
{
    true
}

/// Why loading the configuration failed.
#[derive(Debug, Clone, PartialEq, Eq)]
pub enum Error {
    /// The configuration file exists but could not be read.
    LoadConfigFile(String),
    /// Some other read or write failed.
    Io(String),
    /// The configuration file is not valid TOML.
    Parse(String),
    /// A file was not valid UTF-8.
    Utf8(String),
    /// No configuration file exists; the flag says whether a leftover YAML
    /// configuration from an older version was found instead.
    ConfigMissing { has_yaml_config: bool },
}

/// The whole configuration.
#[derive(Debug)]
pub struct Config {
    pub appearance: Appearance,
    pub font: Font,
    pub keyboard: Keyboard,
}

impl Default for Config {
    fn default() -> (c: Config)
        ensures
            c.appearance.selected is Static,
            c.font.family is None && c.font.size is None && c.font.weight == FontWeight::Normal
                && c.font.bold_weight is None,
            c.keyboard == crate::keys::spec_default_keyboard(),
    {
        Config {
            appearance: Appearance::default(),
            font: Font::default(),
            keyboard: Keyboard::default(),
        }
    }
}

/// The last theme in `entries` whose name is exactly `key`, if any.
pub open spec fn spec_last_match(entries: Seq<theme::Theme>, key: Seq<char>) -> Option<
    theme::Theme,
>
    decreases entries.len(),
{
    if entries.len() == 0 {
        Option::<theme::Theme>::None
    } else if entries.last().name@ == key {
        Some(entries.last())
    } else {
        spec_last_match(entries.drop_last(), key)
    }
}

/// Whether `t` is the theme `key` resolves to among `entries`: the last
/// entry of that name, or the default theme when none matches.
pub open spec fn resolves_to(entries: Seq<theme::Theme>, key: Seq<char>, t: theme::Theme) -> bool {
    match spec_last_match(entries, key) {
        Some(m) => t == m,
        None => theme::is_default_theme(t),
    }
}

/// Whether some entry is the built-in theme, by case-folded name.
pub open spec fn spec_has_builtin(entries: Seq<theme::Theme>) -> bool {
    exists|j: int|
        0 <= j < entries.len() && #[trigger] strutil::lower_of(entries[j].name@)
            == theme::DEFAULT_THEME_NAME@
}

/// Resolves the configured theme keys against the themes found on disk.
/// One key selects a static theme; a pair selects a dynamic light / dark
/// pair. A key nothing matches falls back to the default theme, and the
/// default theme is appended to the list unless an entry already carries
/// its name (in any case).
pub fn select_appearance(entries: Vec<theme::Theme>, first_key: &str, second_key: Option<&str>) -> (a:
    Appearance)
    ensures
        match second_key {
            None => a.selected matches Selected::Static(t) && resolves_to(
                entries@,
                first_key@,
                t,
            ),
            Some(k) => a.selected matches Selected::Dynamic { light, dark } && resolves_to(
                entries@,
                first_key@,
                light,
            ) && resolves_to(entries@, k@, dark),
        },
        spec_has_builtin(entries@) ==> a.all@ == entries@,
        !spec_has_builtin(entries@) ==> {
            &&& a.all@.len() == entries@.len() + 1
            &&& a.all@.subrange(0, entries@.len() as int) == entries@
            &&& theme::is_default_theme(a.all@.last())
        },
{
    let mut first: Option<theme::Theme> = None;
    let mut second: Option<theme::Theme> = None;
    let mut has_builtin = false;
    let mut i: usize = 0;
    while i < entries.len()
        invariant
            i <= entries@.len(),
            first == spec_last_match(entries@.subrange(0, i as int), first_key@),
            match second_key {
                Some(k) => second == spec_last_match(entries@.subrange(0, i as int), k@),
                None => second is None,
            },
            has_builtin == spec_has_builtin(entries@.subrange(0, i as int)),
        decreases entries@.len() - i,
    {
        let ghost pre = entries@.subrange(0, i as int);
        let ghost post = entries@.subrange(0, i + 1);
        proof {
            assert(post.drop_last() =~= pre);
            assert(post.last() == entries@[i as int]);
        }
        let name = entries[i].name.as_str();
        if strutil::str_equal(name, first_key) {
            first = Some(entries[i].clone());
        }
        match second_key {
            Some(k) => {
                if strutil::str_equal(name, k) {
                    second = Some(entries[i].clone());
                }
            },
            None => {},
        }
        let folded = strutil::lowercase(name);
        if strutil::str_equal(folded.as_str(), theme::DEFAULT_THEME_NAME) {
            has_builtin = true;
        }
        proof {
            assert(has_builtin == spec_has_builtin(post)) by {
                if spec_has_builtin(post) && !spec_has_builtin(pre) {
                    let j = choose|j: int|
                        0 <= j < post.len() && #[trigger] strutil::lower_of(post[j].name@)
                            == theme::DEFAULT_THEME_NAME@;
                    assert(j == i);
                }
            }
        }
        i += 1;
    }
    proof {
        assert(entries@.subrange(0, entries@.len() as int) =~= entries@);
    }
    let first_theme = match first {
        Some(t) => t,
        None => theme::Theme::default(),
    };
    let selected = match second_key {
        Some(_) => {
            let dark = match second {
                Some(t) => t,
                None => theme::Theme::default(),
            };
            Selected::dynamic(first_theme, dark)
        },
        None => Selected::specific(first_theme),
    };
    let mut all = entries;
    if !has_builtin {
        all.push(theme::Theme::default());
    }
    Appearance { selected, all }
}

} // verus!
