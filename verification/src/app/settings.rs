//! The user's preferences. A missing file stands for the defaults; a broken
//! one does too, with a warning.
use vstd::prelude::*;

use crate::persistence::{join, joined};
use crate::text::same_text;

verus! {

/// The colour theme.
#[derive(Clone, Copy, Debug, PartialEq, Eq, Structural)]
pub enum ThemePref {
    Light,
    Dark,
    System,
}

impl Default for ThemePref {
    fn default() -> (r: ThemePref)
        ensures
            r is Dark,
    {
        ThemePref::Dark
    }
}

impl ThemePref {
    pub open spec fn spec_label(self) -> Seq<char> {
        match self {
            ThemePref::Light => "light"@,
            ThemePref::Dark => "dark"@,
            ThemePref::System => "system"@,
        }
    }

    /// The theme as it is stored.
    pub fn label(&self) -> (r: &'static str)
        ensures
            r@ == self.spec_label(),
    {
        match *self {
            ThemePref::Light => "light",
            ThemePref::Dark => "dark",
            ThemePref::System => "system",
        }
    }

    /// The theme that a stored text stands for, if any.
    pub fn from_label(text: &str) -> (r: Option<ThemePref>)
        ensures
            r matches Some(t) ==> t.spec_label() == text@,
            r is None ==> forall|t: ThemePref| #[trigger] t.spec_label() != text@,
    {
        if same_text(text, "light") {
            Some(ThemePref::Light)
        } else if same_text(text, "dark") {
            Some(ThemePref::Dark)
        } else if same_text(text, "system") {
            Some(ThemePref::System)
        } else {
            None
        }
    }
}

/// Two themes are never stored alike, so a stored theme is the one that loads.
pub proof fn themes_are_stored_apart(a: ThemePref, b: ThemePref)
    requires
        a.spec_label() == b.spec_label(),
    ensures
        a == b,
{
    reveal_strlit("light");
    reveal_strlit("dark");
    reveal_strlit("system");
    assert("light"@.len() == 5 && "dark"@.len() == 4 && "system"@.len() == 6);
}

/// The user's preferences.
#[derive(Clone, Copy, Debug, PartialEq, Eq, Structural)]
pub struct UiSettings {
    pub theme: ThemePref,
}

impl Default for UiSettings {
    fn default() -> (r: UiSettings)
        ensures
            r.theme is Dark,
    {
        UiSettings { theme: ThemePref::default() }
    }
}

/// What reading the settings file gave.
#[derive(Debug, PartialEq)]
pub enum StoredSettings {
    Missing,
    Unreadable { why: String },
    Broken { why: String },
    /// The stored theme, where the file names one, as it is written there.
    Found { theme: Option<String> },
}

/// What the user should know of the settings file.
#[derive(Debug, PartialEq)]
pub enum SettingsWarning {
    Unreadable { why: String },
    Broken { why: String },
    UnknownTheme { theme: String },
}

impl SettingsWarning {
    pub open spec fn spec_text(self, path: Seq<char>) -> Seq<char> {
        match self {
            SettingsWarning::Unreadable { why } => "无法读取设置文件 "@ + path + "："@ + why@,
            SettingsWarning::Broken { why } => "设置文件损坏，已回退默认（"@ + path + "）："@ + why@,
            SettingsWarning::UnknownTheme { theme } => "设置文件损坏，已回退默认（"@ + path + "）："@ + theme@,
        }
    }

    /// The warning in words, for the settings file at `path`.
    pub fn text(&self, path: &str) -> (r: String)
        ensures
            r@ == self.spec_text(path@),
    {
        match self {
            SettingsWarning::Unreadable { why } => {
                let mut s = String::from_str("无法读取设置文件 ");
                s.append(path);
                s.append("：");
                s.append(why.as_str());
                s
            },
            SettingsWarning::Broken { why } => {
                let mut s = String::from_str("设置文件损坏，已回退默认（");
                s.append(path);
                s.append("）：");
                s.append(why.as_str());
                s
            },
            SettingsWarning::UnknownTheme { theme } => {
                let mut s = String::from_str("设置文件损坏，已回退默认（");
                s.append(path);
                s.append("）：");
                s.append(theme.as_str());
                s
            },
        }
    }
}

impl UiSettings {
    /// Where the settings are kept.
    pub fn path(data_dir: &str) -> (r: String)
        ensures
            r@ == joined(data_dir@, "settings.toml"@),
    {
        join(data_dir, "settings.toml")
    }

    /// The settings that the file stands for, and a warning where it is
    /// broken.
    pub fn load(stored: StoredSettings) -> (r: (UiSettings, Option<SettingsWarning>))
        ensures
            match stored {
                StoredSettings::Missing => r.0.theme is Dark && r.1 is None,
                StoredSettings::Unreadable { why } => r.0.theme is Dark && r.1 == Some(
                    SettingsWarning::Unreadable { why },
                ),
                StoredSettings::Broken { why } => r.0.theme is Dark && r.1 == Some(SettingsWarning::Broken { why }),
                StoredSettings::Found { theme: None } => r.0.theme is Dark && r.1 is None,
                StoredSettings::Found { theme: Some(t) } => {
                    ||| r.0.theme.spec_label() == t@ && r.1 is None
                    ||| (forall|x: ThemePref| #[trigger] x.spec_label() != t@) && r.0.theme is Dark && r.1 == Some(
                        SettingsWarning::UnknownTheme { theme: t },
                    )
                },
            },
    {
        match stored {
            StoredSettings::Missing => (UiSettings::default(), None),
            StoredSettings::Unreadable { why } => (UiSettings::default(), Some(SettingsWarning::Unreadable { why })),
            StoredSettings::Broken { why } => (UiSettings::default(), Some(SettingsWarning::Broken { why })),
            StoredSettings::Found { theme } => match theme {
                None => (UiSettings::default(), None),
                Some(t) => match ThemePref::from_label(t.as_str()) {
                    Some(theme) => (UiSettings { theme }, None),
                    None => (UiSettings::default(), Some(SettingsWarning::UnknownTheme { theme: t })),
                },
            },
        }
    }

    /// The theme as the settings file holds it.
    pub fn save(&self) -> (r: String)
        ensures
            r@ == self.theme.spec_label(),
    {
        String::from_str(self.theme.label())
    }
}

/// Settings that are saved and loaded again are the same, without a warning.
pub proof fn saved_settings_load(settings: UiSettings, saved: String, loaded: (UiSettings, Option<SettingsWarning>))
    requires
        call_ensures(UiSettings::save, (&settings,), saved),
        call_ensures(UiSettings::load, (StoredSettings::Found { theme: Some(saved) },), loaded),
    ensures
        loaded.0 == settings,
        loaded.1 is None,
{
    assert(settings.theme.spec_label() == saved@);
    themes_are_stored_apart(loaded.0.theme, settings.theme);
}

} // verus!
