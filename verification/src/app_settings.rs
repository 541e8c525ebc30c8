//! The application's settings and the form they are saved in.

use crate::save_file::SaveError;
use vstd::prelude::*;
use vstd::std_specs::convert::FromSpecImpl;

verus! {

/// The name of the file of settings, without extension.
pub const SETTINGS_NAME: &'static str = "settings";

/// The extension of the file of settings.
pub const SETTINGS_EXTENSION: &'static str = "pot";

/// The version of the layout of saved settings.
pub const SAVE1_VERSION: u16 = 1;

/// The colours of the window.
#[derive(Debug, Clone, Copy, PartialEq, Eq, Structural)]
pub enum Theme {
    Dark,
    Light,
}

impl Default for Theme {
    /// The light theme.
    fn default() -> (r: Self)
        ensures
            r == Theme::Light,
    {
        Theme::Light
    }
}

/// The application's settings.
#[derive(Debug, Clone, Copy, PartialEq, Eq, Structural)]
pub struct AppSettings {
    theme: Theme,
}

/// The settings as a file keeps them.
#[derive(Debug, Clone, Copy, PartialEq, Eq, Structural)]
pub struct SaveSettings1 {
    save_version: u16,
    theme: Theme,
}

impl Default for AppSettings {
    /// The light theme.
    fn default() -> (r: Self)
        ensures
            r.spec_theme() == Theme::Light,
    {
        AppSettings { theme: Theme::Light }
    }
}

impl AppSettings {
    /// The theme.
    pub closed spec fn spec_theme(self) -> Theme {
        self.theme
    }

    /// The settings that saved settings stand for.
    pub closed spec fn of_saved(data: SaveSettings1) -> AppSettings {
        AppSettings { theme: data.theme }
    }

    /// Settings with the given theme.
    pub fn new(theme: Theme) -> (r: Self)
        ensures
            r.spec_theme() == theme,
    {
        AppSettings { theme }
    }

    /// The theme.
    pub fn theme(&self) -> (r: Theme)
        ensures
            r == self.spec_theme(),
    {
        self.theme
    }

    /// The settings that saved settings stand for; saved settings of another
    /// version than the known one are refused.
    pub fn load_settings(data: SaveSettings1) -> (r: Result<AppSettings, SaveError>)
        ensures
            data.valid() ==> r == Ok::<AppSettings, SaveError>(AppSettings::of_saved(data)),
            !data.valid() ==> r == Err::<AppSettings, SaveError>(SaveError::InvalidData),
    {
        if data.validate() {
            Ok(AppSettings::from(data))
        } else {
            Err(SaveError::InvalidData)
        }
    }
}

impl SaveSettings1 {
    /// The version number.
    pub closed spec fn spec_version(self) -> u16 {
        self.save_version
    }

    /// The theme.
    pub closed spec fn spec_theme(self) -> Theme {
        self.theme
    }

    /// Whether the settings bear the known version.
    pub open spec fn valid(self) -> bool {
        self.spec_version() == SAVE1_VERSION
    }

    /// The saved form of settings: the known version and the theme.
    pub closed spec fn of_settings(settings: AppSettings) -> SaveSettings1 {
        SaveSettings1 { save_version: SAVE1_VERSION, theme: settings.theme }
    }

    /// Saved settings with the given fields, as read back from a file.
    pub fn from_parts(save_version: u16, theme: Theme) -> (r: Self)
        ensures
            r.spec_version() == save_version,
            r.spec_theme() == theme,
    {
        SaveSettings1 { save_version, theme }
    }

    /// Whether the settings bear the known version.
    pub fn validate(&self) -> (r: bool)
        ensures
            r == self.valid(),
    {
        self.save_version == SAVE1_VERSION
    }

    /// The version number.
    pub fn save_version(&self) -> (r: u16)
        ensures
            r == self.spec_version(),
    {
        self.save_version
    }

    /// The theme.
    pub fn theme(&self) -> (r: Theme)
        ensures
            r == self.spec_theme(),
    {
        self.theme
    }
}

impl From<SaveSettings1> for AppSettings {
    /// The settings that saved settings stand for.
    fn from(value: SaveSettings1) -> (r: AppSettings)
        ensures
            r == AppSettings::of_saved(value),
    {
        AppSettings { theme: value.theme }
    }
}

impl FromSpecImpl<SaveSettings1> for AppSettings {
    open spec fn obeys_from_spec() -> bool {
        true
    }

    open spec fn from_spec(value: SaveSettings1) -> AppSettings {
        AppSettings::of_saved(value)
    }
}

impl From<&AppSettings> for SaveSettings1 {
    /// The saved form of settings.
    fn from(value: &AppSettings) -> (r: SaveSettings1)
        ensures
            r == SaveSettings1::of_settings(*value),
    {
        SaveSettings1 { save_version: SAVE1_VERSION, theme: value.theme }
    }
}

impl FromSpecImpl<&AppSettings> for SaveSettings1 {
    open spec fn obeys_from_spec() -> bool {
        true
    }

    open spec fn from_spec(value: &AppSettings) -> SaveSettings1 {
        SaveSettings1::of_settings(*value)
    }
}

/// What saving and loading keep of settings: settings that were saved are
/// valid, and loading them gives the settings back.
pub proof fn law_settings_round_trip(settings: AppSettings)
    ensures
        SaveSettings1::of_settings(settings).valid(),
        SaveSettings1::of_settings(settings).spec_theme() == settings.spec_theme(),
        AppSettings::of_saved(SaveSettings1::of_settings(settings)) == settings,
{
}

/// Settings that are loaded have the theme that was saved.
pub proof fn law_loaded_settings_keep_the_theme(data: SaveSettings1)
    ensures
        AppSettings::of_saved(data).spec_theme() == data.spec_theme(),
{
}

} // verus!
