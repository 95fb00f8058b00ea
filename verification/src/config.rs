//! The light/dark theme selection.

use vstd::prelude::*;
use vstd::std_specs::convert::FromSpecImpl;
use vstd::string::*;

use crate::colors::ColorOverrides;

verus! {

/// The stem of the file that keeps the selection.
pub const CONFIG_NAME: &'static str = "config.ron";

/// What a selection says: the name of the theme for light mode and the name
/// of the theme for dark mode.
pub struct Selection {
    pub light: Seq<char>,
    pub dark: Seq<char>,
}

impl Selection {
    /// The name of the theme that is in force under a display mode.
    pub open spec fn active(self, dark_mode: bool) -> Seq<char> {
        if dark_mode {
            self.dark
        } else {
            self.light
        }
    }

    /// Whether both modes have a theme named.
    pub open spec fn initialized(self) -> bool {
        self.light.len() > 0 && self.dark.len() > 0
    }
}

/// Names the theme used in light mode and the theme used in dark mode.
#[derive(Debug)]
pub struct Config {
    /// Selected light theme name
    pub light: String,
    /// Selected dark theme name
    pub dark: String,
}

impl View for Config {
    type V = Selection;

    open spec fn view(&self) -> Selection {
        Selection { light: self.light@, dark: self.dark@ }
    }
}

impl Default for Config {
    /// The selection of a first run: no theme named for either mode.
    fn default() -> (config: Self)
        ensures
            config@.light == Seq::<char>::empty(),
            config@.dark == Seq::<char>::empty(),
    {
        Config { light: String::new(), dark: String::new() }
    }
}

impl Clone for Config {
    fn clone(&self) -> (copy: Self)
        ensures
            copy == *self,
    {
        Config { light: self.light.clone(), dark: self.dark.clone() }
    }
}

/// What loading the selection comes to.
#[derive(Debug)]
pub struct Loaded {
    /// The selection in force.
    pub config: Config,
    /// Whether the selection was made up just now and has yet to be stored.
    pub persist: bool,
}

impl Config {
    /// A selection of the two given theme names.
    pub fn new(light: String, dark: String) -> (config: Self)
        ensures
            config.light == light,
            config.dark == dark,
    {
        Self { light, dark }
    }

    /// The name of the file that keeps the selection.
    pub fn file_name() -> (name: String)
        ensures
            name@ == CONFIG_NAME@ + ".toml"@,
    {
        let mut name = String::from_str(CONFIG_NAME);
        name.append(".toml");
        name
    }

    /// Settles on the selection in force, given the stored one if there is
    /// one. Where nothing is stored, the selection of a first run is in force,
    /// and has to be stored before anything else happens.
    pub fn load(stored: Option<Config>) -> (loaded: Loaded)
        ensures
            stored matches Some(config) ==> loaded.config == config && !loaded.persist,
            stored is None ==> loaded.config@.light == Seq::<char>::empty() && loaded.config@.dark
                == Seq::<char>::empty() && loaded.persist,
    {
        match stored {
            Some(config) => Loaded { config, persist: false },
            None => Loaded { config: Config::default(), persist: true },
        }
    }

    /// The name of the active theme: the dark one in dark mode, the light one
    /// otherwise.
    pub fn active_name(&self, dark_mode: bool) -> (name: String)
        ensures
            name@ == self@.active(dark_mode),
            dark_mode ==> name@ == self.dark@,
            !dark_mode ==> name@ == self.light@,
    {
        if dark_mode {
            self.dark.clone()
        } else {
            self.light.clone()
        }
    }

    /// Tells whether both modes have a theme named.
    pub fn is_initialized(&self) -> (named: bool)
        ensures
            named == self@.initialized(),
    {
        !self.light.as_str().is_empty() && !self.dark.as_str().is_empty()
    }

    /// Selects the theme for light mode. The theme for dark mode stays.
    pub fn set_active_light(&mut self, new: &str)
        ensures
            final(self).light@ == new@,
            final(self).dark == old(self).dark,
    {
        self.light = String::from_str(new);
    }

    /// Selects the theme for dark mode. The theme for light mode stays.
    pub fn set_active_dark(&mut self, new: &str)
        ensures
            final(self).dark@ == new@,
            final(self).light == old(self).light,
    {
        self.dark = String::from_str(new);
    }
}

impl From<(ColorOverrides, ColorOverrides)> for Config {
    /// Selects the first document's theme for light mode and the second's for
    /// dark mode.
    fn from(themes: (ColorOverrides, ColorOverrides)) -> (config: Self) {
        Config { light: themes.0.name, dark: themes.1.name }
    }
}

impl FromSpecImpl<(ColorOverrides, ColorOverrides)> for Config {
    open spec fn obeys_from_spec() -> bool {
        true
    }

    open spec fn from_spec(themes: (ColorOverrides, ColorOverrides)) -> Config {
        Config { light: themes.0.name, dark: themes.1.name }
    }
}

impl From<ColorOverrides> for Config {
    /// Selects the document's theme for both modes.
    fn from(theme: ColorOverrides) -> (config: Self) {
        Config { light: theme.name.clone(), dark: theme.name }
    }
}

impl FromSpecImpl<ColorOverrides> for Config {
    open spec fn obeys_from_spec() -> bool {
        true
    }

    open spec fn from_spec(theme: ColorOverrides) -> Config {
        Config { light: theme.name, dark: theme.name }
    }
}

} // verus!
