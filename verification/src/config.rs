//! The configuration that the daemon consumes.

use vstd::prelude::*;
use vstd::string::StringExecFns;
use crate::name_map::NameMap;
use crate::text::str_eq;

verus! {

/// How an image is fitted to an output.
#[derive(Debug, Clone, Copy, PartialEq, Eq, Structural)]
pub enum FillMode {
    Fill,
    Crop,
    Scale,
}

impl FillMode {
    /// The word by which the renderer knows the mode.
    pub open spec fn spec_name(self) -> Seq<char> {
        match self {
            FillMode::Fill => "fill"@,
            FillMode::Crop => "crop"@,
            FillMode::Scale => "scale"@,
        }
    }

    /// The word by which the renderer knows the mode.
    pub fn name(self) -> (word: &'static str)
        ensures
            word@ == self.spec_name(),
    {
        match self {
            FillMode::Fill => "fill",
            FillMode::Crop => "crop",
            FillMode::Scale => "scale",
        }
    }
}

/// The background of one output.
#[derive(Debug, Clone)]
pub struct BackgroundConfig {
    pub image: Option<String>,
    pub fill_mode: FillMode,
}

/// The day and night images of one output, and when day is.
#[derive(Debug, Clone)]
pub struct DayTimeConfig {
    pub day: String,
    pub night: String,
    /// The day window as `start-end`, in hours.
    pub day_range: Option<String>,
}

/// Where the weather is asked for, and the image for each weather.
#[derive(Debug, Clone)]
pub struct WeatherConfig {
    /// Latitude, as it is written in a request.
    pub lat: String,
    /// Longitude, as it is written in a request.
    pub lon: String,
    /// Image by weather key.
    pub weather: NameMap<String>,
}

/// The weathers that a configuration can name.
#[derive(Debug, Clone, Copy, PartialEq, Eq, Structural)]
pub enum WeatherStates {
    Cloudy,
    Sunny,
    Raining,
    Snowing,
    Lighting,
}

/// An image and the weather it is shown in.
#[derive(Debug, Clone)]
pub struct WeatherImagesConf {
    pub image: String,
    pub weather: WeatherStates,
}

/// The whole configuration. The three per-output tables are keyed by output
/// name or by the wildcard key.
#[derive(Debug, Clone)]
pub struct Config {
    pub pool: Option<String>,
    pub version: Option<i32>,
    pub name: Option<String>,
    pub description: Option<String>,
    pub theme: Option<String>,
    pub background: Option<NameMap<BackgroundConfig>>,
    pub time_config: Option<NameMap<DayTimeConfig>>,
    pub weather: Option<NameMap<WeatherConfig>>,
}

/// The name that a configuration has until it is given one.
pub open spec fn default_name() -> Seq<char> {
    "wallman"@
}

/// The name that results when a configuration named `own` takes in a theme
/// named `theme`: the theme's, where the configuration has none or the
/// default one.
pub open spec fn merged_name(own: Option<String>, theme: Option<String>) -> Option<String> {
    match own {
        None => theme,
        Some(n) => if n@ == default_name() {
            theme
        } else {
            own
        },
    }
}

impl Config {
    /// Takes the settings of a theme's manifest into this configuration. The
    /// theme's tables replace this configuration's where the theme has them;
    /// the theme's name is taken where this configuration has none of its
    /// own.
    pub fn merge_theme(&mut self, theme_config: Config)
        ensures
            final(self).background == if theme_config.background is Some {
                theme_config.background
            } else {
                old(self).background
            },
            final(self).time_config == if theme_config.time_config is Some {
                theme_config.time_config
            } else {
                old(self).time_config
            },
            final(self).weather == if theme_config.weather is Some {
                theme_config.weather
            } else {
                old(self).weather
            },
            final(self).name == merged_name(old(self).name, theme_config.name),
            final(self).pool == old(self).pool,
            final(self).version == old(self).version,
            final(self).description == old(self).description,
            final(self).theme == old(self).theme,
    {
        if theme_config.background.is_some() {
            self.background = theme_config.background;
        }
        if theme_config.time_config.is_some() {
            self.time_config = theme_config.time_config;
        }
        if theme_config.weather.is_some() {
            self.weather = theme_config.weather;
        }
        let takes_name = match &self.name {
            None => true,
            Some(n) => str_eq(n.as_str(), "wallman"),
        };
        if takes_name {
            self.name = theme_config.name;
        }
    }
}

impl Config {
    /// The manifest that a new theme named `name` starts with.
    pub fn for_new_theme(name: String) -> (config: Self)
        ensures
            config.pool is None,
            config.version == Some(1i32),
            config.name == Some(name),
            config.description matches Some(d) && d@ == "A wallman theme"@,
            config.theme is None,
            config.background is None,
            config.time_config is None,
            config.weather is None,
    {
        Config {
            pool: None,
            version: Some(1),
            name: Some(name),
            description: Some(String::from_str("A wallman theme")),
            theme: None,
            background: None,
            time_config: None,
            weather: None,
        }
    }
}

impl Default for Config {
    fn default() -> (config: Self)
        ensures
            config.pool is None,
            config.version == Some(1i32),
            config.name matches Some(n) && n@ == default_name(),
            config.description matches Some(d) && d@ == "Dynamic wallpaper manager for Sway"@,
            config.theme is None,
            config.background is None,
            config.time_config is None,
            config.weather is None,
    {
        Config {
            pool: None,
            version: Some(1),
            name: Some(String::from_str("wallman")),
            description: Some(String::from_str("Dynamic wallpaper manager for Sway")),
            theme: None,
            background: None,
            time_config: None,
            weather: None,
        }
    }
}

} // verus!
