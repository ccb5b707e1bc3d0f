//! Decision core of a wallpaper daemon: which image each display output
//! should show, when to re-evaluate, and which renderer processes to replace.
//!
//! The library decides and never acts. What has to be read outside the
//! process (the compositor's outputs, the weather, the PID file) comes in as
//! plain values, and what has to be done outside (renderers to start and to
//! terminate, signals to send, files to write) goes out as plain values.

pub mod app_state;
pub mod cli;
pub mod config;
pub mod constants;
pub mod daemon;
pub mod format;
pub mod name_map;
pub mod outputs;
pub mod paths;
pub mod text;
pub mod triggers;
pub mod wallpaper;

pub use app_state::AppState;
pub use config::{
    BackgroundConfig, Config, DayTimeConfig, FillMode, WeatherConfig, WeatherImagesConf,
    WeatherStates,
};
pub use constants::{
    config_folder, config_vec, data_folder, day_end, day_start, decompresion_folder,
};
pub use name_map::NameMap;
pub use outputs::OutputResolver;
pub use triggers::{
    DayTimeTrigger, OutputChange, ScheduledTrigger, StaticTrigger, Trigger, TriggerManager,
    TriggerResult, WeatherState, WeatherTrigger,
};
pub use wallpaper::{kill_all, kill_for_output, register_process, ProcessTracker};
