//! The strategies that decide which image each output should show, and the
//! manager that schedules them.

pub mod daytime_trigger;
pub mod manager;
pub mod static_trigger;
pub mod trigger;
pub mod weather_trigger;

pub use daytime_trigger::DayTimeTrigger;
pub use manager::{ScheduledTrigger, TriggerManager};
pub use static_trigger::StaticTrigger;
pub use trigger::{OutputChange, Trigger, TriggerResult};
pub use weather_trigger::{WeatherState, WeatherTrigger};
