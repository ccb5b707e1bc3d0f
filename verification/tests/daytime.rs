use wallman::app_state::AppState;
use wallman::config::{BackgroundConfig, Config, DayTimeConfig, FillMode};
use wallman::constants::{day_end, day_start};
use wallman::name_map::NameMap;
use wallman::outputs::resolver::OutputListing;
use wallman::outputs::resolver::SwayOutput;
use wallman::outputs::OutputResolver;
use wallman::triggers::daytime_trigger::{
    choose_image, current_hour, is_daytime, parse_day_range, DayRange,
};
use wallman::triggers::trigger::{Readings, Trigger};
use wallman::triggers::DayTimeTrigger;

fn time_cfg(day: &str, night: &str, range: Option<&str>) -> DayTimeConfig {
    DayTimeConfig {
        day: day.to_string(),
        night: night.to_string(),
        day_range: range.map(|r| r.to_string()),
    }
}

fn state_with(config: Config) -> AppState {
    AppState::new(config, "/cfg".to_string(), None, false, false)
}

fn config_with_time(entries: Vec<(&str, DayTimeConfig)>) -> Config {
    let mut table = NameMap::new();
    for (name, cfg) in entries {
        table.insert(name.to_string(), cfg);
    }
    let mut config = Config::default();
    config.time_config = Some(table);
    config
}

fn listing(names: &[&str]) -> OutputListing {
    OutputListing::Listed(
        names.iter().map(|n| SwayOutput { name: n.to_string(), active: true }).collect(),
    )
}

fn readings(names: &[&str], hour: u32) -> Readings {
    Readings { outputs: listing(names), hour, now: 0, weather_code: None }
}

fn pairs(result: &wallman::triggers::TriggerResult) -> Vec<(String, String)> {
    result.changes.iter().map(|c| (c.output.clone(), c.image_path.clone())).collect()
}

#[test]
fn default_window_is_eight_to_nineteen() {
    assert_eq!(day_start(), 8);
    assert_eq!(day_end(), 19);
    let cfg = time_cfg("d", "n", None);
    for hour in 0..24u32 {
        assert_eq!(is_daytime(&cfg, hour), Some((8..19).contains(&hour)), "hour {hour}");
    }
}

#[test]
fn window_8_19_is_day_from_8_up_to_19() {
    let cfg = time_cfg("d", "n", Some("8-19"));
    for hour in 8..19u32 {
        assert_eq!(is_daytime(&cfg, hour), Some(true), "hour {hour}");
    }
    for hour in (19..24u32).chain(0..8u32) {
        assert_eq!(is_daytime(&cfg, hour), Some(false), "hour {hour}");
    }
    assert_eq!(is_daytime(&cfg, 7), Some(false));
    assert_eq!(is_daytime(&cfg, 8), Some(true));
    assert_eq!(is_daytime(&cfg, 18), Some(true));
    assert_eq!(is_daytime(&cfg, 19), Some(false));
}

#[test]
fn window_22_6_wraps_past_midnight() {
    let cfg = time_cfg("d", "n", Some("22-6"));
    for hour in [22u32, 23, 0, 1, 2, 3, 4, 5] {
        assert_eq!(is_daytime(&cfg, hour), Some(true), "hour {hour}");
    }
    for hour in 6..22u32 {
        assert_eq!(is_daytime(&cfg, hour), Some(false), "hour {hour}");
    }
    assert_eq!(is_daytime(&cfg, 21), Some(false));
    assert_eq!(is_daytime(&cfg, 22), Some(true));
    assert_eq!(is_daytime(&cfg, 5), Some(true));
    assert_eq!(is_daytime(&cfg, 6), Some(false));
}

#[test]
fn a_wrapped_window_is_the_complement_of_the_exchanged_window() {
    let wrapped = time_cfg("d", "n", Some("19-8"));
    let plain = time_cfg("d", "n", Some("8-19"));
    for hour in 0..24u32 {
        assert_eq!(is_daytime(&wrapped, hour), is_daytime(&plain, hour).map(|d| !d));
    }
}

#[test]
fn a_window_with_equal_ends_is_day_all_the_time() {
    let cfg = time_cfg("d", "n", Some("7-7"));
    for hour in 0..24u32 {
        assert_eq!(is_daytime(&cfg, hour), Some(true));
    }
}

#[test]
fn day_ranges_are_read_from_first_and_last_field() {
    assert_eq!(parse_day_range("8-19"), Some(DayRange { day_start: 8, night_start: 19 }));
    assert_eq!(parse_day_range("22-6"), Some(DayRange { day_start: 22, night_start: 6 }));
    assert_eq!(parse_day_range("08-019"), Some(DayRange { day_start: 8, night_start: 19 }));
    assert_eq!(parse_day_range("+8-+19"), Some(DayRange { day_start: 8, night_start: 19 }));
    assert_eq!(parse_day_range("6-12-18"), Some(DayRange { day_start: 6, night_start: 18 }));
    assert_eq!(parse_day_range("7"), Some(DayRange { day_start: 7, night_start: 7 }));
    assert_eq!(parse_day_range("0-4294967295"), Some(DayRange { day_start: 0, night_start: 4294967295 }));
}

#[test]
fn malformed_day_ranges_are_not_read() {
    for text in ["", "-", "8-", "-19", "a-b", "8 - 19", "8-19 ", "8--", "+-1", "1-+", "8-4294967296", "8.5-19", "８-19"] {
        assert_eq!(parse_day_range(text), None, "{text:?}");
    }
    assert_eq!(is_daytime(&time_cfg("d", "n", Some("x")), 12), None);
}

#[test]
fn day_range_reading_agrees_with_the_standard_number_parser() {
    let samples = ["8-19", "22-6", "", "-", "5", "+5", "++5", "-5", "5-", "00-000", "1-2-3", "99999999999-1", " 1-2", "1-2\n", "4294967295-0", "4294967296-0", "+", "1-+"];
    for text in samples {
        let first = text.split('-').next().unwrap().parse::<u32>();
        let last = text.split('-').next_back().unwrap().parse::<u32>();
        let expected = match (first, last) {
            (Ok(a), Ok(b)) => Some(DayRange { day_start: a, night_start: b }),
            _ => None,
        };
        assert_eq!(parse_day_range(text), expected, "{text:?}");
    }
}

#[test]
fn the_clock_hour_is_below_24() {
    assert!(current_hour() < 24);
    let readings = Readings::observe(OutputListing::Unavailable, 5, Some(3));
    assert!(readings.hour < 24);
    assert_eq!(readings.now, 5);
    assert_eq!(readings.weather_code, Some(3));
    let trigger = DayTimeTrigger::new();
    assert!(trigger.is_daytime_for(&time_cfg("d", "n", Some("0-24"))) == Some(true));
    assert!(trigger.is_daytime_for(&time_cfg("d", "n", Some("bad"))).is_none());
}

#[test]
fn the_configured_image_is_taken_if_it_looks_like_a_path() {
    let bg = BackgroundConfig { image: Some("bg.png".to_string()), fill_mode: FillMode::Fill };
    let cfg = time_cfg("day.png", "/abs/night", None);
    assert_eq!(choose_image(&cfg, Some(&bg), true), "day.png");
    assert_eq!(choose_image(&cfg, Some(&bg), false), "/abs/night");
    let words = time_cfg("bright", "dark", None);
    assert_eq!(choose_image(&words, Some(&bg), true), "bg.png");
    assert_eq!(choose_image(&words, Some(&bg), false), "bg.png");
    assert_eq!(choose_image(&words, None, true), "");
    let no_image = BackgroundConfig { image: None, fill_mode: FillMode::Fill };
    assert_eq!(choose_image(&words, Some(&no_image), false), "");
}

#[test]
fn a_change_is_emitted_only_when_the_flag_flips() {
    let state = state_with(config_with_time(vec![("*", time_cfg("/d.png", "/n.png", Some("8-19")))]));
    let mut trigger = DayTimeTrigger::new();

    let first = trigger.evaluate(&state, &readings(&["A", "B"], 10)).unwrap().unwrap();
    assert_eq!(
        pairs(&first),
        vec![("A".to_string(), "/d.png".to_string()), ("B".to_string(), "/d.png".to_string())]
    );

    assert!(trigger.evaluate(&state, &readings(&["A", "B"], 10)).unwrap().is_none());
    assert!(trigger.evaluate(&state, &readings(&["A", "B"], 18)).unwrap().is_none());

    let night = trigger.evaluate(&state, &readings(&["A", "B"], 19)).unwrap().unwrap();
    assert_eq!(
        pairs(&night),
        vec![("A".to_string(), "/n.png".to_string()), ("B".to_string(), "/n.png".to_string())]
    );
    assert!(trigger.evaluate(&state, &readings(&["A", "B"], 23)).unwrap().is_none());
}

#[test]
fn outputs_keep_their_flags_apart() {
    let state = state_with(config_with_time(vec![
        ("A", time_cfg("/a-day.png", "/a-night.png", Some("8-19"))),
        ("B", time_cfg("/b-day.png", "/b-night.png", Some("22-6"))),
    ]));
    let mut trigger = DayTimeTrigger::new();
    let first = trigger.evaluate(&state, &readings(&["A", "B"], 10)).unwrap().unwrap();
    assert_eq!(
        pairs(&first),
        vec![
            ("A".to_string(), "/a-day.png".to_string()),
            ("B".to_string(), "/b-night.png".to_string())
        ]
    );
    let later = trigger.evaluate(&state, &readings(&["A", "B"], 20)).unwrap().unwrap();
    assert_eq!(pairs(&later), vec![("A".to_string(), "/a-night.png".to_string())]);
    let late = trigger.evaluate(&state, &readings(&["A", "B", "C"], 22)).unwrap().unwrap();
    assert_eq!(pairs(&late), vec![("B".to_string(), "/b-day.png".to_string())]);
}

#[test]
fn a_new_output_gets_its_change_on_its_first_tick() {
    let state = state_with(config_with_time(vec![("*", time_cfg("/d.png", "/n.png", None))]));
    let mut trigger = DayTimeTrigger::new();
    assert!(trigger.evaluate(&state, &readings(&["A"], 12)).unwrap().is_some());
    let second = trigger.evaluate(&state, &readings(&["A", "B"], 12)).unwrap().unwrap();
    assert_eq!(pairs(&second), vec![("B".to_string(), "/d.png".to_string())]);
}

#[test]
fn an_output_without_an_image_is_skipped_and_tried_again() {
    let mut config = config_with_time(vec![("*", time_cfg("bright", "dark", None))]);
    let mut trigger = DayTimeTrigger::new();
    let state = state_with(config.clone());
    assert!(trigger.evaluate(&state, &readings(&["A"], 12)).unwrap().is_none());

    let mut bg = NameMap::new();
    bg.insert("A".to_string(), BackgroundConfig { image: Some("/bg.png".to_string()), fill_mode: FillMode::Crop });
    config.background = Some(bg);
    let state = state_with(config);
    let result = trigger.evaluate(&state, &readings(&["A"], 12)).unwrap().unwrap();
    assert_eq!(pairs(&result), vec![("A".to_string(), "/bg.png".to_string())]);
}

#[test]
fn an_output_with_an_unreadable_range_is_skipped() {
    let state = state_with(config_with_time(vec![
        ("A", time_cfg("/d.png", "/n.png", Some("morning-evening"))),
        ("B", time_cfg("/d.png", "/n.png", Some("8-19"))),
    ]));
    let mut trigger = DayTimeTrigger::new();
    let result = trigger.evaluate(&state, &readings(&["A", "B"], 9)).unwrap().unwrap();
    assert_eq!(pairs(&result), vec![("B".to_string(), "/d.png".to_string())]);
}

#[test]
fn relative_images_are_resolved_against_the_pool() {
    let config = config_with_time(vec![("*", time_cfg("day.png", "night.png", None))]);
    let state = AppState::new(config, "/cfg".to_string(), Some("/pool".to_string()), true, true);
    let mut trigger = DayTimeTrigger::new();
    let result = trigger.evaluate(&state, &readings(&["A"], 3)).unwrap().unwrap();
    assert_eq!(pairs(&result), vec![("A".to_string(), "/pool/images/night.png".to_string())]);
}

#[test]
fn without_time_config_nothing_happens() {
    let state = state_with(Config::default());
    let mut trigger = DayTimeTrigger::new();
    assert!(trigger.evaluate(&state, &readings(&["A"], 12)).unwrap().is_none());
    let request = trigger.request(&state, 0);
    assert!(!request.outputs);
    assert!(request.weather_url.is_none());
    assert!(trigger.init(&state, &readings(&["A"], 12)).is_ok());
    let bad = Readings { outputs: OutputListing::Malformed("x".to_string()), hour: 1, now: 0, weather_code: None };
    assert!(trigger.init(&state, &bad).is_ok());
    assert!(trigger.evaluate(&state, &bad).unwrap().is_none());
}

#[test]
fn a_failed_detection_counts_as_no_outputs_for_the_daytime_trigger() {
    let state = state_with(config_with_time(vec![("*", time_cfg("/d.png", "/n.png", None))]));
    let mut trigger = DayTimeTrigger::new();
    for outputs in [
        OutputListing::Malformed("bad json".to_string()),
        OutputListing::Failed,
        OutputListing::Unavailable,
    ] {
        let failed = Readings { outputs, hour: 12, now: 0, weather_code: None };
        assert!(trigger.init(&state, &failed).is_ok());
        assert!(trigger.evaluate(&state, &failed).unwrap().is_none());
    }
    assert!(trigger.request(&state, 0).outputs);
    let good = trigger.evaluate(&state, &readings(&["A"], 12)).unwrap().unwrap();
    assert_eq!(pairs(&good), vec![("A".to_string(), "/d.png".to_string())]);
    let bad = Readings { outputs: OutputListing::Malformed("bad json".to_string()), hour: 20, now: 0, weather_code: None };
    assert!(trigger.evaluate(&state, &bad).unwrap().is_none());
    let night = trigger.evaluate(&state, &readings(&["A"], 20)).unwrap().unwrap();
    assert_eq!(pairs(&night), vec![("A".to_string(), "/n.png".to_string())]);
}

#[test]
fn evaluate_at_uses_the_given_resolver() {
    let state = state_with(config_with_time(vec![("A", time_cfg("/d.png", "/n.png", None))]));
    let resolver = OutputResolver::from_outputs(vec!["B".to_string(), "A".to_string(), "A".to_string()]);
    let mut trigger = DayTimeTrigger::new();
    let result = trigger.evaluate_at(&state, &resolver, 12).unwrap();
    assert_eq!(pairs(&result), vec![("A".to_string(), "/d.png".to_string())]);
    assert!(trigger.evaluate_at(&state, &resolver, 12).is_none());
    assert_eq!(trigger.interval(), 60);
}
