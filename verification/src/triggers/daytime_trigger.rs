//! The trigger that switches images between day and night.

use vstd::prelude::*;
use chrono::Timelike;
use crate::app_state::AppState;
use crate::config::{BackgroundConfig, Config, DayTimeConfig};
use crate::constants::{day_end, day_start, spec_day_end, spec_day_start};
use crate::name_map::NameMap;
use crate::outputs::resolver::{
    listing_names, resolve_entry, resolve_in, resolved_keys, OutputResolver,
};
use crate::text::{chars_of, contains_char, parse_u32_in, parsed_u32};
use crate::triggers::trigger::{
    changes_view, emitted, lemma_emitted_for, lemma_emitted_from, lemma_emitted_none,
    lemma_recorded, recorded,
    Decision, EvalError, InitError, OutputChange, Readings, Request, Trigger, TriggerResult,
};

verus! {

/// A day window: day begins with the hour `day_start` and ends before the
/// hour `night_start`.
#[derive(Debug, Clone, Copy, PartialEq, Eq, Structural)]
pub struct DayRange {
    pub day_start: u32,
    pub night_start: u32,
}

/// Whether `hour` lies in the day window. A window whose start is below its
/// end is the hours from start up to, not including, end; any other window
/// wraps past midnight.
pub open spec fn in_day_window(range: DayRange, hour: u32) -> bool {
    if range.day_start < range.night_start {
        range.day_start <= hour < range.night_start
    } else {
        hour >= range.day_start || hour < range.night_start
    }
}

/// The window that holds where a configuration names none.
pub open spec fn default_day_range() -> DayRange {
    DayRange { day_start: spec_day_start(), night_start: spec_day_end() }
}

/// Whether the first `-` of `text` is at `i`.
pub open spec fn is_first_dash(text: Seq<char>, i: int) -> bool {
    &&& 0 <= i < text.len()
    &&& text[i] == '-'
    &&& forall|j: int| 0 <= j < i ==> text[j] != '-'
}

/// Whether the last `-` of `text` is at `i`.
pub open spec fn is_last_dash(text: Seq<char>, i: int) -> bool {
    &&& 0 <= i < text.len()
    &&& text[i] == '-'
    &&& forall|j: int| i < j < text.len() ==> text[j] != '-'
}

/// The part of `text` before its first `-`: all of it where it has none.
pub open spec fn first_field(text: Seq<char>) -> Seq<char> {
    if exists|i: int| is_first_dash(text, i) {
        text.take(choose|i: int| is_first_dash(text, i))
    } else {
        text
    }
}

/// The part of `text` after its last `-`: all of it where it has none.
pub open spec fn last_field(text: Seq<char>) -> Seq<char> {
    if exists|i: int| is_last_dash(text, i) {
        text.skip((choose|i: int| is_last_dash(text, i)) + 1)
    } else {
        text
    }
}

/// The window that `text` writes as `start-end`: the start is read from
/// what stands before the first `-`, the end from what stands after the
/// last. None where either is no number.
pub open spec fn parsed_day_range(text: Seq<char>) -> Option<DayRange> {
    match (parsed_u32(first_field(text)), parsed_u32(last_field(text))) {
        (Some(day_start), Some(night_start)) => Some(DayRange { day_start, night_start }),
        _ => None,
    }
}

/// The day window of a configuration, or none where its range cannot be
/// read.
pub open spec fn day_range_of(cfg: DayTimeConfig) -> Option<DayRange> {
    match cfg.day_range {
        Some(text) => parsed_day_range(text@),
        None => Some(default_day_range()),
    }
}

/// Whether it is day at `hour` under `cfg`, or none where its range cannot
/// be read.
pub open spec fn day_flag(cfg: DayTimeConfig, hour: u32) -> Option<bool> {
    match day_range_of(cfg) {
        Some(range) => Some(in_day_window(range, hour)),
        None => None,
    }
}

/// A window that wraps past midnight is day exactly when the window with
/// start and end exchanged is night.
pub proof fn lemma_wrapped_window_is_complement(range: DayRange, hour: u32)
    requires
        range.day_start != range.night_start,
    ensures
        in_day_window(range, hour) == !in_day_window(
            DayRange { day_start: range.night_start, night_start: range.day_start },
            hour,
        ),
{
}

/// Whether `text` names a file rather than a plain word.
pub open spec fn looks_like_path(text: Seq<char>) -> bool {
    text.contains('/') || text.contains('.')
}

/// The image of a background entry, empty where it has none.
pub open spec fn background_image(bg: Option<BackgroundConfig>) -> Seq<char> {
    match bg {
        Some(b) => match b.image {
            Some(path) => path@,
            None => Seq::empty(),
        },
        None => Seq::empty(),
    }
}

/// The image for day or night: the configured one if it looks like a path,
/// else the output's background image. Empty where neither gives one.
pub open spec fn chosen_image(cfg: DayTimeConfig, bg: Option<BackgroundConfig>, is_day: bool) -> Seq<
    char,
> {
    let own = if is_day {
        cfg.day@
    } else {
        cfg.night@
    };
    if looks_like_path(own) {
        own
    } else {
        background_image(bg)
    }
}

/// The background entry that applies to `output`.
pub open spec fn background_for(config: Config, output: Seq<char>) -> Option<BackgroundConfig> {
    match config.background {
        Some(table) => resolve_entry(table@, output),
        None => None,
    }
}

/// What the trigger decides for an output with `on_record` as its last
/// flag: nothing where the range cannot be read, the flag is the one on
/// record or no image is to be had; else the new flag and image.
pub open spec fn daytime_decision(
    on_record: Option<bool>,
    cfg: DayTimeConfig,
    bg: Option<BackgroundConfig>,
    state: AppState,
    hour: u32,
) -> Option<Decision<bool>> {
    match day_flag(cfg, hour) {
        None => None,
        Some(is_day) => if on_record == Some(is_day) {
            None
        } else {
            let image = chosen_image(cfg, bg, is_day);
            if image.len() == 0 {
                None
            } else {
                Some(Decision { record: is_day, image_path: state.resolved_path(image) })
            }
        },
    }
}

/// What the trigger decides for each output, with `flags` on record.
pub open spec fn daytime_decide(flags: Map<Seq<char>, bool>, state: AppState, hour: u32) -> spec_fn(
    Seq<char>,
) -> Option<Decision<bool>> {
    |output: Seq<char>|
        match state.config.time_config {
            Some(table) => match resolve_entry(table@, output) {
                Some(cfg) => daytime_decision(
                    flags.get(output),
                    cfg,
                    background_for(state.config, output),
                    state,
                    hour,
                ),
                None => None,
            },
            None => None,
        }
}

/// An output gets a change only where its flag differs from the one on
/// record, and the new flag is on record afterwards.
pub proof fn lemma_change_only_on_flip(
    outputs: Seq<Seq<char>>,
    flags: Map<Seq<char>, bool>,
    state: AppState,
    hour: u32,
    j: int,
)
    requires
        0 <= j < emitted(outputs, daytime_decide(flags, state, hour)).len(),
    ensures
        ({
            let decide = daytime_decide(flags, state, hour);
            let change = emitted(outputs, decide)[j];
            &&& decide(change.output) matches Some(d) && flags.get(change.output) != Some(d.record)
                && recorded(outputs, flags, decide).get(change.output) == Some(d.record)
        }),
{
    let decide = daytime_decide(flags, state, hour);
    let change = emitted(outputs, decide)[j];
    lemma_emitted_from(outputs, decide, j);
    lemma_recorded(outputs, flags, decide, change.output);
}

/// An output whose flag differs from the one on record gets a change on
/// that tick, where its range can be read and an image is to be had.
pub proof fn lemma_flip_is_emitted(
    outputs: Seq<Seq<char>>,
    flags: Map<Seq<char>, bool>,
    state: AppState,
    hour: u32,
    output: Seq<char>,
)
    requires
        outputs.contains(output),
        state.config.time_config matches Some(table) && resolve_entry(table@, output) matches Some(
            cfg,
        ) && day_flag(cfg, hour) matches Some(is_day) && flags.get(output) != Some(is_day)
            && chosen_image(cfg, background_for(state.config, output), is_day).len() > 0,
    ensures
        exists|j: int|
            0 <= j < emitted(outputs, daytime_decide(flags, state, hour)).len() && (#[trigger] emitted(
                outputs,
                daytime_decide(flags, state, hour),
            )[j]).output == output,
{
    lemma_emitted_for(outputs, daytime_decide(flags, state, hour), output);
}

/// An evaluation that follows another with nothing changed in between
/// emits no change.
pub proof fn lemma_repeat_is_quiet(
    outputs: Seq<Seq<char>>,
    flags: Map<Seq<char>, bool>,
    state: AppState,
    hour: u32,
)
    ensures
        emitted(
            outputs,
            daytime_decide(
                recorded(outputs, flags, daytime_decide(flags, state, hour)),
                state,
                hour,
            ),
        ).len() == 0,
{
    let first = daytime_decide(flags, state, hour);
    let after = recorded(outputs, flags, first);
    let second = daytime_decide(after, state, hour);
    assert forall|k: Seq<char>| outputs.contains(k) implies second(k) is None by {
        lemma_recorded(outputs, flags, first, k);
    }
    lemma_emitted_none(outputs, second);
}

/// `chrono::Local::now` and `chrono::Timelike::hour`: the hour of the local
/// wall clock. The clock decides which hour it is; chrono documents that
/// the hour is a number from 0 to 23, and only that is claimed. chrono
/// panics where the system clock stands before 1970 or the time zone data
/// cannot be used; nothing that is handed to the call decides that.
#[verifier::external_body]
fn local_hour() -> (hour: u32)
    ensures
        hour < 24,
{
    chrono::Local::now().hour()
}

/// The hour of the local wall clock, from 0 to 23.
pub fn current_hour() -> (hour: u32)
    ensures
        hour < 24,
{
    local_hour()
}

/// Reads a day window written as `start-end`.
pub fn parse_day_range(text: &str) -> (range: Option<DayRange>)
    ensures
        range == parsed_day_range(text@),
{
    let chars = chars_of(text);
    let n = chars.len();
    let mut first: usize = n;
    let mut last: usize = n;
    let mut i: usize = 0;
    while i < n
        invariant
            n == chars@.len(),
            i <= n,
            first <= n,
            last <= n,
            first == n ==> forall|j: int| 0 <= j < i ==> chars@[j] != '-',
            first < n ==> first < i && is_first_dash(chars@, first as int),
            last == n ==> forall|j: int| 0 <= j < i ==> chars@[j] != '-',
            last < n ==> last < i && chars@[last as int] == '-' && forall|j: int|
                last < j < i ==> chars@[j] != '-',
        decreases n - i,
    {
        if chars[i] == '-' {
            if first == n {
                first = i;
            }
            last = i;
        }
        i = i + 1;
    }
    let ghost t = chars@;
    proof {
        if first < n {
            let c = choose|k: int| is_first_dash(t, k);
            assert(is_first_dash(t, c));
            assert(c == first);
            assert(is_last_dash(t, last as int));
            let d = choose|k: int| is_last_dash(t, k);
            assert(is_last_dash(t, d));
            assert(d == last);
            assert(t.take(first as int) =~= t.subrange(0, first as int));
            assert(t.skip(last as int + 1) =~= t.subrange(last as int + 1, n as int));
        } else {
            assert(t =~= t.subrange(0, n as int));
        }
    }
    let night_from = if last < n {
        last + 1
    } else {
        0
    };
    match (parse_u32_in(&chars, 0, first), parse_u32_in(&chars, night_from, n)) {
        (Some(day_start), Some(night_start)) => Some(DayRange { day_start, night_start }),
        _ => None,
    }
}

/// Whether it is day at `hour` under `time_cfg`, or `None` where its range
/// cannot be read.
pub fn is_daytime(time_cfg: &DayTimeConfig, hour: u32) -> (flag: Option<bool>)
    ensures
        flag == day_flag(*time_cfg, hour),
{
    let range = match &time_cfg.day_range {
        Some(text) => parse_day_range(text.as_str()),
        None => Some(DayRange { day_start: day_start(), night_start: day_end() }),
    };
    match range {
        Some(r) => {
            if r.day_start < r.night_start {
                Some(hour >= r.day_start && hour < r.night_start)
            } else {
                Some(hour >= r.day_start || hour < r.night_start)
            }
        },
        None => None,
    }
}

/// The image for day or night under `time_cfg`, with `bg` as the output's
/// background. Empty where neither gives one.
pub fn choose_image(time_cfg: &DayTimeConfig, bg: Option<&BackgroundConfig>, is_day: bool) -> (image:
    String)
    ensures
        image@ == chosen_image(
            *time_cfg,
            match bg {
                Some(b) => Some(*b),
                None => None,
            },
            is_day,
        ),
{
    let own = if is_day {
        &time_cfg.day
    } else {
        &time_cfg.night
    };
    if contains_char(own.as_str(), '/') || contains_char(own.as_str(), '.') {
        own.clone()
    } else {
        match bg {
            Some(b) => match &b.image {
                Some(path) => path.clone(),
                None => String::new(),
            },
            None => String::new(),
        }
    }
}

/// Day/Night trigger: keeps, for each output, the flag it last acted on,
/// so that a change on one output does not hold back another.
pub struct DayTimeTrigger {
    last_state: NameMap<bool>,
}

impl DayTimeTrigger {
    /// The flag last acted on, by output: `true` for day.
    pub closed spec fn flags(&self) -> Map<Seq<char>, bool> {
        self.last_state@
    }

    /// A trigger with nothing on record.
    pub fn new() -> (trigger: Self)
        ensures
            trigger.flags() == Map::<Seq<char>, bool>::empty(),
    {
        DayTimeTrigger { last_state: NameMap::new() }
    }

    /// Whether it is day now under `time_cfg`, or `None` where its range
    /// cannot be read.
    pub fn is_daytime_for(&self, time_cfg: &DayTimeConfig) -> (flag: Option<bool>)
        ensures
            exists|hour: u32| hour < 24 && flag == #[trigger] day_flag(*time_cfg, hour),
    {
        let hour = current_hour();
        is_daytime(time_cfg, hour)
    }

    /// Evaluates the trigger for the outputs of `resolver` at `hour`.
    pub fn evaluate_at(&mut self, state: &AppState, resolver: &OutputResolver, hour: u32) -> (result:
        Option<TriggerResult>)
        ensures
            ({
                let decide = daytime_decide(old(self).flags(), *state, hour);
                match state.config.time_config {
                    Some(table) => {
                        let keys = resolved_keys(resolver.names(), table@);
                        &&& final(self).flags() == recorded(keys, old(self).flags(), decide)
                        &&& match result {
                            Some(r) => r@ == emitted(keys, decide) && r@.len() > 0,
                            None => emitted(keys, decide).len() == 0,
                        }
                    },
                    None => final(self).flags() == old(self).flags() && result is None,
                }
            }),
    {
        let time_map = match &state.config.time_config {
            Some(table) => table,
            None => {
                return None;
            },
        };
        let resolved = resolver.resolve_refs(time_map);
        let ghost keys = resolved.keys();
        let ghost before = self.flags();
        let ghost decide = daytime_decide(before, *state, hour);
        let mut changes: Vec<OutputChange> = Vec::new();
        let n = resolved.len();
        let mut i: usize = 0;
        proof {
            use_type_invariant(&resolved);
            assert(keys.take(0) =~= Seq::<Seq<char>>::empty());
            assert(changes_view(changes@) =~= emitted(keys.take(0), decide));
        }
        while i < n
            invariant
                i <= n,
                n == keys.len(),
                keys == resolved.keys(),
                keys.no_duplicates(),
                state.config.time_config == Some(*time_map),
                forall|k: Seq<char>| #[trigger]
                    resolved@.contains_key(k) ==> Some(*resolved@[k]) == resolve_entry(
                        time_map@,
                        k,
                    ),
                decide == daytime_decide(before, *state, hour),
                self.flags() == recorded(keys.take(i as int), before, decide),
                changes_view(changes@) == emitted(keys.take(i as int), decide),
            decreases n - i,
        {
            let output = resolved.key_at(i);
            let time_cfg: &DayTimeConfig = *resolved.value_at(i);
            let ghost k = keys[i as int];
            proof {
                assert(keys.take(i as int + 1).drop_last() =~= keys.take(i as int));
                assert(keys.take(i as int + 1).last() == k);
                lemma_recorded(keys.take(i as int), before, decide, k);
                if keys.take(i as int).contains(k) {
                    let j = keys.take(i as int).index_of(k);
                    assert(keys[j] == k);
                }
                assert(self.flags().get(k) == before.get(k));
            }
            let bg = match &state.config.background {
                Some(table) => resolve_in(table, output.as_str()),
                None => None,
            };
            let ghost old_changes = changes@;
            match is_daytime(time_cfg, hour) {
                Some(is_day) => {
                    let same = match self.last_state.get(output.as_str()) {
                        Some(flag) => *flag == is_day,
                        None => false,
                    };
                    if !same {
                        let image_path = choose_image(time_cfg, bg, is_day);
                        if !image_path.as_str().is_empty() {
                            let resolved_path = state.resolve_image_path(image_path.as_str());
                            self.last_state.insert(output.clone(), is_day);
                            changes.push(
                                OutputChange { output: output.clone(), image_path: resolved_path },
                            );
                            proof {
                                assert(changes_view(changes@) =~= changes_view(old_changes).push(
                                    changes@.last()@,
                                ));
                            }
                        }
                    }
                },
                None => {},
            }
            i = i + 1;
        }
        proof {
            assert(keys.take(n as int) =~= keys);
        }
        if changes.len() == 0 {
            None
        } else {
            let result = TriggerResult { changes };
            assert(result@ =~= changes_view(changes@));
            Some(result)
        }
    }
}

impl Trigger for DayTimeTrigger {
    open spec fn initialized(
        &self,
        state: &AppState,
        readings: &Readings,
        after: &Self,
        outcome: Result<(), InitError>,
    ) -> bool {
        after.flags() == self.flags() && outcome is Ok
    }

    open spec fn wants_outputs(&self, state: &AppState, now: u64) -> bool {
        state.config.time_config is Some
    }

    open spec fn wants_weather(&self, state: &AppState, now: u64) -> Option<Seq<char>> {
        None
    }

    open spec fn evaluated(
        &self,
        state: &AppState,
        readings: &Readings,
        after: &Self,
        outcome: Result<Option<TriggerResult>, EvalError>,
    ) -> bool {
        match state.config.time_config {
            None => after.flags() == self.flags() && outcome matches Ok(None),
            Some(table) => {
                let keys = resolved_keys(listing_names(readings.outputs), table@);
                let decide = daytime_decide(self.flags(), *state, readings.hour);
                &&& after.flags() == recorded(keys, self.flags(), decide)
                &&& match outcome {
                    Ok(Some(r)) => r@ == emitted(keys, decide),
                    Ok(None) => emitted(keys, decide).len() == 0,
                    Err(_) => false,
                }
            },
        }
    }

    open spec fn spec_interval(&self) -> u64 {
        60
    }

    /// Needs no setup.
    fn init(&mut self, state: &AppState, readings: &Readings) -> (outcome: Result<(), InitError>) {
        Ok(())
    }

    fn request(&self, state: &AppState, now: u64) -> (request: Request) {
        Request { outputs: state.config.time_config.is_some(), weather_url: None }
    }

    fn evaluate(&mut self, state: &AppState, readings: &Readings) -> (outcome: Result<
        Option<TriggerResult>,
        EvalError,
    >) {
        if state.config.time_config.is_none() {
            return Ok(None);
        }
        let resolver = OutputResolver::from_listing(&readings.outputs);
        Ok(self.evaluate_at(state, &resolver, readings.hour))
    }

    /// Checked every minute.
    fn interval(&self) -> (seconds: u64) {
        60
    }
}

} // verus!
