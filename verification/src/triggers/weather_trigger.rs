//! The trigger that switches images with the weather.

use vstd::prelude::*;
use vstd::string::StringExecFns;
use crate::app_state::AppState;
use crate::config::WeatherConfig;
use crate::name_map::NameMap;
use crate::outputs::resolver::{
    listing_names, resolve_entry, resolved_keys, wildcard, OutputResolver, WILDCARD,
};
use crate::triggers::trigger::{
    changes_view, emitted, lemma_emitted_from, lemma_emitted_none, lemma_recorded, recorded,
    Decision, EvalError, InitError, OutputChange, Readings, Request, Trigger, TriggerResult,
    MILLIS_PER_SECOND,
};

verus! {

/// Seconds within which a fetched weather is used again in place of
/// asking the service anew.
pub const FETCH_WINDOW: u64 = 600;

/// Weather states that can trigger wallpaper changes.
#[derive(Debug, Clone, Copy, PartialEq, Eq, Structural)]
pub enum WeatherState {
    Clear,
    Cloudy,
    Rainy,
    Snowy,
    Stormy,
}

/// The weather that a code of the weather service stands for. A code that
/// is not listed stands for cloudy weather.
pub open spec fn weather_of_code(code: i32) -> WeatherState {
    if code == 0 {
        WeatherState::Clear
    } else if code == 61 || code == 63 || code == 65 || code == 66 || code == 67 || code == 80
        || code == 81 || code == 82 {
        WeatherState::Rainy
    } else if code == 71 || code == 73 || code == 75 || code == 77 || code == 85 || code == 86 {
        WeatherState::Snowy
    } else if code == 95 || code == 96 || code == 99 {
        WeatherState::Stormy
    } else {
        WeatherState::Cloudy
    }
}

/// The key under which a configuration holds the image of a weather.
pub open spec fn key_of_weather(weather: WeatherState) -> Seq<char> {
    match weather {
        WeatherState::Clear => "sunny"@,
        WeatherState::Cloudy => "cloudy"@,
        WeatherState::Rainy => "raining"@,
        WeatherState::Snowy => "snowing"@,
        WeatherState::Stormy => "lighting"@,
    }
}

/// The path stored under `key`, if there is one.
pub open spec fn image_under(images: Map<Seq<char>, String>, key: Seq<char>) -> Option<Seq<char>> {
    if images.contains_key(key) {
        Some(images[key]@)
    } else {
        None
    }
}

/// The image for `weather` among `images`: the one under the weather's own
/// key, else the one under another spelling of it that configurations are
/// known to use.
pub open spec fn weather_image(images: Map<Seq<char>, String>, weather: WeatherState) -> Option<
    Seq<char>,
> {
    if images.contains_key(key_of_weather(weather)) {
        image_under(images, key_of_weather(weather))
    } else {
        match weather {
            WeatherState::Clear => image_under(images, "clear"@),
            WeatherState::Rainy => image_under(images, "rainy"@),
            WeatherState::Stormy => if images.contains_key("stormy"@) {
                image_under(images, "stormy"@)
            } else {
                image_under(images, "ligthing"@)
            },
            _ => None,
        }
    }
}

/// The entry whose coordinates the weather is asked for: the wildcard
/// entry, else the first entry, else none.
pub open spec fn coordinates_entry(table: NameMap<WeatherConfig>) -> Option<WeatherConfig> {
    if table@.contains_key(wildcard()) {
        Some(table@[wildcard()])
    } else if table.keys().len() > 0 {
        Some(table@[table.keys()[0]])
    } else {
        None
    }
}

/// The address at which the weather at the given coordinates is asked for.
pub open spec fn forecast_url(lat: Seq<char>, lon: Seq<char>) -> Seq<char> {
    "https://api.open-meteo.com/v1/forecast?latitude="@ + lat + "&longitude="@ + lon
        + "&current_weather=true"@
}

/// Whether `now` is less than the fetch window after the last fetch. Both
/// times are in milliseconds.
pub open spec fn within_window(last_fetch: Option<u64>, now: u64) -> bool {
    match last_fetch {
        Some(last) => now <= last || now - last < FETCH_WINDOW * MILLIS_PER_SECOND,
        None => false,
    }
}

/// How the current weather is to be had.
pub enum FetchPlan {
    /// The weather fetched last is still good.
    Cached(WeatherState),
    /// The service is to be asked at this address.
    Ask(String),
    /// The configuration has no weather section.
    Unconfigured,
    /// The weather section has no entry to take coordinates from.
    NoEntry,
}

/// A fetch plan, with the address as characters.
pub enum FetchPlanView {
    Cached(WeatherState),
    Ask(Seq<char>),
    Unconfigured,
    NoEntry,
}

impl View for FetchPlan {
    type V = FetchPlanView;

    open spec fn view(&self) -> FetchPlanView {
        match self {
            FetchPlan::Cached(weather) => FetchPlanView::Cached(*weather),
            FetchPlan::Ask(url) => FetchPlanView::Ask(url@),
            FetchPlan::Unconfigured => FetchPlanView::Unconfigured,
            FetchPlan::NoEntry => FetchPlanView::NoEntry,
        }
    }
}

/// What the trigger decides for an output with `on_record` as its last
/// weather: nothing where the weather is the one on record or the output
/// has no image for it; else the new weather and image.
pub open spec fn weather_decision(
    on_record: Option<WeatherState>,
    cfg: WeatherConfig,
    state: AppState,
    current: WeatherState,
) -> Option<Decision<WeatherState>> {
    if on_record == Some(current) {
        None
    } else {
        match weather_image(cfg.weather@, current) {
            Some(path) => Some(Decision { record: current, image_path: state.resolved_path(path) }),
            None => None,
        }
    }
}

/// What the trigger decides for each output, with `states` on record.
pub open spec fn weather_decide(
    states: Map<Seq<char>, WeatherState>,
    state: AppState,
    current: WeatherState,
) -> spec_fn(Seq<char>) -> Option<Decision<WeatherState>> {
    |output: Seq<char>|
        match state.config.weather {
            Some(table) => match resolve_entry(table@, output) {
                Some(cfg) => weather_decision(states.get(output), cfg, state, current),
                None => None,
            },
            None => None,
        }
}

impl WeatherState {
    /// The key under which a configuration holds the image of this weather.
    pub fn config_key(&self) -> (key: &'static str)
        ensures
            key@ == key_of_weather(*self),
    {
        match self {
            WeatherState::Clear => "sunny",
            WeatherState::Cloudy => "cloudy",
            WeatherState::Rainy => "raining",
            WeatherState::Snowy => "snowing",
            WeatherState::Stormy => "lighting",
        }
    }

    /// The weather that a code of the weather service stands for.
    pub fn from_code(code: i32) -> (weather: Self)
        ensures
            weather == weather_of_code(code),
    {
        match code {
            0 => WeatherState::Clear,
            1 | 2 | 3 | 51 | 53 | 55 | 56 | 57 => WeatherState::Cloudy,
            61 | 63 | 65 | 66 | 67 | 80 | 81 | 82 => WeatherState::Rainy,
            71 | 73 | 75 | 77 | 85 | 86 => WeatherState::Snowy,
            95 | 96 | 99 => WeatherState::Stormy,
            _ => WeatherState::Cloudy,
        }
    }
}

/// The path stored under `key`, if there is one.
fn image_at(images: &NameMap<String>, key: &str) -> (image: Option<String>)
    ensures
        match image {
            Some(path) => image_under(images@, key@) == Some(path@),
            None => image_under(images@, key@) is None,
        },
{
    match images.get(key) {
        Some(path) => Some(path.clone()),
        None => None,
    }
}

/// The image that `cfg` holds for `weather`.
pub fn lookup_image(cfg: &WeatherConfig, weather: WeatherState) -> (image: Option<String>)
    ensures
        match image {
            Some(path) => weather_image(cfg.weather@, weather) == Some(path@),
            None => weather_image(cfg.weather@, weather) is None,
        },
{
    let own = image_at(&cfg.weather, weather.config_key());
    if own.is_some() {
        return own;
    }
    match weather {
        WeatherState::Clear => image_at(&cfg.weather, "clear"),
        WeatherState::Rainy => image_at(&cfg.weather, "rainy"),
        WeatherState::Stormy => {
            let stormy = image_at(&cfg.weather, "stormy");
            if stormy.is_some() {
                stormy
            } else {
                image_at(&cfg.weather, "ligthing")
            }
        },
        _ => None,
    }
}

/// Weather trigger: keeps, for each output, the weather it last acted on,
/// and the weather it last fetched with the time of the fetch.
pub struct WeatherTrigger {
    last_weather: NameMap<WeatherState>,
    last_api_call: Option<u64>,
    cached_weather: Option<WeatherState>,
}

impl WeatherTrigger {
    /// The weather last acted on, by output.
    pub closed spec fn states(&self) -> Map<Seq<char>, WeatherState> {
        self.last_weather@
    }

    /// When the weather service was last asked with success.
    pub closed spec fn last_fetch(&self) -> Option<u64> {
        self.last_api_call
    }

    /// The weather that the service last answered with.
    pub closed spec fn cached(&self) -> Option<WeatherState> {
        self.cached_weather
    }

    /// How the current weather is to be had at `now`: from the last fetch
    /// while it is younger than the fetch window, else from the service,
    /// asked for the coordinates that the configuration names.
    pub open spec fn spec_fetch_plan(&self, state: &AppState, now: u64) -> FetchPlanView {
        if within_window(self.last_fetch(), now) && self.cached() is Some {
            FetchPlanView::Cached(self.cached().unwrap())
        } else {
            match state.config.weather {
                None => FetchPlanView::Unconfigured,
                Some(table) => match coordinates_entry(table) {
                    Some(cfg) => FetchPlanView::Ask(forecast_url(cfg.lat@, cfg.lon@)),
                    None => FetchPlanView::NoEntry,
                },
            }
        }
    }

    /// The weather that an evaluation with `readings` goes by: the cached
    /// one, or the one just fetched; none where it could not be had.
    pub open spec fn current_weather(&self, state: &AppState, readings: &Readings) -> Option<
        WeatherState,
    > {
        match self.spec_fetch_plan(state, readings.now) {
            FetchPlanView::Cached(weather) => Some(weather),
            FetchPlanView::Ask(_) => match readings.weather_code {
                Some(code) => Some(weather_of_code(code)),
                None => None,
            },
            _ => None,
        }
    }

    /// Whether `after` has of fetches what `self` has once `readings` are
    /// taken in: a weather that was asked for and answered is kept with its
    /// time, and nothing else changes.
    pub open spec fn fetch_taken(&self, state: &AppState, readings: &Readings, after: &Self) -> bool {
        if self.spec_fetch_plan(state, readings.now) is Ask && readings.weather_code is Some {
            &&& after.last_fetch() == Some(readings.now)
            &&& after.cached() == Some(weather_of_code(readings.weather_code.unwrap()))
        } else {
            &&& after.last_fetch() == self.last_fetch()
            &&& after.cached() == self.cached()
        }
    }

    /// A trigger with nothing on record and nothing fetched.
    pub fn new() -> (trigger: Self)
        ensures
            trigger.states() == Map::<Seq<char>, WeatherState>::empty(),
            trigger.last_fetch() is None,
            trigger.cached() is None,
    {
        WeatherTrigger { last_weather: NameMap::new(), last_api_call: None, cached_weather: None }
    }

    /// How the current weather is to be had at `now`.
    pub fn fetch_plan(&self, state: &AppState, now: u64) -> (plan: FetchPlan)
        ensures
            plan@ == self.spec_fetch_plan(state, now),
    {
        match (self.last_api_call, self.cached_weather) {
            (Some(last), Some(cached)) => {
                if now <= last || now - last < FETCH_WINDOW * MILLIS_PER_SECOND {
                    return FetchPlan::Cached(cached);
                }
            },
            _ => {},
        }
        let weather_map = match &state.config.weather {
            Some(table) => table,
            None => {
                return FetchPlan::Unconfigured;
            },
        };
        let entry = match weather_map.get(WILDCARD) {
            Some(cfg) => Some(cfg),
            None => {
                if weather_map.len() > 0 {
                    Some(weather_map.value_at(0))
                } else {
                    None
                }
            },
        };
        match entry {
            Some(cfg) => {
                let url = String::from_str(
                    "https://api.open-meteo.com/v1/forecast?latitude=",
                ).concat(cfg.lat.as_str()).concat("&longitude=").concat(cfg.lon.as_str()).concat(
                    "&current_weather=true",
                );
                FetchPlan::Ask(url)
            },
            None => FetchPlan::NoEntry,
        }
    }

    /// Takes in the code that the weather service answered with at `now`,
    /// and hands back the weather it stands for.
    pub fn record_fetch(&mut self, now: u64, code: i32) -> (weather: WeatherState)
        ensures
            weather == weather_of_code(code),
            final(self).last_fetch() == Some(now),
            final(self).cached() == Some(weather),
            final(self).states() == old(self).states(),
    {
        let weather = WeatherState::from_code(code);
        self.last_api_call = Some(now);
        self.cached_weather = Some(weather);
        weather
    }

    /// The current weather as an evaluation with `readings` has it, with
    /// a weather that was just fetched taken in.
    pub fn fetch_weather(&mut self, state: &AppState, readings: &Readings) -> (weather: Option<
        WeatherState,
    >)
        ensures
            weather == old(self).current_weather(state, readings),
            old(self).fetch_taken(state, readings, final(self)),
            final(self).states() == old(self).states(),
    {
        match self.fetch_plan(state, readings.now) {
            FetchPlan::Cached(weather) => Some(weather),
            FetchPlan::Ask(_) => match readings.weather_code {
                Some(code) => Some(self.record_fetch(readings.now, code)),
                None => None,
            },
            _ => None,
        }
    }

    /// Evaluates the trigger for the outputs of `resolver` under the
    /// weather `current`.
    pub fn evaluate_with(
        &mut self,
        state: &AppState,
        resolver: &OutputResolver,
        current: WeatherState,
    ) -> (result: Option<TriggerResult>)
        ensures
            final(self).last_fetch() == old(self).last_fetch(),
            final(self).cached() == old(self).cached(),
            ({
                let decide = weather_decide(old(self).states(), *state, current);
                match state.config.weather {
                    Some(table) => {
                        let keys = resolved_keys(resolver.names(), table@);
                        &&& final(self).states() == recorded(keys, old(self).states(), decide)
                        &&& match result {
                            Some(r) => r@ == emitted(keys, decide) && r@.len() > 0,
                            None => emitted(keys, decide).len() == 0,
                        }
                    },
                    None => final(self).states() == old(self).states() && result is None,
                }
            }),
    {
        let weather_map = match &state.config.weather {
            Some(table) => table,
            None => {
                return None;
            },
        };
        let resolved = resolver.resolve_refs(weather_map);
        let ghost keys = resolved.keys();
        let ghost before = self.states();
        let ghost decide = weather_decide(before, *state, current);
        let mut changes: Vec<OutputChange> = Vec::new();
        let n = resolved.len();
        let mut i: usize = 0;
        proof {
            use_type_invariant(&resolved);
            assert(keys.take(0) =~= Seq::<Seq<char>>::empty());
            assert(changes_view(changes@) =~= emitted(keys.take(0), decide));
        }
        while i < n
            invariant
                i <= n,
                n == keys.len(),
                keys == resolved.keys(),
                keys.no_duplicates(),
                state.config.weather == Some(*weather_map),
                forall|k: Seq<char>| #[trigger]
                    resolved@.contains_key(k) ==> Some(*resolved@[k]) == resolve_entry(
                        weather_map@,
                        k,
                    ),
                decide == weather_decide(before, *state, current),
                self.states() == recorded(keys.take(i as int), before, decide),
                self.last_fetch() == old(self).last_fetch(),
                self.cached() == old(self).cached(),
                changes_view(changes@) == emitted(keys.take(i as int), decide),
            decreases n - i,
        {
            let output = resolved.key_at(i);
            let cfg: &WeatherConfig = *resolved.value_at(i);
            let ghost k = keys[i as int];
            proof {
                assert(keys.take(i as int + 1).drop_last() =~= keys.take(i as int));
                assert(keys.take(i as int + 1).last() == k);
                lemma_recorded(keys.take(i as int), before, decide, k);
                if keys.take(i as int).contains(k) {
                    let j = keys.take(i as int).index_of(k);
                    assert(keys[j] == k);
                }
                assert(self.states().get(k) == before.get(k));
            }
            let same = match self.last_weather.get(output.as_str()) {
                Some(weather) => *weather == current,
                None => false,
            };
            let ghost old_changes = changes@;
            if !same {
                match lookup_image(cfg, current) {
                    Some(image_path) => {
                        let resolved_path = state.resolve_image_path(image_path.as_str());
                        self.last_weather.insert(output.clone(), current);
                        changes.push(
                            OutputChange { output: output.clone(), image_path: resolved_path },
                        );
                        proof {
                            assert(changes_view(changes@) =~= changes_view(old_changes).push(
                                changes@.last()@,
                            ));
                        }
                    },
                    None => {},
                }
            }
            i = i + 1;
        }
        proof {
            assert(keys.take(n as int) =~= keys);
        }
        if changes.len() == 0 {
            None
        } else {
            let result = TriggerResult { changes };
            assert(result@ =~= changes_view(changes@));
            Some(result)
        }
    }
}

/// Within the fetch window after a fetch, the weather is taken from that
/// fetch and the service is not asked again.
pub proof fn lemma_fetch_is_rate_limited(
    trigger: WeatherTrigger,
    state: AppState,
    fetched_at: u64,
    weather: WeatherState,
    now: u64,
)
    requires
        trigger.last_fetch() == Some(fetched_at),
        trigger.cached() == Some(weather),
        now < fetched_at + FETCH_WINDOW * MILLIS_PER_SECOND,
    ensures
        trigger.spec_fetch_plan(&state, now) == FetchPlanView::Cached(weather),
        trigger.wants_weather(&state, now) is None,
{
}

/// An output gets a change only where the weather differs from the one on
/// record, and the new weather is on record afterwards.
pub proof fn lemma_change_only_on_new_weather(
    outputs: Seq<Seq<char>>,
    states: Map<Seq<char>, WeatherState>,
    state: AppState,
    current: WeatherState,
    j: int,
)
    requires
        0 <= j < emitted(outputs, weather_decide(states, state, current)).len(),
    ensures
        ({
            let decide = weather_decide(states, state, current);
            let change = emitted(outputs, decide)[j];
            &&& states.get(change.output) != Some(current)
            &&& recorded(outputs, states, decide).get(change.output) == Some(current)
        }),
{
    let decide = weather_decide(states, state, current);
    let change = emitted(outputs, decide)[j];
    lemma_emitted_from(outputs, decide, j);
    lemma_recorded(outputs, states, decide, change.output);
}

/// An evaluation that follows another under the same weather, with nothing
/// changed in between, emits no change.
pub proof fn lemma_same_weather_is_quiet(
    outputs: Seq<Seq<char>>,
    states: Map<Seq<char>, WeatherState>,
    state: AppState,
    current: WeatherState,
)
    ensures
        emitted(
            outputs,
            weather_decide(
                recorded(outputs, states, weather_decide(states, state, current)),
                state,
                current,
            ),
        ).len() == 0,
{
    let first = weather_decide(states, state, current);
    let after = recorded(outputs, states, first);
    let second = weather_decide(after, state, current);
    assert forall|k: Seq<char>| outputs.contains(k) implies second(k) is None by {
        lemma_recorded(outputs, states, first, k);
    }
    lemma_emitted_none(outputs, second);
}

impl Trigger for WeatherTrigger {
    open spec fn initialized(
        &self,
        state: &AppState,
        readings: &Readings,
        after: &Self,
        outcome: Result<(), InitError>,
    ) -> bool {
        &&& outcome is Ok
        &&& after.states() == self.states()
        &&& self.fetch_taken(state, readings, after)
    }

    open spec fn wants_outputs(&self, state: &AppState, now: u64) -> bool {
        state.config.weather is Some
    }

    open spec fn wants_weather(&self, state: &AppState, now: u64) -> Option<Seq<char>> {
        match self.spec_fetch_plan(state, now) {
            FetchPlanView::Ask(url) => Some(url),
            _ => None,
        }
    }

    open spec fn evaluated(
        &self,
        state: &AppState,
        readings: &Readings,
        after: &Self,
        outcome: Result<Option<TriggerResult>, EvalError>,
    ) -> bool {
        match state.config.weather {
            None => {
                &&& after.states() == self.states()
                &&& after.last_fetch() == self.last_fetch()
                &&& after.cached() == self.cached()
                &&& outcome matches Ok(None)
            },
            Some(table) => {
                &&& self.fetch_taken(state, readings, after)
                &&& match self.current_weather(state, readings) {
                    None => after.states() == self.states() && outcome matches Ok(None),
                    Some(current) => {
                        let keys = resolved_keys(listing_names(readings.outputs), table@);
                        let decide = weather_decide(self.states(), *state, current);
                        &&& after.states() == recorded(keys, self.states(), decide)
                        &&& match outcome {
                            Ok(Some(r)) => r@ == emitted(keys, decide),
                            Ok(None) => emitted(keys, decide).len() == 0,
                            Err(_) => false,
                        }
                    },
                }
            },
        }
    }

    open spec fn spec_interval(&self) -> u64 {
        900
    }

    /// Takes in a first fetch, where one was made.
    fn init(&mut self, state: &AppState, readings: &Readings) -> (outcome: Result<(), InitError>) {
        let _ = self.fetch_weather(state, readings);
        Ok(())
    }

    fn request(&self, state: &AppState, now: u64) -> (request: Request) {
        let weather_url = match self.fetch_plan(state, now) {
            FetchPlan::Ask(url) => Some(url),
            _ => None,
        };
        Request { outputs: state.config.weather.is_some(), weather_url }
    }

    fn evaluate(&mut self, state: &AppState, readings: &Readings) -> (outcome: Result<
        Option<TriggerResult>,
        EvalError,
    >) {
        if state.config.weather.is_none() {
            return Ok(None);
        }
        let current = match self.fetch_weather(state, readings) {
            Some(weather) => weather,
            None => {
                return Ok(None);
            },
        };
        let resolver = OutputResolver::from_listing(&readings.outputs);
        Ok(self.evaluate_with(state, &resolver, current))
    }

    /// Evaluated every fifteen minutes; the weather itself is fetched at
    /// most once per fetch window.
    fn interval(&self) -> (seconds: u64) {
        900
    }
}

} // verus!
