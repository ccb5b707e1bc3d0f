//! The manager that holds the active triggers and evaluates each when its
//! time has come.

use vstd::prelude::*;
use crate::app_state::AppState;
use crate::triggers::daytime_trigger::DayTimeTrigger;
use crate::triggers::static_trigger::StaticTrigger;
use crate::triggers::trigger::{
    EvalError, InitError, Readings, Request, Trigger, TriggerResult, MILLIS_PER_SECOND,
};
use crate::triggers::weather_trigger::WeatherTrigger;

verus! {

/// Milliseconds that the daemon rests between two passes: short against
/// every trigger's interval, and long enough to keep the processor free.
pub const PASS_PAUSE_MS: u64 = 500;

/// One of the triggers that the daemon knows.
pub enum ActiveTrigger {
    Static(StaticTrigger),
    DayTime(DayTimeTrigger),
    Weather(WeatherTrigger),
}

impl Trigger for ActiveTrigger {
    open spec fn initialized(
        &self,
        state: &AppState,
        readings: &Readings,
        after: &Self,
        outcome: Result<(), InitError>,
    ) -> bool {
        match (*self, *after) {
            (ActiveTrigger::Static(a), ActiveTrigger::Static(b)) => a.initialized(
                state,
                readings,
                &b,
                outcome,
            ),
            (ActiveTrigger::DayTime(a), ActiveTrigger::DayTime(b)) => a.initialized(
                state,
                readings,
                &b,
                outcome,
            ),
            (ActiveTrigger::Weather(a), ActiveTrigger::Weather(b)) => a.initialized(
                state,
                readings,
                &b,
                outcome,
            ),
            _ => false,
        }
    }

    open spec fn wants_outputs(&self, state: &AppState, now: u64) -> bool {
        match self {
            ActiveTrigger::Static(t) => t.wants_outputs(state, now),
            ActiveTrigger::DayTime(t) => t.wants_outputs(state, now),
            ActiveTrigger::Weather(t) => t.wants_outputs(state, now),
        }
    }

    open spec fn wants_weather(&self, state: &AppState, now: u64) -> Option<Seq<char>> {
        match self {
            ActiveTrigger::Static(t) => t.wants_weather(state, now),
            ActiveTrigger::DayTime(t) => t.wants_weather(state, now),
            ActiveTrigger::Weather(t) => t.wants_weather(state, now),
        }
    }

    open spec fn evaluated(
        &self,
        state: &AppState,
        readings: &Readings,
        after: &Self,
        outcome: Result<Option<TriggerResult>, EvalError>,
    ) -> bool {
        match (*self, *after) {
            (ActiveTrigger::Static(a), ActiveTrigger::Static(b)) => a.evaluated(
                state,
                readings,
                &b,
                outcome,
            ),
            (ActiveTrigger::DayTime(a), ActiveTrigger::DayTime(b)) => a.evaluated(
                state,
                readings,
                &b,
                outcome,
            ),
            (ActiveTrigger::Weather(a), ActiveTrigger::Weather(b)) => a.evaluated(
                state,
                readings,
                &b,
                outcome,
            ),
            _ => false,
        }
    }

    open spec fn spec_interval(&self) -> u64 {
        match self {
            ActiveTrigger::Static(t) => t.spec_interval(),
            ActiveTrigger::DayTime(t) => t.spec_interval(),
            ActiveTrigger::Weather(t) => t.spec_interval(),
        }
    }

    fn init(&mut self, state: &AppState, readings: &Readings) -> (outcome: Result<(), InitError>) {
        match self {
            ActiveTrigger::Static(t) => t.init(state, readings),
            ActiveTrigger::DayTime(t) => t.init(state, readings),
            ActiveTrigger::Weather(t) => t.init(state, readings),
        }
    }

    fn request(&self, state: &AppState, now: u64) -> (request: Request) {
        match self {
            ActiveTrigger::Static(t) => t.request(state, now),
            ActiveTrigger::DayTime(t) => t.request(state, now),
            ActiveTrigger::Weather(t) => t.request(state, now),
        }
    }

    fn evaluate(&mut self, state: &AppState, readings: &Readings) -> (outcome: Result<
        Option<TriggerResult>,
        EvalError,
    >) {
        match self {
            ActiveTrigger::Static(t) => t.evaluate(state, readings),
            ActiveTrigger::DayTime(t) => t.evaluate(state, readings),
            ActiveTrigger::Weather(t) => t.evaluate(state, readings),
        }
    }

    fn interval(&self) -> (seconds: u64) {
        match self {
            ActiveTrigger::Static(t) => t.interval(),
            ActiveTrigger::DayTime(t) => t.interval(),
            ActiveTrigger::Weather(t) => t.interval(),
        }
    }
}

/// A trigger and the time from which it is due.
pub struct ScheduledTrigger {
    pub trigger: ActiveTrigger,
    /// Milliseconds on the clock of the readings.
    pub next_run: u64,
}

/// What a pass of the manager did with one trigger.
pub enum TickOutcome {
    /// Its time had not come.
    NotDue,
    /// It was evaluated, with this outcome.
    Evaluated(Result<Option<TriggerResult>, EvalError>),
}

/// The time at which a trigger with the given interval, in seconds, is due
/// again after an evaluation at `now`.
pub open spec fn next_run_after(now: u64, interval: u64) -> u64 {
    if now + interval * MILLIS_PER_SECOND > u64::MAX {
        u64::MAX
    } else {
        (now + interval * MILLIS_PER_SECOND) as u64
    }
}

impl ScheduledTrigger {
    /// Whether the trigger is due at `now`.
    pub open spec fn due(&self, now: u64) -> bool {
        now >= self.next_run
    }

    /// How a pass at the time of `readings` takes the trigger from `self`
    /// to `after`: one that is not due stays as it is; one that is due is
    /// evaluated and, whatever came of that, is due again one interval
    /// later.
    pub open spec fn ticked(
        &self,
        state: &AppState,
        readings: &Readings,
        after: &Self,
        outcome: TickOutcome,
    ) -> bool {
        match outcome {
            TickOutcome::NotDue => !self.due(readings.now) && *after == *self,
            TickOutcome::Evaluated(result) => {
                &&& self.due(readings.now)
                &&& self.trigger.evaluated(state, readings, &after.trigger, result)
                &&& after.next_run == next_run_after(readings.now, after.trigger.spec_interval())
            },
        }
    }

    /// Evaluates the trigger if it is due, and says when it is due again.
    pub fn tick(&mut self, state: &AppState, readings: &Readings) -> (outcome: TickOutcome)
        ensures
            old(self).ticked(state, readings, final(self), outcome),
    {
        if readings.now >= self.next_run {
            let result = self.trigger.evaluate(state, readings);
            let interval = self.trigger.interval();
            self.next_run = if interval > (u64::MAX - readings.now) / MILLIS_PER_SECOND {
                u64::MAX
            } else {
                readings.now + interval * MILLIS_PER_SECOND
            };
            TickOutcome::Evaluated(result)
        } else {
            TickOutcome::NotDue
        }
    }
}

/// Whether any trigger of `scheduled` that is due at `now` reads the
/// compositor's outputs.
pub open spec fn any_wants_outputs(scheduled: Seq<ScheduledTrigger>, state: &AppState, now: u64) -> bool {
    exists|i: int|
        0 <= i < scheduled.len() && (#[trigger] scheduled[i]).due(now)
            && scheduled[i].trigger.wants_outputs(state, now)
}

/// The address at which the first trigger of `scheduled` that is due at
/// `now` and asks the weather service does so.
pub open spec fn first_wanted_weather(
    scheduled: Seq<ScheduledTrigger>,
    state: &AppState,
    now: u64,
) -> Option<Seq<char>>
    decreases scheduled.len(),
{
    if scheduled.len() == 0 {
        None
    } else {
        match first_wanted_weather(scheduled.drop_last(), state, now) {
            Some(url) => Some(url),
            None => if scheduled.last().due(now) {
                scheduled.last().trigger.wants_weather(state, now)
            } else {
                None
            },
        }
    }
}

/// Manages the triggers and their evaluation.
pub struct TriggerManager {
    triggers: Vec<ScheduledTrigger>,
}

impl TriggerManager {
    /// The triggers in the order in which they were added.
    pub closed spec fn scheduled(&self) -> Seq<ScheduledTrigger> {
        self.triggers@
    }

    /// A manager without triggers.
    pub fn new() -> (manager: Self)
        ensures
            manager.scheduled() == Seq::<ScheduledTrigger>::empty(),
    {
        TriggerManager { triggers: Vec::new() }
    }

    /// Adds a trigger that is due from `now` on, so that the next pass
    /// evaluates it.
    pub fn add(&mut self, trigger: ActiveTrigger, now: u64)
        ensures
            final(self).scheduled() == old(self).scheduled().push(
                ScheduledTrigger { trigger, next_run: now },
            ),
    {
        self.triggers.push(ScheduledTrigger { trigger, next_run: now });
    }

    /// The number of triggers.
    pub fn len(&self) -> (n: usize)
        ensures
            n == self.scheduled().len(),
    {
        self.triggers.len()
    }

    /// The time from which the trigger at `index` is due.
    pub fn next_run_of(&self, index: usize) -> (next_run: Option<u64>)
        ensures
            match next_run {
                Some(t) => index < self.scheduled().len() && t == self.scheduled()[index as int].next_run,
                None => index >= self.scheduled().len(),
            },
    {
        if index < self.triggers.len() {
            Some(self.triggers[index].next_run)
        } else {
            None
        }
    }

    /// Sets every trigger up. A trigger whose setup fails stays in place.
    /// Hands back how the setup of each trigger went, in their order.
    pub fn init(&mut self, state: &AppState, readings: &Readings) -> (outcomes: Vec<
        Result<(), InitError>,
    >)
        ensures
            final(self).scheduled().len() == old(self).scheduled().len(),
            outcomes@.len() == old(self).scheduled().len(),
            forall|i: int|
                0 <= i < outcomes@.len() ==> (#[trigger] final(self).scheduled()[i]).next_run
                    == old(self).scheduled()[i].next_run && old(self).scheduled()[i].trigger.initialized(
                    state,
                    readings,
                    &final(self).scheduled()[i].trigger,
                    outcomes@[i],
                ),
    {
        let mut outcomes: Vec<Result<(), InitError>> = Vec::new();
        let n = self.triggers.len();
        let mut i: usize = 0;
        while i < n
            invariant
                i <= n,
                n == self.triggers@.len(),
                n == old(self).triggers@.len(),
                outcomes@.len() == i,
                forall|j: int| i <= j < n ==> self.triggers@[j] == old(self).triggers@[j],
                forall|j: int|
                    0 <= j < i ==> (#[trigger] self.triggers@[j]).next_run == old(self).triggers@[j].next_run && old(self).triggers@[j].trigger.initialized(
                        state,
                        readings,
                        &self.triggers@[j].trigger,
                        outcomes@[j],
                    ),
            decreases n - i,
        {
            let scheduled = &mut self.triggers[i];
            let outcome = scheduled.trigger.init(state, readings);
            outcomes.push(outcome);
            i = i + 1;
        }
        outcomes
    }

    /// What has to be read before a pass at `now`: what the triggers that
    /// are due then ask for.
    pub fn request(&self, state: &AppState, now: u64) -> (request: Request)
        ensures
            request.outputs == any_wants_outputs(self.scheduled(), state, now),
            match request.weather_url {
                Some(url) => first_wanted_weather(self.scheduled(), state, now) == Some(url@),
                None => first_wanted_weather(self.scheduled(), state, now) is None,
            },
    {
        let mut outputs = false;
        let mut weather_url: Option<String> = None;
        let n = self.triggers.len();
        let mut i: usize = 0;
        assert(self.triggers@.take(0) =~= Seq::<ScheduledTrigger>::empty());
        while i < n
            invariant
                i <= n,
                n == self.triggers@.len(),
                outputs == any_wants_outputs(self.triggers@.take(i as int), state, now),
                match weather_url {
                    Some(url) => first_wanted_weather(self.triggers@.take(i as int), state, now)
                        == Some(url@),
                    None => first_wanted_weather(self.triggers@.take(i as int), state, now) is None,
                },
            decreases n - i,
        {
            let ghost shorter = self.triggers@.take(i as int);
            let ghost longer = self.triggers@.take(i as int + 1);
            proof {
                assert(longer.drop_last() =~= shorter);
                assert(longer.last() == self.triggers@[i as int]);
            }
            let scheduled = &self.triggers[i];
            if now >= scheduled.next_run {
                let wanted = scheduled.trigger.request(state, now);
                if wanted.outputs {
                    outputs = true;
                }
                if weather_url.is_none() {
                    weather_url = wanted.weather_url;
                }
            }
            proof {
                if any_wants_outputs(longer, state, now) {
                    let j = choose|j: int|
                        0 <= j < longer.len() && (#[trigger] longer[j]).due(now)
                            && longer[j].trigger.wants_outputs(state, now);
                    if j < i {
                        assert(shorter[j].due(now) && shorter[j].trigger.wants_outputs(state, now));
                    }
                }
                if any_wants_outputs(shorter, state, now) {
                    let j = choose|j: int|
                        0 <= j < shorter.len() && (#[trigger] shorter[j]).due(now)
                            && shorter[j].trigger.wants_outputs(state, now);
                    assert(longer[j].due(now) && longer[j].trigger.wants_outputs(state, now));
                }
                if scheduled.due(now) && scheduled.trigger.wants_outputs(state, now) {
                    assert(longer[i as int].due(now) && longer[i as int].trigger.wants_outputs(
                        state,
                        now,
                    ));
                }
            }
            i = i + 1;
        }
        assert(self.triggers@.take(n as int) =~= self.triggers@);
        Request { outputs, weather_url }
    }

    /// One pass: evaluates every trigger that is due at the time of
    /// `readings` and schedules it anew, whatever its evaluation came to.
    /// Hands back what was done with each trigger, in their order.
    pub fn tick(&mut self, state: &AppState, readings: &Readings) -> (outcomes: Vec<TickOutcome>)
        ensures
            final(self).scheduled().len() == old(self).scheduled().len(),
            outcomes@.len() == old(self).scheduled().len(),
            forall|i: int|
                0 <= i < outcomes@.len() ==> (#[trigger] old(self).scheduled()[i]).ticked(
                    state,
                    readings,
                    &final(self).scheduled()[i],
                    outcomes@[i],
                ),
    {
        let mut outcomes: Vec<TickOutcome> = Vec::new();
        let n = self.triggers.len();
        let mut i: usize = 0;
        while i < n
            invariant
                i <= n,
                n == self.triggers@.len(),
                n == old(self).triggers@.len(),
                outcomes@.len() == i,
                forall|j: int| i <= j < n ==> self.triggers@[j] == old(self).triggers@[j],
                forall|j: int|
                    0 <= j < i ==> (#[trigger] old(self).triggers@[j]).ticked(
                        state,
                        readings,
                        &self.triggers@[j],
                        outcomes@[j],
                    ),
            decreases n - i,
        {
            let scheduled = &mut self.triggers[i];
            let outcome = scheduled.tick(state, readings);
            outcomes.push(outcome);
            i = i + 1;
        }
        outcomes
    }
}

/// A pass never fails, and every trigger that was due when it began is due
/// again only after its interval: an evaluation that fails does not take a
/// trigger out of the schedule.
pub proof fn lemma_tick_keeps_schedule(
    before: ScheduledTrigger,
    after: ScheduledTrigger,
    state: AppState,
    readings: Readings,
    outcome: TickOutcome,
)
    requires
        before.ticked(&state, &readings, &after, outcome),
        before.due(readings.now),
    ensures
        outcome is Evaluated,
        after.next_run == next_run_after(readings.now, after.trigger.spec_interval()),
        after.next_run >= readings.now,
{
}

} // verus!
