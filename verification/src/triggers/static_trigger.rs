//! The trigger that applies the configured backgrounds once.

use vstd::prelude::*;
use crate::app_state::AppState;
use crate::config::BackgroundConfig;
use crate::outputs::resolver::{
    listing_names, resolve_entry, resolved_keys, OutputResolver,
};
use crate::triggers::trigger::{
    changes_view, emitted, Decision, EvalError, InitError, OutputChange, Readings, Request,
    Trigger, TriggerResult,
};

verus! {

/// What the trigger decides for an output: its configured image, resolved,
/// where the background table covers the output with an entry that has one.
pub open spec fn static_decide(state: AppState) -> spec_fn(Seq<char>) -> Option<Decision<()>> {
    |output: Seq<char>|
        match state.config.background {
            Some(table) => match resolve_entry(table@, output) {
                Some(bg) => match bg.image {
                    Some(path) => Some(
                        Decision { record: (), image_path: state.resolved_path(path@) },
                    ),
                    None => None,
                },
                None => None,
            },
            None => None,
        }
}

/// Applies the configured per-output backgrounds once. The first
/// evaluation marks it executed, whether it emitted anything or not, and
/// from then on it emits nothing more.
pub struct StaticTrigger {
    executed: bool,
}

impl StaticTrigger {
    /// Whether the trigger has fired.
    pub closed spec fn has_run(&self) -> bool {
        self.executed
    }

    /// A trigger that has not fired.
    pub fn new() -> (trigger: Self)
        ensures
            !trigger.has_run(),
    {
        StaticTrigger { executed: false }
    }
}

/// The trigger fires at most once: after its first evaluation, every later
/// evaluation emits nothing and leaves the trigger executed.
pub proof fn lemma_static_fires_at_most_once(
    before: StaticTrigger,
    first_state: AppState,
    first_readings: Readings,
    first_outcome: Result<Option<TriggerResult>, EvalError>,
    between: StaticTrigger,
    later_state: AppState,
    later_readings: Readings,
    later_outcome: Result<Option<TriggerResult>, EvalError>,
    after: StaticTrigger,
)
    requires
        before.evaluated(&first_state, &first_readings, &between, first_outcome),
        between.evaluated(&later_state, &later_readings, &after, later_outcome),
    ensures
        first_outcome is Ok,
        between.has_run(),
        later_outcome matches Ok(None),
        after.has_run(),
{
}

impl Trigger for StaticTrigger {
    open spec fn initialized(
        &self,
        state: &AppState,
        readings: &Readings,
        after: &Self,
        outcome: Result<(), InitError>,
    ) -> bool {
        after.has_run() == self.has_run() && outcome is Ok
    }

    open spec fn wants_outputs(&self, state: &AppState, now: u64) -> bool {
        !self.has_run() && state.config.background is Some
    }

    open spec fn wants_weather(&self, state: &AppState, now: u64) -> Option<Seq<char>> {
        None
    }

    open spec fn evaluated(
        &self,
        state: &AppState,
        readings: &Readings,
        after: &Self,
        outcome: Result<Option<TriggerResult>, EvalError>,
    ) -> bool {
        if self.has_run() {
            after.has_run() && outcome matches Ok(None)
        } else {
            match state.config.background {
                None => after.has_run() && outcome matches Ok(None),
                Some(table) => {
                    let keys = resolved_keys(listing_names(readings.outputs), table@);
                    &&& after.has_run()
                    &&& match outcome {
                        Ok(Some(r)) => r@ == emitted(keys, static_decide(*state)),
                        Ok(None) => emitted(keys, static_decide(*state)).len() == 0,
                        Err(_) => false,
                    }
                },
            }
        }
    }

    open spec fn spec_interval(&self) -> u64 {
        60
    }

    fn init(&mut self, state: &AppState, readings: &Readings) -> (outcome: Result<(), InitError>) {
        Ok(())
    }

    fn request(&self, state: &AppState, now: u64) -> (request: Request) {
        Request {
            outputs: !self.executed && state.config.background.is_some(),
            weather_url: None,
        }
    }

    fn evaluate(&mut self, state: &AppState, readings: &Readings) -> (outcome: Result<
        Option<TriggerResult>,
        EvalError,
    >) {
        if self.executed {
            return Ok(None);
        }
        let background_map = match &state.config.background {
            Some(table) => table,
            None => {
                self.executed = true;
                return Ok(None);
            },
        };
        let resolver = OutputResolver::from_listing(&readings.outputs);
        let resolved = resolver.resolve_refs(background_map);
        let ghost keys = resolved.keys();
        let ghost decide = static_decide(*state);
        let mut changes: Vec<OutputChange> = Vec::new();
        let n = resolved.len();
        let mut i: usize = 0;
        proof {
            assert(keys.take(0) =~= Seq::<Seq<char>>::empty());
            assert(changes_view(changes@) =~= emitted(keys.take(0), decide));
        }
        while i < n
            invariant
                i <= n,
                n == keys.len(),
                keys == resolved.keys(),
                state.config.background == Some(*background_map),
                forall|k: Seq<char>| #[trigger]
                    resolved@.contains_key(k) ==> Some(*resolved@[k]) == resolve_entry(
                        background_map@,
                        k,
                    ),
                decide == static_decide(*state),
                changes_view(changes@) == emitted(keys.take(i as int), decide),
            decreases n - i,
        {
            let output = resolved.key_at(i);
            let bg_cfg: &BackgroundConfig = *resolved.value_at(i);
            proof {
                assert(keys.take(i as int + 1).drop_last() =~= keys.take(i as int));
                assert(keys.take(i as int + 1).last() == keys[i as int]);
            }
            let ghost old_changes = changes@;
            match &bg_cfg.image {
                Some(image_path) => {
                    let resolved_path = state.resolve_image_path(image_path.as_str());
                    changes.push(OutputChange { output: output.clone(), image_path: resolved_path });
                    proof {
                        assert(changes_view(changes@) =~= changes_view(old_changes).push(
                            changes@.last()@,
                        ));
                    }
                },
                None => {},
            }
            i = i + 1;
        }
        proof {
            assert(keys.take(n as int) =~= keys);
        }
        self.executed = true;
        if changes.len() == 0 {
            return Ok(None);
        }
        let result = TriggerResult { changes };
        assert(result@ =~= changes_view(changes@));
        Ok(Some(result))
    }

    /// Fires once; the long interval keeps the manager from evaluating it
    /// more often than it needs.
    fn interval(&self) -> (seconds: u64) {
        60
    }
}

} // verus!
