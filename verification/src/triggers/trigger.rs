//! What a trigger is, what it reads and what it hands back.

use vstd::prelude::*;
use crate::app_state::AppState;
use crate::outputs::resolver::{DetectionError, OutputListing};
use crate::triggers::daytime_trigger::current_hour;

verus! {

/// A single output → image assignment decided by a trigger.
#[derive(Debug, Clone)]
pub struct OutputChange {
    pub output: String,
    pub image_path: String,
}

/// An output's name and the path of the image it should show.
pub struct ChangeView {
    pub output: Seq<char>,
    pub image_path: Seq<char>,
}

impl View for OutputChange {
    type V = ChangeView;

    open spec fn view(&self) -> ChangeView {
        ChangeView { output: self.output@, image_path: self.image_path@ }
    }
}

/// Result of a trigger evaluation: decisions for one or more outputs, in
/// the order in which they are to be applied.
#[derive(Debug, Clone)]
pub struct TriggerResult {
    pub changes: Vec<OutputChange>,
}

impl View for TriggerResult {
    type V = Seq<ChangeView>;

    open spec fn view(&self) -> Seq<ChangeView> {
        Seq::new(self.changes@.len(), |i: int| self.changes@[i]@)
    }
}

impl TriggerResult {
    /// A result with one change.
    pub fn single(output: String, image_path: String) -> (result: Self)
        ensures
            result@ == seq![ChangeView { output: output@, image_path: image_path@ }],
    {
        let mut changes: Vec<OutputChange> = Vec::new();
        changes.push(OutputChange { output, image_path });
        let result = TriggerResult { changes };
        assert(result@ =~= seq![ChangeView { output: output@, image_path: image_path@ }]);
        result
    }

    /// Returns true when there are no output changes.
    pub fn is_empty(&self) -> (empty: bool)
        ensures
            empty == (self@.len() == 0),
    {
        self.changes.len() == 0
    }
}

/// The views of the changes in `changes`.
pub open spec fn changes_view(changes: Seq<OutputChange>) -> Seq<ChangeView> {
    Seq::new(changes.len(), |i: int| changes[i]@)
}

/// What a trigger decides for one output: what it records for the output,
/// and the image that the output should show.
pub struct Decision<R> {
    pub record: R,
    pub image_path: Seq<char>,
}

/// The changes that a trigger emits for `outputs`, in their order: one for
/// each output for which `decide` decides anything.
pub open spec fn emitted<R>(
    outputs: Seq<Seq<char>>,
    decide: spec_fn(Seq<char>) -> Option<Decision<R>>,
) -> Seq<ChangeView>
    decreases outputs.len(),
{
    if outputs.len() == 0 {
        Seq::empty()
    } else {
        let earlier = emitted(outputs.drop_last(), decide);
        match decide(outputs.last()) {
            Some(d) => earlier.push(
                ChangeView { output: outputs.last(), image_path: d.image_path },
            ),
            None => earlier,
        }
    }
}

/// What a trigger has on record after it went through `outputs`: what it
/// had `before`, with the record of each decision it took.
pub open spec fn recorded<R>(
    outputs: Seq<Seq<char>>,
    before: Map<Seq<char>, R>,
    decide: spec_fn(Seq<char>) -> Option<Decision<R>>,
) -> Map<Seq<char>, R>
    decreases outputs.len(),
{
    if outputs.len() == 0 {
        before
    } else {
        let earlier = recorded(outputs.drop_last(), before, decide);
        match decide(outputs.last()) {
            Some(d) => earlier.insert(outputs.last(), d.record),
            None => earlier,
        }
    }
}

/// After a pass, an output for which something was decided has that
/// decision on record, and every other output has what it had before.
pub proof fn lemma_recorded<R>(
    outputs: Seq<Seq<char>>,
    before: Map<Seq<char>, R>,
    decide: spec_fn(Seq<char>) -> Option<Decision<R>>,
    k: Seq<char>,
)
    ensures
        outputs.contains(k) && decide(k) is Some ==> recorded(outputs, before, decide).contains_key(
            k,
        ) && recorded(outputs, before, decide)[k] == decide(k).unwrap().record,
        !(outputs.contains(k) && decide(k) is Some) ==> (recorded(
            outputs,
            before,
            decide,
        ).contains_key(k) <==> before.contains_key(k)),
        !(outputs.contains(k) && decide(k) is Some) && before.contains_key(k) ==> recorded(
            outputs,
            before,
            decide,
        )[k] == before[k],
    decreases outputs.len(),
{
    if outputs.len() > 0 {
        let shorter = outputs.drop_last();
        lemma_recorded(shorter, before, decide, k);
        if outputs.contains(k) {
            let i = outputs.index_of(k);
            if i < shorter.len() {
                assert(shorter[i] == k);
            }
        }
        if shorter.contains(k) {
            let i = shorter.index_of(k);
            assert(outputs[i] == k);
        }
        assert(outputs[outputs.len() - 1] == outputs.last());
    }
}

/// Every emitted change is for one of the outputs, and carries the image
/// that was decided for it.
pub proof fn lemma_emitted_from<R>(
    outputs: Seq<Seq<char>>,
    decide: spec_fn(Seq<char>) -> Option<Decision<R>>,
    j: int,
)
    requires
        0 <= j < emitted(outputs, decide).len(),
    ensures
        outputs.contains(emitted(outputs, decide)[j].output),
        decide(emitted(outputs, decide)[j].output) matches Some(d) && d.image_path == emitted(
            outputs,
            decide,
        )[j].image_path,
    decreases outputs.len(),
{
    if outputs.len() > 0 {
        let shorter = outputs.drop_last();
        let earlier = emitted(shorter, decide);
        if j < earlier.len() {
            lemma_emitted_from(shorter, decide, j);
            let i = shorter.index_of(earlier[j].output);
            assert(outputs[i] == earlier[j].output);
        } else {
            assert(outputs[outputs.len() - 1] == outputs.last());
        }
    }
}

/// An output for which something is decided gets a change.
pub proof fn lemma_emitted_for<R>(
    outputs: Seq<Seq<char>>,
    decide: spec_fn(Seq<char>) -> Option<Decision<R>>,
    k: Seq<char>,
)
    requires
        outputs.contains(k),
        decide(k) is Some,
    ensures
        exists|j: int|
            0 <= j < emitted(outputs, decide).len() && (#[trigger] emitted(
                outputs,
                decide,
            )[j]).output == k,
    decreases outputs.len(),
{
    let shorter = outputs.drop_last();
    let earlier = emitted(shorter, decide);
    let all = emitted(outputs, decide);
    if outputs.last() == k {
        assert(all[all.len() - 1].output == k);
    } else {
        let i = outputs.index_of(k);
        assert(shorter[i] == k);
        lemma_emitted_for(shorter, decide, k);
        let j = choose|j: int| 0 <= j < earlier.len() && (#[trigger] earlier[j]).output == k;
        assert(all[j].output == k);
    }
}

/// Where nothing is decided for any of the outputs, no change is emitted.
pub proof fn lemma_emitted_none<R>(
    outputs: Seq<Seq<char>>,
    decide: spec_fn(Seq<char>) -> Option<Decision<R>>,
)
    requires
        forall|k: Seq<char>| outputs.contains(k) ==> decide(k) is None,
    ensures
        emitted(outputs, decide).len() == 0,
    decreases outputs.len(),
{
    if outputs.len() > 0 {
        let shorter = outputs.drop_last();
        assert forall|k: Seq<char>| shorter.contains(k) implies decide(k) is None by {
            let i = shorter.index_of(k);
            assert(outputs[i] == k);
            assert(outputs.contains(k));
        }
        lemma_emitted_none(shorter, decide);
        assert(outputs[outputs.len() - 1] == outputs.last());
        assert(outputs.contains(outputs.last()));
    }
}

/// Milliseconds in a second: times are kept in milliseconds, intervals and
/// windows are given in seconds.
pub const MILLIS_PER_SECOND: u64 = 1000;

/// What was read outside the daemon for one evaluation.
pub struct Readings {
    /// What the compositor answered when asked for its outputs.
    pub outputs: OutputListing,
    /// The hour of the local wall clock, from 0 to 23.
    pub hour: u32,
    /// Milliseconds on a clock that never runs backwards.
    pub now: u64,
    /// The code that the weather service answered with, where it was asked
    /// and did answer.
    pub weather_code: Option<i32>,
}

impl Readings {
    /// The readings for an evaluation that takes place now: what was read
    /// outside, with the hour of the local wall clock.
    pub fn observe(outputs: OutputListing, now: u64, weather_code: Option<i32>) -> (readings: Self)
        ensures
            readings.outputs == outputs,
            readings.now == now,
            readings.weather_code == weather_code,
            readings.hour < 24,
    {
        Readings { outputs, hour: current_hour(), now, weather_code }
    }
}

/// What has to be read outside the daemon before a trigger is evaluated.
pub struct Request {
    /// Whether the compositor is to be asked for its outputs.
    pub outputs: bool,
    /// The address to ask the weather service at, if it is to be asked.
    pub weather_url: Option<String>,
}

/// Why a trigger could not be set up. The triggers of this library are set
/// up without fail; the manager takes a failure in all the same.
#[derive(Debug)]
pub enum InitError {
    Detection(DetectionError),
}

/// Why an evaluation came to nothing. The triggers of this library treat
/// outputs that could not be detected as no outputs and do not fail; the
/// manager takes a failure in all the same, and goes on.
#[derive(Debug)]
pub enum EvalError {
    Detection(DetectionError),
}

impl InitError {
    /// The failure in words.
    pub fn message(&self) -> (text: String)
        ensures
            self matches InitError::Detection(e) && text@ == e.spec_message(),
    {
        match self {
            InitError::Detection(e) => e.message(),
        }
    }
}

impl EvalError {
    /// The failure in words.
    pub fn message(&self) -> (text: String)
        ensures
            self matches EvalError::Detection(e) && text@ == e.spec_message(),
    {
        match self {
            EvalError::Detection(e) => e.message(),
        }
    }
}

/// The outcome of an evaluation as seen from outside: the changes to
/// apply, where there are any.
pub open spec fn outcome_changes(outcome: Result<Option<TriggerResult>, EvalError>) -> Seq<
    ChangeView,
> {
    match outcome {
        Ok(Some(result)) => result@,
        _ => Seq::empty(),
    }
}

/// A strategy that decides, each time it is evaluated, which outputs should
/// show another image.
pub trait Trigger: Sized {
    /// How `init` takes the trigger from `self` to `after`.
    spec fn initialized(
        &self,
        state: &AppState,
        readings: &Readings,
        after: &Self,
        outcome: Result<(), InitError>,
    ) -> bool;

    /// Whether the next evaluation reads the compositor's outputs.
    spec fn wants_outputs(&self, state: &AppState, now: u64) -> bool;

    /// The address at which the next evaluation asks the weather service,
    /// if it does.
    spec fn wants_weather(&self, state: &AppState, now: u64) -> Option<Seq<char>>;

    /// How `evaluate` takes the trigger from `self` to `after`.
    spec fn evaluated(
        &self,
        state: &AppState,
        readings: &Readings,
        after: &Self,
        outcome: Result<Option<TriggerResult>, EvalError>,
    ) -> bool;

    /// Seconds between two evaluations.
    spec fn spec_interval(&self) -> u64;

    /// Called once, before the first evaluation.
    fn init(&mut self, state: &AppState, readings: &Readings) -> (outcome: Result<(), InitError>)
        ensures
            old(self).initialized(state, readings, final(self), outcome),
    ;

    /// What has to be read before the trigger is evaluated at `now`.
    fn request(&self, state: &AppState, now: u64) -> (request: Request)
        ensures
            request.outputs == self.wants_outputs(state, now),
            match request.weather_url {
                Some(url) => self.wants_weather(state, now) == Some(url@),
                None => self.wants_weather(state, now) is None,
            },
    ;

    /// Called periodically. Hands back the changes to apply, or `None`
    /// when nothing changed; a result that is handed back is never empty.
    fn evaluate(&mut self, state: &AppState, readings: &Readings) -> (outcome: Result<
        Option<TriggerResult>,
        EvalError,
    >)
        ensures
            old(self).evaluated(state, readings, final(self), outcome),
            outcome matches Ok(Some(result)) ==> result@.len() > 0,
    ;

    /// How often, in seconds, the trigger is to be evaluated.
    fn interval(&self) -> (seconds: u64)
        ensures
            seconds == self.spec_interval(),
    ;
}

} // verus!
