//! The renderer processes that are running, one per output at most.

pub mod apply;

use vstd::prelude::*;
use crate::name_map::NameMap;

verus! {

/// The renderer processes that are running, by the output they draw on.
/// An output has at most one.
pub struct ProcessTracker {
    table: NameMap<u32>,
}

impl View for ProcessTracker {
    type V = Map<Seq<char>, u32>;

    closed spec fn view(&self) -> Map<Seq<char>, u32> {
        self.table@
    }
}

impl ProcessTracker {
    /// The outputs that have a process, in the order in which they got
    /// their first.
    pub closed spec fn outputs(&self) -> Seq<Seq<char>> {
        self.table.keys()
    }

    /// The outputs are the domain of the view.
    pub proof fn lemma_outputs_are_domain(&self, k: Seq<char>)
        ensures
            self@.contains_key(k) <==> self.outputs().contains(k),
    {
        self.table.lemma_keys_are_domain(k);
    }

    /// A tracker without processes.
    pub fn new() -> (tracker: Self)
        ensures
            tracker@ == Map::<Seq<char>, u32>::empty(),
            tracker.outputs() == Seq::<Seq<char>>::empty(),
    {
        ProcessTracker { table: NameMap::new() }
    }

    /// The process that draws on `output_name`.
    pub fn process_of(&self, output_name: &str) -> (pid: Option<u32>)
        ensures
            pid == self@.get(output_name@),
    {
        match self.table.get(output_name) {
            Some(pid) => Some(*pid),
            None => None,
        }
    }

    /// The number of processes.
    pub fn len(&self) -> (n: usize)
        ensures
            n == self.outputs().len(),
    {
        self.table.len()
    }
}

/// Takes the process of `output_name` off the record and hands it back, for
/// the caller to terminate and reap.
pub fn kill_for_output(tracker: &mut ProcessTracker, output_name: &str) -> (doomed: Option<u32>)
    ensures
        doomed == old(tracker)@.get(output_name@),
        final(tracker)@ == old(tracker)@.remove(output_name@),
{
    tracker.table.remove(output_name)
}

/// Takes every process off the record and hands them back, for the caller
/// to terminate and reap, in the order of their outputs.
pub fn kill_all(tracker: &mut ProcessTracker) -> (doomed: Vec<u32>)
    ensures
        final(tracker)@ == Map::<Seq<char>, u32>::empty(),
        final(tracker).outputs() == Seq::<Seq<char>>::empty(),
        old(tracker).outputs().no_duplicates(),
        doomed@.len() == old(tracker).outputs().len(),
        forall|i: int|
            0 <= i < doomed@.len() ==> doomed@[i] == old(tracker)@[#[trigger] old(
                tracker,
            ).outputs()[i]],
{
    proof {
        use_type_invariant(&tracker.table);
    }
    tracker.table.drain()
}

/// Puts the process `pid` on record as the one that draws on
/// `output_name`. Hands back the process that was on record for the output
/// until now, if there was one, for the caller to terminate and reap: an
/// output has one renderer at most.
pub fn register_process(tracker: &mut ProcessTracker, output_name: String, pid: u32) -> (displaced:
    Option<u32>)
    ensures
        displaced == old(tracker)@.get(output_name@),
        final(tracker)@ == old(tracker)@.insert(output_name@, pid),
{
    let displaced = tracker.process_of(output_name.as_str());
    tracker.table.insert(output_name, pid);
    displaced
}

} // verus!
