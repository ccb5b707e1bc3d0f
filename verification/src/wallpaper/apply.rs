//! Applying a batch of changes: for each output in turn, the old renderer
//! goes and a new one comes.

use vstd::prelude::*;
use crate::config::FillMode;
use crate::triggers::trigger::{changes_view, ChangeView, OutputChange, TriggerResult};
use crate::wallpaper::{kill_for_output, register_process, ProcessTracker};

verus! {

/// One step of applying a batch: the renderer to terminate and reap first,
/// if any, and the renderer to start then.
pub struct RenderCommand {
    /// The process that drew on the output until now.
    pub terminate: Option<u32>,
    pub output: String,
    pub image_path: String,
    pub fill_mode: FillMode,
}

/// A renderer that could not be started.
#[derive(Debug)]
pub struct ApplyError {
    pub output: String,
    pub message: String,
}

/// An application of a batch of changes that is under way.
pub struct ApplySession {
    changes: Vec<OutputChange>,
    next: usize,
    awaiting: bool,
    last_err: Option<ApplyError>,
}

impl ApplySession {
    /// The changes that are still to be applied, the one that is under way
    /// first.
    pub closed spec fn remaining(&self) -> Seq<ChangeView> {
        if self.next <= self.changes@.len() {
            changes_view(self.changes@).skip(self.next as int)
        } else {
            Seq::empty()
        }
    }

    /// Whether a renderer was asked for and its start has not been reported.
    pub closed spec fn awaiting(&self) -> bool {
        self.awaiting && self.next < self.changes@.len()
    }

    /// The output and the message of the last start that failed.
    pub closed spec fn last_error(&self) -> Option<(Seq<char>, Seq<char>)> {
        match self.last_err {
            Some(e) => Some((e.output@, e.message@)),
            None => None,
        }
    }

    /// The next step, or `None` when every change has been applied. The
    /// process on record for the step's output is taken off the record and
    /// handed out with the step; the records of other outputs stay as they
    /// are. While a start is awaited, nothing is handed out.
    pub fn next_command(&mut self, tracker: &mut ProcessTracker) -> (command: Option<RenderCommand>)
        ensures
            final(self).remaining() == old(self).remaining(),
            final(self).last_error() == old(self).last_error(),
            match command {
                Some(c) => {
                    &&& !old(self).awaiting()
                    &&& old(self).remaining().len() > 0
                    &&& c.output@ == old(self).remaining()[0].output
                    &&& c.image_path@ == old(self).remaining()[0].image_path
                    &&& c.fill_mode == FillMode::Fill
                    &&& c.terminate == old(tracker)@.get(c.output@)
                    &&& final(tracker)@ == old(tracker)@.remove(c.output@)
                    &&& final(self).awaiting()
                },
                None => {
                    &&& old(self).awaiting() || old(self).remaining().len() == 0
                    &&& final(tracker)@ == old(tracker)@
                    &&& final(self).awaiting() == old(self).awaiting()
                },
            },
    {
        if self.awaiting || self.next >= self.changes.len() {
            return None;
        }
        let change = &self.changes[self.next];
        let terminate = kill_for_output(tracker, change.output.as_str());
        let command = RenderCommand {
            terminate,
            output: change.output.clone(),
            image_path: change.image_path.clone(),
            fill_mode: FillMode::Fill,
        };
        self.awaiting = true;
        Some(command)
    }

    /// Takes in how the start of the renderer of the step under way went:
    /// a renderer that started is put on record for the step's output, a
    /// start that failed is kept as the last error. Either way the step is
    /// done. Where no start is awaited, nothing happens. Hands back the
    /// process that the record held for the output until now, if it held
    /// one, for the caller to terminate and reap.
    pub fn spawned(&mut self, tracker: &mut ProcessTracker, outcome: Result<u32, String>) -> (displaced:
        Option<u32>)
        ensures
            !final(self).awaiting(),
            if old(self).awaiting() {
                &&& final(self).remaining() == old(self).remaining().skip(1)
                &&& match outcome {
                    Ok(pid) => {
                        &&& final(tracker)@ == old(tracker)@.insert(
                            old(self).remaining()[0].output,
                            pid,
                        )
                        &&& displaced == old(tracker)@.get(old(self).remaining()[0].output)
                        &&& final(self).last_error() == old(self).last_error()
                    },
                    Err(message) => {
                        &&& final(tracker)@ == old(tracker)@
                        &&& displaced is None
                        &&& final(self).last_error() == Some(
                            (old(self).remaining()[0].output, message@),
                        )
                    },
                }
            } else {
                &&& final(self).remaining() == old(self).remaining()
                &&& final(self).last_error() == old(self).last_error()
                &&& final(tracker)@ == old(tracker)@
                &&& displaced is None
            },
    {
        if !self.awaiting || self.next >= self.changes.len() {
            self.awaiting = false;
            return None;
        }
        let output = self.changes[self.next].output.clone();
        let displaced = match outcome {
            Ok(pid) => register_process(tracker, output, pid),
            Err(message) => {
                self.last_err = Some(ApplyError { output, message });
                None
            },
        };
        proof {
            assert(changes_view(self.changes@).skip(self.next as int).skip(1) =~= changes_view(
                self.changes@,
            ).skip(self.next as int + 1));
        }
        self.next = self.next + 1;
        self.awaiting = false;
        displaced
    }

    /// Whether every change has been applied.
    pub fn is_done(&self) -> (done: bool)
        ensures
            done == (self.remaining().len() == 0),
    {
        self.next >= self.changes.len()
    }

    /// How the application went: the last start that failed, if any did.
    pub fn finish(self) -> (outcome: Result<(), ApplyError>)
        ensures
            match outcome {
                Ok(_) => self.last_error() is None,
                Err(e) => self.last_error() == Some((e.output@, e.message@)),
            },
    {
        match self.last_err {
            Some(e) => Err(e),
            None => Ok(()),
        }
    }
}

/// Begins to apply a batch of changes. The changes are applied in their
/// order, one step each; an empty batch is done at once.
pub fn apply(result: TriggerResult) -> (session: ApplySession)
    ensures
        session.remaining() == result@,
        !session.awaiting(),
        session.last_error() is None,
{
    let session = ApplySession { changes: result.changes, next: 0, awaiting: false, last_err: None };
    assert(session.remaining() =~= result@);
    session
}

} // verus!
