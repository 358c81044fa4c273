//! The bookkeeping of a batch: its phases, the progress count and the
//! first output directory, and the events that a subscriber receives.
//!
//! Workers run elsewhere. Whoever drives them reports here what happened,
//! one report at a time, and sends on the event that each report returns.

use vstd::prelude::*;

verus! {

/// An event of a batch, in the order `TaskStarted`, then one
/// `TaskProgress` per file, then `TaskFinished`.
#[derive(Clone, Debug, PartialEq, Eq)]
pub enum AppMessage {
    /// The file list is known; carries the number of files.
    TaskStarted(usize),
    /// One more file was attempted; carries the count so far and the name
    /// of the file.
    TaskProgress(usize, String),
    /// Every file was attempted; carries the directory of the first output,
    /// if any file succeeded.
    TaskFinished(Option<String>),
}

/// What becomes of a request to process paths.
#[derive(Clone, Copy, Debug, PartialEq, Eq, Structural)]
pub enum Submission {
    /// Inputs would be overwritten and nobody has agreed yet. The request
    /// is to be held until the user confirms.
    NeedsConfirmation,
    /// The batch starts.
    Accepted,
}

/// Decides what becomes of a request: one that would overwrite inputs waits
/// for confirmation unless that was given. A request without paths has
/// nothing to overwrite and is accepted; its batch finishes at once.
pub open spec fn submission_of(path_count: nat, overwrite: bool, confirmed: bool) -> Submission {
    if path_count > 0 && overwrite && !confirmed {
        Submission::NeedsConfirmation
    } else {
        Submission::Accepted
    }
}

/// Decides what becomes of a request to process `path_count` paths.
pub fn review_submission(path_count: usize, overwrite: bool, confirmed: bool) -> (verdict:
    Submission)
    ensures
        verdict == submission_of(path_count as nat, overwrite, confirmed),
{
    if path_count > 0 && overwrite && !confirmed {
        Submission::NeedsConfirmation
    } else {
        Submission::Accepted
    }
}

/// The phases of a batch.
#[derive(Clone, Copy, Debug, PartialEq, Eq, Structural)]
pub enum Phase {
    Idle,
    Scanning,
    Running,
    Finished,
}

/// The state of one batch.
#[derive(Debug)]
pub struct Batch {
    phase: Phase,
    total: usize,
    completed: usize,
    first_output_dir: Option<String>,
    cancelled: bool,
}

/// The state of a batch as plain values.
pub struct BatchModel {
    pub phase: Phase,
    pub total: nat,
    pub completed: nat,
    pub first_output_dir: Option<Seq<char>>,
    pub cancelled: bool,
}

impl BatchModel {
    /// What holds of every state a batch can reach: the count never passes
    /// the total, a running batch has files, a finished batch has attempted
    /// them all, and before a batch runs nothing is counted.
    pub open spec fn wf(self) -> bool {
        &&& self.completed <= self.total
        &&& self.phase == Phase::Running ==> self.total > 0
        &&& self.phase == Phase::Finished ==> self.completed == self.total
        &&& (self.phase == Phase::Idle || self.phase == Phase::Scanning) ==> self.total == 0
            && self.first_output_dir is None
    }

    /// The state after a submission: an idle batch starts scanning.
    pub open spec fn after_submit(self) -> BatchModel {
        if self.phase == Phase::Idle {
            BatchModel { phase: Phase::Scanning, ..self }
        } else {
            self
        }
    }

    /// The state after the files were counted.
    pub open spec fn after_collected(self, total: nat) -> BatchModel {
        if self.phase != Phase::Scanning {
            self
        } else if total == 0 {
            BatchModel { phase: Phase::Finished, ..self }
        } else {
            BatchModel { phase: Phase::Running, total, ..self }
        }
    }

    /// Whether one more file can be reported.
    pub open spec fn expects_file(self) -> bool {
        self.phase == Phase::Running && self.completed < self.total
    }

    /// The state after one file was attempted. The first directory that is
    /// reported stays; later ones are dropped.
    pub open spec fn after_file(self, output_dir: Option<Seq<char>>) -> BatchModel {
        if !self.expects_file() {
            self
        } else {
            BatchModel {
                completed: self.completed + 1,
                first_output_dir: if self.first_output_dir is Some {
                    self.first_output_dir
                } else {
                    output_dir
                },
                ..self
            }
        }
    }

    /// Whether the batch can be closed: it runs and every file was
    /// attempted.
    pub open spec fn can_finish(self) -> bool {
        self.phase == Phase::Running && self.completed == self.total
    }

    /// The state after the batch was closed.
    pub open spec fn after_finish(self) -> BatchModel {
        if self.can_finish() {
            BatchModel { phase: Phase::Finished, ..self }
        } else {
            self
        }
    }

    /// Whether the next file is still to be processed: the batch runs and
    /// nobody has asked it to stop.
    pub open spec fn wants_work(self) -> bool {
        self.phase == Phase::Running && !self.cancelled
    }
}

/// An event as plain values.
pub enum EventModel {
    Started(nat),
    Progress(nat, Seq<char>),
    Finished(Option<Seq<char>>),
}

impl AppMessage {
    pub open spec fn model(&self) -> EventModel {
        match self {
            AppMessage::TaskStarted(total) => EventModel::Started(*total as nat),
            AppMessage::TaskProgress(count, name) => EventModel::Progress(*count as nat, name@),
            AppMessage::TaskFinished(dir) => EventModel::Finished(
                match dir {
                    Some(d) => Some(d@),
                    None => None,
                },
            ),
        }
    }
}

impl Batch {
    pub closed spec fn model(&self) -> BatchModel {
        BatchModel {
            phase: self.phase,
            total: self.total as nat,
            completed: self.completed as nat,
            first_output_dir: match self.first_output_dir {
                Some(d) => Some(d@),
                None => None,
            },
            cancelled: self.cancelled,
        }
    }

    /// A batch that nothing was submitted to yet.
    pub fn new() -> (batch: Batch)
        ensures
            batch.model() == (BatchModel {
                phase: Phase::Idle,
                total: 0,
                completed: 0,
                first_output_dir: None,
                cancelled: false,
            }),
            batch.model().wf(),
    {
        Batch {
            phase: Phase::Idle,
            total: 0,
            completed: 0,
            first_output_dir: None,
            cancelled: false,
        }
    }

    pub fn phase(&self) -> (phase: Phase)
        ensures
            phase == self.model().phase,
    {
        self.phase
    }

    pub fn total(&self) -> (total: usize)
        ensures
            total == self.model().total,
    {
        self.total
    }

    pub fn completed(&self) -> (completed: usize)
        ensures
            completed == self.model().completed,
    {
        self.completed
    }

    /// Asks the batch to stop. Files not yet begun are then to be reported
    /// as failed without being processed, so that the count still reaches
    /// the total and the batch still finishes.
    pub fn cancel(&mut self)
        ensures
            final(self).model() == (BatchModel { cancelled: true, ..old(self).model() }),
            old(self).model().wf() ==> final(self).model().wf(),
    {
        self.cancelled = true;
    }

    /// Whether the next file is still to be processed. To be asked between
    /// files.
    pub fn wants_work(&self) -> (wanted: bool)
        ensures
            wanted == self.model().wants_work(),
    {
        match self.phase {
            Phase::Running => !self.cancelled,
            _ => false,
        }
    }

    /// Takes a submission: an idle batch starts scanning. Returns whether
    /// it did.
    pub fn submit(&mut self) -> (accepted: bool)
        ensures
            accepted == (old(self).model().phase == Phase::Idle),
            final(self).model() == old(self).model().after_submit(),
            old(self).model().wf() ==> final(self).model().wf(),
    {
        match self.phase {
            Phase::Idle => {
                self.phase = Phase::Scanning;
                true
            },
            _ => false,
        }
    }

    /// Reports the number of files found. With files the batch runs and
    /// announces their number; without any it is finished at once, with no
    /// output directory and without having announced a start.
    pub fn files_collected(&mut self, total: usize) -> (event: Option<AppMessage>)
        ensures
            final(self).model() == old(self).model().after_collected(total as nat),
            old(self).model().wf() ==> final(self).model().wf(),
            old(self).model().phase != Phase::Scanning ==> event is None,
            old(self).model().phase == Phase::Scanning ==> event is Some && event.unwrap().model()
                == if total == 0 {
                EventModel::Finished(old(self).model().first_output_dir)
            } else {
                EventModel::Started(total as nat)
            },
    {
        match self.phase {
            Phase::Scanning => {
                if total == 0 {
                    self.phase = Phase::Finished;
                    Some(AppMessage::TaskFinished(self.first_output_dir.clone()))
                } else {
                    self.phase = Phase::Running;
                    self.total = total;
                    Some(AppMessage::TaskStarted(total))
                }
            },
            _ => None,
        }
    }

    /// Reports that one file was attempted: `output_dir` is the directory
    /// its output went to, or `None` if it failed. The count goes up by
    /// one, whether the file succeeded or not, and the event carries the new
    /// count. The first directory reported is kept.
    pub fn file_done(&mut self, file_name: String, output_dir: Option<String>) -> (event: Option<
        AppMessage,
    >)
        ensures
            final(self).model() == old(self).model().after_file(
                match output_dir {
                    Some(d) => Some(d@),
                    None => None,
                },
            ),
            old(self).model().wf() ==> final(self).model().wf(),
            !old(self).model().expects_file() ==> event is None,
            old(self).model().expects_file() ==> event is Some && event.unwrap().model()
                == EventModel::Progress(old(self).model().completed + 1, file_name@),
    {
        match self.phase {
            Phase::Running => {
                if self.completed >= self.total {
                    return None;
                }
                self.completed = self.completed + 1;
                if self.first_output_dir.is_none() {
                    self.first_output_dir = output_dir;
                }
                Some(AppMessage::TaskProgress(self.completed, file_name))
            },
            _ => None,
        }
    }

    /// Closes the batch once every file was attempted, and says where the
    /// first output went.
    pub fn finish(&mut self) -> (event: Option<AppMessage>)
        ensures
            final(self).model() == old(self).model().after_finish(),
            old(self).model().wf() ==> final(self).model().wf(),
            !old(self).model().can_finish() ==> event is None,
            old(self).model().can_finish() ==> event is Some && event.unwrap().model()
                == EventModel::Finished(old(self).model().first_output_dir),
    {
        match self.phase {
            Phase::Running => {
                if self.completed != self.total {
                    return None;
                }
                self.phase = Phase::Finished;
                Some(AppMessage::TaskFinished(self.first_output_dir.clone()))
            },
            _ => None,
        }
    }
}

/// A request without paths is accepted whatever its settings, and the
/// batch it starts goes from scanning straight to finished: the one event
/// is the end of the batch, without an output directory, and no start was
/// announced.
pub proof fn lemma_empty_submission(overwrite: bool, confirmed: bool)
    ensures
        submission_of(0, overwrite, confirmed) == Submission::Accepted,
        ({
            let idle = BatchModel {
                phase: Phase::Idle,
                total: 0,
                completed: 0,
                first_output_dir: None,
                cancelled: false,
            };
            let end = idle.after_submit().after_collected(0);
            &&& end.wf()
            &&& end.phase == Phase::Finished
            &&& end.first_output_dir is None
            &&& end.completed == 0
            &&& !end.expects_file()
            &&& !end.can_finish()
        }),
{
}

/// Reporting a file never lowers the count, raises it by at most one, and
/// never moves it past the total; the output directory, once set, stays.
pub proof fn lemma_progress_monotone(state: BatchModel, output_dir: Option<Seq<char>>)
    requires
        state.wf(),
    ensures
        state.after_file(output_dir).wf(),
        state.completed <= state.after_file(output_dir).completed <= state.completed + 1,
        state.after_file(output_dir).completed <= state.total,
        state.after_file(output_dir).total == state.total,
        state.first_output_dir is Some ==> state.after_file(output_dir).first_output_dir
            == state.first_output_dir,
{
}

/// The state of a running batch after the files of `outcomes` were
/// reported one after the other.
pub open spec fn after_files(state: BatchModel, outcomes: Seq<Option<Seq<char>>>) -> BatchModel
    decreases outcomes.len(),
{
    if outcomes.len() == 0 {
        state
    } else {
        after_files(state, outcomes.drop_last()).after_file(outcomes.last())
    }
}

/// The first directory among `outcomes`, if any file succeeded.
pub open spec fn first_output(outcomes: Seq<Option<Seq<char>>>) -> Option<Seq<char>>
    decreases outcomes.len(),
{
    if outcomes.len() == 0 {
        None
    } else if first_output(outcomes.drop_last()) is Some {
        first_output(outcomes.drop_last())
    } else {
        outcomes.last()
    }
}

/// A batch of `total` files can be closed after exactly `total` reports,
/// whatever their outcomes, and not before. The count equals the number of
/// reports, and the directory kept is that of the first file that
/// succeeded.
pub proof fn lemma_finishes_after_total(total: nat, outcomes: Seq<Option<Seq<char>>>)
    requires
        total > 0,
        outcomes.len() <= total,
    ensures
        ({
            let start = BatchModel {
                phase: Phase::Running,
                total,
                completed: 0,
                first_output_dir: None,
                cancelled: false,
            };
            &&& after_files(start, outcomes).wf()
            &&& after_files(start, outcomes).phase == Phase::Running
            &&& after_files(start, outcomes).total == total
            &&& after_files(start, outcomes).completed == outcomes.len()
            &&& after_files(start, outcomes).first_output_dir == first_output(outcomes)
            &&& after_files(start, outcomes).can_finish() <==> outcomes.len() == total
        }),
    decreases outcomes.len(),
{
    if outcomes.len() > 0 {
        lemma_finishes_after_total(total, outcomes.drop_last());
    }
}

} // verus!
