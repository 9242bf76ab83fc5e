//! The progress record that a worker publishes and an observer reads, and the
//! worker-side context that writes it.
//!
//! Every function here is a plain state transition. The caller decides how the
//! record is shared: whoever holds exclusive access to it may apply one.

use crate::gui::string_map::StringMap;
use vstd::prelude::*;

verus! {

/// A fraction `numerator / denominator`, the share of a run that is done.
///
/// A denominator of 0 stands for no finite value.
#[derive(Clone, Copy, Debug, PartialEq, Eq, Structural)]
pub struct Progress {
    pub numerator: u32,
    pub denominator: u32,
}

impl Progress {
    /// The fraction's value is `n / d`.
    pub open spec fn is_ratio(self, n: int, d: int) -> bool {
        self.denominator > 0 && d > 0 && self.numerator * d == n * self.denominator
    }

    /// The fraction's value is 0.
    pub open spec fn is_zero(self) -> bool {
        self.denominator > 0 && self.numerator == 0
    }

    /// The fraction's value is 1.
    pub open spec fn is_one(self) -> bool {
        self.denominator > 0 && self.numerator == self.denominator
    }

    /// The fraction's value lies between 0 and 1.
    pub open spec fn in_unit_range(self) -> bool {
        self.denominator > 0 && self.numerator <= self.denominator
    }

    /// Nothing done.
    pub fn zero() -> (p: Progress)
        ensures
            p == (Progress { numerator: 0, denominator: 1 }),
            p.is_zero(),
    {
        Progress { numerator: 0, denominator: 1 }
    }

    /// Everything done.
    pub fn one() -> (p: Progress)
        ensures
            p == (Progress { numerator: 1, denominator: 1 }),
            p.is_one(),
    {
        Progress { numerator: 1, denominator: 1 }
    }

    /// `completed` parts of `total`.
    pub fn ratio(completed: u32, total: u32) -> (p: Progress)
        ensures
            p == (Progress { numerator: completed, denominator: total }),
            total > 0 ==> p.is_ratio(completed as int, total as int),
    {
        Progress { numerator: completed, denominator: total }
    }
}

impl Default for Progress {
    fn default() -> (p: Progress)
        ensures
            p == (Progress { numerator: 0, denominator: 1 }),
    {
        Progress::zero()
    }
}

/// The characters of each string of a list.
pub open spec fn texts(lines: Seq<String>) -> Seq<Seq<char>> {
    lines.map_values(|s: String| s@)
}

/// The status text that a completed run leaves.
pub open spec fn done_message() -> Seq<char> {
    "Done! Reboot for changes to take full effect."@
}

/// What prefixes the status text of a failed run.
pub open spec fn error_status_prefix() -> Seq<char> {
    "Error: "@
}

/// What tags the log line of a failed run.
pub open spec fn error_log_prefix() -> Seq<char> {
    "ERROR: "@
}

/// The progress record as plain values.
pub struct StateView {
    pub progress: Progress,
    pub total_ops: u32,
    pub completed_ops: u32,
    pub status_message: Seq<char>,
    pub log_messages: Seq<Seq<char>>,
    pub is_running: bool,
    pub is_complete: bool,
    pub error: Option<Seq<char>>,
}

impl StateView {
    /// The record before any run.
    pub open spec fn idle() -> StateView {
        StateView {
            progress: Progress { numerator: 0, denominator: 1 },
            total_ops: 0,
            completed_ops: 0,
            status_message: Seq::empty(),
            log_messages: Seq::empty(),
            is_running: false,
            is_complete: false,
            error: None,
        }
    }

    /// The record at the start of a run of `total_ops` operations.
    pub open spec fn fresh(total_ops: u32) -> StateView {
        StateView {
            progress: Progress { numerator: 0, denominator: 1 },
            total_ops,
            completed_ops: 0,
            status_message: Seq::empty(),
            log_messages: Seq::empty(),
            is_running: true,
            is_complete: false,
            error: None,
        }
    }

    /// The record after a status message: the message is the status and the
    /// log's last line.
    pub open spec fn with_status(self, message: Seq<char>) -> StateView {
        StateView {
            status_message: message,
            log_messages: self.log_messages.push(message),
            ..self
        }
    }

    /// The record after `completed` of `total` operations were published.
    pub open spec fn with_progress(self, completed: u32, total: u32) -> StateView {
        StateView {
            completed_ops: completed,
            progress: Progress { numerator: completed, denominator: total },
            ..self
        }
    }

    /// The record after one more operation of its own run was published.
    pub open spec fn advanced(self) -> StateView
        recommends
            self.completed_ops < self.total_ops,
    {
        self.with_progress((self.completed_ops + 1) as u32, self.total_ops)
    }

    /// The record after the run completed.
    pub open spec fn completed(self) -> StateView {
        StateView {
            is_running: false,
            is_complete: true,
            progress: Progress { numerator: 1, denominator: 1 },
            status_message: done_message(),
            ..self
        }
    }

    /// The record after the run failed with `error`.
    pub open spec fn failed(self, error: Seq<char>) -> StateView {
        StateView {
            is_running: false,
            error: Some(error),
            status_message: error_status_prefix() + error,
            log_messages: self.log_messages.push(error_log_prefix() + error),
            ..self
        }
    }

    /// What holds of the record at every instant of a run that ends in at most
    /// one of completion and failure.
    pub open spec fn wf(self) -> bool {
        &&& self.completed_ops <= self.total_ops
        &&& self.progress.in_unit_range()
        &&& self.total_ops > 0 ==> self.progress.is_ratio(
            self.completed_ops as int,
            self.total_ops as int,
        )
        &&& !(self.is_running && self.is_complete)
        &&& self.error.is_some() ==> !self.is_running
        &&& self.is_complete ==> self.error.is_none()
    }
}

/// Shared state between the observer and the worker of a run.
#[derive(Debug)]
pub struct SharedState {
    pub progress: Progress,
    pub total_ops: u32,
    pub completed_ops: u32,
    pub status_message: String,
    pub log_messages: Vec<String>,
    pub is_running: bool,
    pub is_complete: bool,
    pub error: Option<String>,
}

impl View for SharedState {
    type V = StateView;

    open spec fn view(&self) -> StateView {
        StateView {
            progress: self.progress,
            total_ops: self.total_ops,
            completed_ops: self.completed_ops,
            status_message: self.status_message@,
            log_messages: texts(self.log_messages@),
            is_running: self.is_running,
            is_complete: self.is_complete,
            error: match self.error {
                Some(e) => Some(e@),
                None => None,
            },
        }
    }
}

impl Default for SharedState {
    /// The record before any run.
    fn default() -> (s: SharedState)
        ensures
            s@ == StateView::idle(),
    {
        let s = SharedState {
            progress: Progress::zero(),
            total_ops: 0,
            completed_ops: 0,
            status_message: String::new(),
            log_messages: Vec::new(),
            is_running: false,
            is_complete: false,
            error: None,
        };
        proof {
            assert(s@.log_messages =~= Seq::<Seq<char>>::empty());
        }
        s
    }
}

impl SharedState {
    /// Starts the record over for a run of `total_ops` operations, whatever it
    /// held before.
    pub fn reset(&mut self, total_ops: u32)
        ensures
            final(self)@ == StateView::fresh(total_ops),
            final(self)@.wf(),
    {
        self.progress = Progress::zero();
        self.total_ops = total_ops;
        self.completed_ops = 0;
        self.status_message = String::new();
        self.log_messages.clear();
        self.is_running = true;
        self.is_complete = false;
        self.error = None;
        proof {
            assert(self@.log_messages =~= Seq::<Seq<char>>::empty());
        }
    }
}

/// What a worker holds during one run: how many operations it has reported,
/// how many the run has, and the input values the run was started with.
#[derive(Debug)]
pub struct WorkerContext {
    pub completed_ops: u32,
    pub total_ops: u32,
    pub input_values: StringMap<String>,
}

impl WorkerContext {
    /// The worker's counter and total are those that the record shows.
    pub open spec fn in_step(&self, shared: StateView) -> bool {
        self.completed_ops == shared.completed_ops && self.total_ops == shared.total_ops
    }

    /// Starts a run: resets the record and returns the context that reports it.
    pub fn new(shared: &mut SharedState, total_ops: u32, input_values: StringMap<String>) -> (ctx:
        WorkerContext)
        ensures
            final(shared)@ == StateView::fresh(total_ops),
            ctx.completed_ops == 0,
            ctx.total_ops == total_ops,
            ctx.input_values == input_values,
            ctx.in_step(final(shared)@),
    {
        shared.reset(total_ops);
        WorkerContext { completed_ops: 0, total_ops, input_values }
    }

    /// Posts a status message: it becomes the status and is appended to the log.
    pub fn post_status(&self, shared: &mut SharedState, status: &str)
        ensures
            final(shared)@ == old(shared)@.with_status(status@),
            old(shared)@.wf() ==> final(shared)@.wf(),
            self.in_step(old(shared)@) ==> self.in_step(final(shared)@),
    {
        shared.status_message = status.to_owned();
        shared.log_messages.push(status.to_owned());
        proof {
            assert(shared@.log_messages =~= old(shared)@.log_messages.push(status@));
        }
    }

    /// Reports one more operation done: counts it and publishes the new count
    /// and the share of the total that it is. A run reports no more operations
    /// than it has: the context must have one left to report.
    pub fn report_progress(&mut self, shared: &mut SharedState)
        requires
            old(self).completed_ops < old(self).total_ops,
        ensures
            final(self).completed_ops == old(self).completed_ops + 1,
            final(self).total_ops == old(self).total_ops,
            final(self).input_values == old(self).input_values,
            final(shared)@ == old(shared)@.with_progress(
                final(self).completed_ops,
                final(self).total_ops,
            ),
            final(shared)@.progress.is_ratio(
                final(shared)@.completed_ops as int,
                final(self).total_ops as int,
            ),
            old(self).in_step(old(shared)@) ==> {
                &&& final(self).in_step(final(shared)@)
                &&& final(shared)@ == old(shared)@.advanced()
                &&& old(shared)@.completed_ops <= final(shared)@.completed_ops
                    <= final(shared)@.total_ops
                &&& old(shared)@.wf() ==> final(shared)@.wf()
            },
    {
        let completed: u32 = self.completed_ops + 1;
        self.completed_ops = completed;
        shared.completed_ops = completed;
        shared.progress = Progress::ratio(completed, self.total_ops);
    }

    /// Signals completion: the record no longer runs, is complete, shows the
    /// progress at one and the completion message. It is for a run that has
    /// not failed: an error that the record holds stays in it.
    pub fn post_complete(&self, shared: &mut SharedState)
        ensures
            final(shared)@ == old(shared)@.completed(),
            final(shared)@.is_complete,
            !final(shared)@.is_running,
            final(shared)@.error == old(shared)@.error,
            self.in_step(old(shared)@) ==> self.in_step(final(shared)@),
            old(shared)@.wf() && old(shared)@.error.is_none() && old(shared)@.completed_ops == old(
                shared,
            )@.total_ops ==> final(shared)@.wf(),
    {
        shared.is_running = false;
        shared.is_complete = true;
        shared.progress = Progress::one();
        shared.status_message = "Done! Reboot for changes to take full effect.".to_owned();
    }

    /// Signals failure with the given detail: the record no longer runs and
    /// holds the error, and the log ends with a line that is tagged as an error.
    pub fn post_error(&self, shared: &mut SharedState, error: String)
        ensures
            final(shared)@ == old(shared)@.failed(error@),
            !final(shared)@.is_running,
            final(shared)@.error == Some(error@),
            self.in_step(old(shared)@) ==> self.in_step(final(shared)@),
            old(shared)@.wf() && !old(shared)@.is_complete ==> final(shared)@.wf(),
    {
        let mut status = "Error: ".to_owned();
        status.append(error.as_str());
        let mut line = "ERROR: ".to_owned();
        line.append(error.as_str());
        shared.is_running = false;
        shared.status_message = status;
        shared.log_messages.push(line);
        shared.error = Some(error);
        proof {
            assert(shared@.log_messages =~= old(shared)@.log_messages.push(
                error_log_prefix() + error@,
            ));
        }
    }
}

/// The record after `n` more operations of its own run were published.
pub open spec fn advanced_by(state: StateView, n: nat) -> StateView
    decreases n,
{
    if n == 0 {
        state
    } else {
        advanced_by(state, (n - 1) as nat).advanced()
    }
}

/// However many operations a run reports, up to its total: the count that the
/// record shows never falls and never passes the total, the progress after
/// each report is the count's share of the total, and the record stays
/// consistent.
pub proof fn lemma_reports_never_fall(state: StateView, i: nat, j: nat)
    requires
        state.wf(),
        i <= j,
        state.completed_ops + j <= state.total_ops,
    ensures
        advanced_by(state, j).completed_ops == state.completed_ops + j,
        advanced_by(state, j).total_ops == state.total_ops,
        advanced_by(state, i).completed_ops <= advanced_by(state, j).completed_ops
            <= state.total_ops,
        j > 0 ==> advanced_by(state, j).progress.is_ratio(
            advanced_by(state, j).completed_ops as int,
            state.total_ops as int,
        ),
        advanced_by(state, j).wf(),
    decreases j,
{
    if j > 0 {
        if i < j {
            lemma_reports_never_fall(state, i, (j - 1) as nat);
        } else {
            lemma_reports_never_fall(state, (i - 1) as nat, (j - 1) as nat);
        }
    }
}

/// A run ends in completion or in failure, never in both. A consistent record
/// never shows completion together with an error. Completing a run that has
/// no error leaves it complete and without error, and consistent if every
/// operation was reported. Failing a run leaves it not running, with exactly
/// the error given, and consistent if the run was not complete.
pub proof fn lemma_terminal_outcomes_exclude(state: StateView, error: Seq<char>)
    requires
        state.wf(),
    ensures
        !(state.is_complete && state.error.is_some()),
        state.error.is_none() ==> state.completed().is_complete
            && state.completed().error.is_none(),
        state.error.is_none() && state.completed_ops == state.total_ops
            ==> state.completed().wf(),
        !state.failed(error).is_running,
        state.failed(error).error == Some(error),
        !state.is_complete ==> state.failed(error).wf() && !state.failed(error).is_complete,
{
}

} // verus!
