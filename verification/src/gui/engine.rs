//! The application engine: it expands a selection into an ordered list of
//! operations and drives one run over that list.
//!
//! The engine itself applies nothing. It says which action is pending, and is
//! told how that action went; whoever drives it performs the action in
//! between. A run stops at the first failure, and nothing is rolled back.

use crate::gui::shared_state::{SharedState, StateView, WorkerContext};
use crate::gui::state::{checked_in, TweakStates};
use crate::gui::string_map::StringMap;
use crate::gui::tweaks::{Catalog, Operation, Tweak};
use vstd::prelude::*;

verus! {

/// The operations that enabling the checked tweaks takes: for each checked
/// tweak, in catalog order, its enable operations in their own order.
pub open spec fn planned_apply(tweaks: Seq<Tweak>, states: Map<Seq<char>, bool>) -> Seq<
    Operation,
> {
    tweaks.map_values(
        |t: Tweak|
            if checked_in(states, t.id@) {
                t.enabled_ops@
            } else {
                Seq::<Operation>::empty()
            },
    ).flatten()
}

/// The operations that reverting every tweak takes: the tweaks in reverse
/// catalog order, so that what was enabled last is reverted first, and each
/// tweak's disable operations in the order in which the tweak lists them.
pub open spec fn planned_unset_all(tweaks: Seq<Tweak>) -> Seq<Operation> {
    tweaks.reverse().map_values(|t: Tweak| t.disabled_ops@).flatten()
}

/// Appends copies of the operations to the plan.
fn append_ops(plan: &mut Vec<Operation>, ops: &Vec<Operation>)
    ensures
        final(plan)@ == old(plan)@ + ops@,
{
    let mut k: usize = 0;
    while k < ops.len()
        invariant
            k <= ops@.len(),
            plan@ == old(plan)@ + ops@.take(k as int),
        decreases ops@.len() - k,
    {
        plan.push(ops[k]);
        proof {
            assert(ops@.take(k + 1) =~= ops@.take(k as int).push(ops@[k as int]));
            assert(plan@ =~= old(plan)@ + ops@.take(k + 1));
        }
        k += 1;
    }
    proof {
        assert(ops@.take(k as int) =~= ops@);
    }
}

/// The operation list that applies the selection.
pub fn plan_apply(tweaks: &Vec<Tweak>, states: &StringMap<bool>) -> (plan: Vec<Operation>)
    ensures
        plan@ == planned_apply(tweaks@, states@),
{
    let ghost parts = tweaks@.map_values(
        |t: Tweak|
            if checked_in(states@, t.id@) {
                t.enabled_ops@
            } else {
                Seq::<Operation>::empty()
            },
    );
    let mut plan: Vec<Operation> = Vec::new();
    let mut i: usize = 0;
    proof {
        assert(parts.take(0) =~= Seq::<Seq<Operation>>::empty());
    }
    while i < tweaks.len()
        invariant
            i <= tweaks@.len(),
            parts == tweaks@.map_values(
                |t: Tweak|
                    if checked_in(states@, t.id@) {
                        t.enabled_ops@
                    } else {
                        Seq::<Operation>::empty()
                    },
            ),
            plan@ == parts.take(i as int).flatten(),
        decreases tweaks@.len() - i,
    {
        let checked = match states.get(tweaks[i].id) {
            Some(c) => *c,
            None => false,
        };
        if checked {
            append_ops(&mut plan, &tweaks[i].enabled_ops);
        }
        proof {
            assert(parts.take(i + 1) =~= parts.take(i as int).push(parts[i as int]));
            parts.take(i as int).lemma_flatten_push(parts[i as int]);
            assert(plan@ =~= parts.take(i + 1).flatten());
        }
        i += 1;
    }
    proof {
        assert(parts.take(i as int) =~= parts);
    }
    plan
}

/// The operation list that reverts every tweak of the catalog.
pub fn plan_unset_all(tweaks: &Vec<Tweak>) -> (plan: Vec<Operation>)
    ensures
        plan@ == planned_unset_all(tweaks@),
{
    let ghost parts = tweaks@.reverse().map_values(|t: Tweak| t.disabled_ops@);
    let n = tweaks.len();
    let mut plan: Vec<Operation> = Vec::new();
    let mut i: usize = 0;
    proof {
        assert(parts.take(0) =~= Seq::<Seq<Operation>>::empty());
    }
    while i < n
        invariant
            n == tweaks@.len(),
            i <= n,
            parts == tweaks@.reverse().map_values(|t: Tweak| t.disabled_ops@),
            plan@ == parts.take(i as int).flatten(),
        decreases n - i,
    {
        append_ops(&mut plan, &tweaks[n - 1 - i].disabled_ops);
        proof {
            assert(tweaks@.reverse()[i as int] == tweaks@[n - 1 - i]);
            assert(parts.take(i + 1) =~= parts.take(i as int).push(parts[i as int]));
            parts.take(i as int).lemma_flatten_push(parts[i as int]);
            assert(plan@ =~= parts.take(i + 1).flatten());
        }
        i += 1;
    }
    proof {
        assert(parts.take(i as int) =~= parts);
    }
    plan
}

/// Where a run stands.
#[derive(Clone, Copy, PartialEq, Eq, Structural, Debug)]
pub enum Phase {
    /// No run was started yet.
    Idle,
    /// The run waits for its restore point.
    RestorePoint,
    /// The run waits for the outcome of its next operation.
    Applying,
    /// The run ended with every operation applied.
    Complete,
    /// The run ended at a failure.
    Failed,
}

/// What the driver of a run has to do next.
#[derive(Clone, Copy, Debug)]
pub enum Action {
    /// Create the restore point, and report how that went.
    CreateRestorePoint,
    /// Apply the operation, and report how that went.
    Apply(Operation),
    /// Nothing: no run is under way.
    Finish,
}

/// Why a run was not started.
#[derive(Clone, Copy, PartialEq, Eq, Structural, Debug)]
pub enum StartError {
    /// A run is under way.
    Busy,
    /// The plan has more operations than the record can count.
    TooManyOperations,
}

/// The status text after an operation was applied.
pub open spec fn applied_message(op: Operation) -> Seq<char> {
    "Applied "@ + op.subkey@
}

/// How an action went, as plain values.
pub open spec fn outcome_view(outcome: Result<(), String>) -> Result<(), Seq<char>> {
    match outcome {
        Ok(()) => Ok(()),
        Err(e) => Err(e@),
    }
}

/// A run as plain values: the record, the plan and the phase.
pub struct RunView {
    pub state: StateView,
    pub plan: Seq<Operation>,
    pub phase: Phase,
}

impl RunView {
    /// Before any run.
    pub open spec fn idle() -> RunView {
        RunView { state: StateView::idle(), plan: Seq::empty(), phase: Phase::Idle }
    }

    /// A run is under way.
    pub open spec fn active(self) -> bool {
        self.phase == Phase::RestorePoint || self.phase == Phase::Applying
    }

    /// What holds of every run: the record is consistent in itself, counts
    /// against the plan, and shows the phase.
    pub open spec fn wf(self) -> bool {
        &&& self.state.wf()
        &&& self.state.total_ops == self.plan.len()
        &&& match self.phase {
            Phase::Idle => self.state == StateView::idle(),
            Phase::RestorePoint => self.state.is_running && self.state.completed_ops == 0,
            Phase::Applying => self.state.is_running && self.state.completed_ops
                < self.state.total_ops,
            Phase::Complete => self.state.is_complete && self.state.completed_ops
                == self.state.total_ops && self.state.progress.is_one(),
            Phase::Failed => self.state.error.is_some() && !self.state.is_complete,
        }
    }

    /// The action that the run waits for.
    pub open spec fn pending(self) -> Action {
        match self.phase {
            Phase::RestorePoint => Action::CreateRestorePoint,
            Phase::Applying => Action::Apply(self.plan[self.state.completed_ops as int]),
            _ => Action::Finish,
        }
    }

    /// The run once nothing stands before its next operation: it waits for
    /// that operation, or is complete if none is left.
    pub open spec fn settled(self) -> RunView {
        if self.state.completed_ops == self.state.total_ops {
            RunView { state: self.state.completed(), phase: Phase::Complete, ..self }
        } else {
            RunView { phase: Phase::Applying, ..self }
        }
    }

    /// The run that begins with the plan.
    pub open spec fn started(plan: Seq<Operation>, restore_point: bool) -> RunView
        recommends
            plan.len() <= u32::MAX,
    {
        let run = RunView {
            state: StateView::fresh(plan.len() as u32),
            plan,
            phase: Phase::RestorePoint,
        };
        if restore_point {
            run
        } else {
            run.settled()
        }
    }

    /// The run stopped by a failure with the given detail.
    pub open spec fn stopped(self, error: Seq<char>) -> RunView {
        RunView { state: self.state.failed(error), phase: Phase::Failed, ..self }
    }

    /// The run after its pending action went as `outcome` says. A run that
    /// waits for nothing stays as it is.
    pub open spec fn after(self, outcome: Result<(), Seq<char>>) -> RunView {
        match self.phase {
            Phase::RestorePoint => match outcome {
                Ok(()) => self.settled(),
                Err(e) => self.stopped(e),
            },
            Phase::Applying => match outcome {
                Ok(()) => (RunView {
                    state: self.state.advanced().with_status(
                        applied_message(self.plan[self.state.completed_ops as int]),
                    ),
                    ..self
                }).settled(),
                Err(e) => self.stopped(e),
            },
            _ => self,
        }
    }
}

/// Completes the run if no operation is left, else lets it wait for the next.
fn settle(state: &mut SharedState, worker: &WorkerContext, plan: &Vec<Operation>) -> (phase: Phase)
    requires
        worker.in_step(old(state)@),
        old(state)@.wf(),
        old(state)@.is_running,
        old(state)@.error.is_none(),
        old(state)@.total_ops == plan@.len(),
    ensures
        worker.in_step(final(state)@),
        (RunView { state: final(state)@, plan: plan@, phase }) == (RunView {
            state: old(state)@,
            plan: plan@,
            phase: Phase::RestorePoint,
        }).settled(),
        (RunView { state: final(state)@, plan: plan@, phase }).wf(),
{
    if worker.completed_ops == worker.total_ops {
        worker.post_complete(state);
        Phase::Complete
    } else {
        Phase::Applying
    }
}

/// Takes the outcome of the pending action into the record.
fn advance(
    state: &mut SharedState,
    worker: &mut WorkerContext,
    plan: &Vec<Operation>,
    phase: Phase,
    outcome: Result<(), String>,
) -> (next: Phase)
    requires
        old(worker).in_step(old(state)@),
        (RunView { state: old(state)@, plan: plan@, phase }).wf(),
    ensures
        final(worker).in_step(final(state)@),
        final(worker).input_values == old(worker).input_values,
        (RunView { state: final(state)@, plan: plan@, phase: next }) == (RunView {
            state: old(state)@,
            plan: plan@,
            phase,
        }).after(outcome_view(outcome)),
        (RunView { state: final(state)@, plan: plan@, phase: next }).wf(),
{
    match phase {
        Phase::RestorePoint => match outcome {
            Ok(()) => settle(state, worker, plan),
            Err(e) => {
                worker.post_error(state, e);
                Phase::Failed
            },
        },
        Phase::Applying => match outcome {
            Ok(()) => {
                let op = plan[worker.completed_ops as usize];
                let mut message = "Applied ".to_owned();
                message.append(op.subkey);
                worker.report_progress(state);
                worker.post_status(state, message.as_str());
                settle(state, worker, plan)
            },
            Err(e) => {
                worker.post_error(state, e);
                Phase::Failed
            },
        },
        _ => phase,
    }
}

/// The engine: the progress record, and the run that writes it.
#[derive(Debug)]
pub struct Engine {
    state: SharedState,
    worker: WorkerContext,
    plan: Vec<Operation>,
    phase: Phase,
}

impl View for Engine {
    type V = RunView;

    closed spec fn view(&self) -> RunView {
        RunView { state: self.state@, plan: self.plan@, phase: self.phase }
    }
}

impl Engine {
    #[verifier::type_invariant]
    spec fn inv(&self) -> bool {
        self@.wf() && self.worker.in_step(self.state@)
    }

    /// The input values that the run under way, or the last one, was started with.
    pub closed spec fn inputs(&self) -> Map<Seq<char>, String> {
        self.worker.input_values@
    }

    /// An engine before any run.
    pub fn new() -> (engine: Engine)
        ensures
            engine@ == RunView::idle(),
            engine@.wf(),
            engine.inputs() == Map::<Seq<char>, String>::empty(),
    {
        Engine {
            state: SharedState::default(),
            worker: WorkerContext { completed_ops: 0, total_ops: 0, input_values: StringMap::new() },
            plan: Vec::new(),
            phase: Phase::Idle,
        }
    }

    /// The progress record, for the observer to read.
    pub fn state(&self) -> (state: &SharedState)
        ensures
            state@ == self@.state,
            self@.wf(),
    {
        proof {
            use_type_invariant(self);
        }
        &self.state
    }

    /// The phase of the run.
    pub fn phase(&self) -> (phase: Phase)
        ensures
            phase == self@.phase,
    {
        self.phase
    }

    /// The operations of the run, in the order in which they are applied.
    pub fn plan(&self) -> (plan: &Vec<Operation>)
        ensures
            plan@ == self@.plan,
    {
        &self.plan
    }

    /// The input values that the run was started with.
    pub fn input_values(&self) -> (values: &StringMap<String>)
        ensures
            values@ == self.inputs(),
    {
        &self.worker.input_values
    }

    /// The action that the run waits for.
    pub fn next_action(&self) -> (action: Action)
        ensures
            action == self@.pending(),
            self@.wf(),
    {
        proof {
            use_type_invariant(self);
        }
        match self.phase {
            Phase::RestorePoint => Action::CreateRestorePoint,
            Phase::Applying => Action::Apply(self.plan[self.worker.completed_ops as usize]),
            _ => Action::Finish,
        }
    }

    /// Starts a run over the plan, unless one is under way or the plan is too
    /// long to count. With `restore_point` the run first waits for its restore
    /// point. A run with nothing to wait for is complete at once.
    pub fn begin(
        &mut self,
        plan: Vec<Operation>,
        input_values: StringMap<String>,
        restore_point: bool,
    ) -> (r: Result<(), StartError>)
        ensures
            old(self)@.wf(),
            final(self)@.wf(),
            match r {
                Ok(()) => {
                    &&& !old(self)@.active()
                    &&& plan@.len() <= u32::MAX
                    &&& final(self)@ == RunView::started(plan@, restore_point)
                    &&& final(self).inputs() == input_values@
                },
                Err(StartError::Busy) => {
                    &&& old(self)@.active()
                    &&& final(self)@ == old(self)@
                    &&& final(self).inputs() == old(self).inputs()
                },
                Err(StartError::TooManyOperations) => {
                    &&& !old(self)@.active()
                    &&& plan@.len() > u32::MAX
                    &&& final(self)@ == old(self)@
                    &&& final(self).inputs() == old(self).inputs()
                },
            },
    {
        proof {
            use_type_invariant(&*self);
        }
        if self.phase == Phase::RestorePoint || self.phase == Phase::Applying {
            return Err(StartError::Busy);
        }
        if plan.len() > u32::MAX as usize {
            return Err(StartError::TooManyOperations);
        }
        let total: u32 = plan.len() as u32;
        let mut state = SharedState::default();
        let worker = WorkerContext::new(&mut state, total, input_values);
        let phase = if restore_point {
            Phase::RestorePoint
        } else {
            settle(&mut state, &worker, &plan)
        };
        *self = Engine { state, worker, plan, phase };
        Ok(())
    }

    /// Starts a run that enables the checked tweaks, with a copy of the
    /// selection's input values.
    pub fn begin_apply(
        &mut self,
        catalog: &Catalog,
        selection: &TweakStates,
        restore_point: bool,
    ) -> (r: Result<(), StartError>)
        ensures
            old(self)@.wf(),
            final(self)@.wf(),
            match r {
                Ok(()) => {
                    &&& !old(self)@.active()
                    &&& planned_apply(catalog.tweak_list(), selection.states@).len() <= u32::MAX
                    &&& final(self)@ == RunView::started(
                        planned_apply(catalog.tweak_list(), selection.states@),
                        restore_point,
                    )
                    &&& final(self).inputs() == selection.input_values@
                },
                Err(StartError::Busy) => {
                    &&& old(self)@.active()
                    &&& final(self)@ == old(self)@
                    &&& final(self).inputs() == old(self).inputs()
                },
                Err(StartError::TooManyOperations) => {
                    &&& !old(self)@.active()
                    &&& planned_apply(catalog.tweak_list(), selection.states@).len() > u32::MAX
                    &&& final(self)@ == old(self)@
                    &&& final(self).inputs() == old(self).inputs()
                },
            },
    {
        let copy = selection.snapshot();
        let plan = plan_apply(catalog.tweaks(), &copy.0);
        self.begin(plan, copy.1, restore_point)
    }

    /// Starts a run that reverts every tweak of the catalog.
    pub fn begin_unset_all(
        &mut self,
        catalog: &Catalog,
        selection: &TweakStates,
        restore_point: bool,
    ) -> (r: Result<(), StartError>)
        ensures
            old(self)@.wf(),
            final(self)@.wf(),
            match r {
                Ok(()) => {
                    &&& !old(self)@.active()
                    &&& planned_unset_all(catalog.tweak_list()).len() <= u32::MAX
                    &&& final(self)@ == RunView::started(planned_unset_all(catalog.tweak_list()), restore_point)
                    &&& final(self).inputs() == selection.input_values@
                },
                Err(StartError::Busy) => {
                    &&& old(self)@.active()
                    &&& final(self)@ == old(self)@
                    &&& final(self).inputs() == old(self).inputs()
                },
                Err(StartError::TooManyOperations) => {
                    &&& !old(self)@.active()
                    &&& planned_unset_all(catalog.tweak_list()).len() > u32::MAX
                    &&& final(self)@ == old(self)@
                    &&& final(self).inputs() == old(self).inputs()
                },
            },
    {
        let copy = selection.snapshot();
        let plan = plan_unset_all(catalog.tweaks());
        self.begin(plan, copy.1, restore_point)
    }

    /// Takes in how the pending action went: counts and logs a success,
    /// completes the run after the last one, and stops the run at a failure.
    /// Where no action is pending, nothing changes.
    pub fn step(&mut self, outcome: Result<(), String>)
        ensures
            old(self)@.wf(),
            final(self)@.wf(),
            final(self)@ == old(self)@.after(outcome_view(outcome)),
            final(self).inputs() == old(self).inputs(),
    {
        proof {
            use_type_invariant(&*self);
        }
        let mut taken = Engine::new();
        core::mem::swap(self, &mut taken);
        let Engine { mut state, mut worker, plan, phase } = taken;
        let next = advance(&mut state, &mut worker, &plan, phase, outcome);
        *self = Engine { state, worker, plan, phase: next };
    }
}

/// `n` successes in a row.
pub open spec fn successes(n: nat) -> Seq<Result<(), Seq<char>>> {
    Seq::new(n, |i: int| Ok(()))
}

/// The run after its actions went as the outcomes say, one after the other.
pub open spec fn after_all(run: RunView, outcomes: Seq<Result<(), Seq<char>>>) -> RunView
    decreases outcomes.len(),
{
    if outcomes.len() == 0 {
        run
    } else {
        after_all(run, outcomes.drop_last()).after(outcomes.last())
    }
}

/// The run that began with the plan, at the point where its first operation
/// is due: after the restore point was created, where it has one.
pub open spec fn entered(plan: Seq<Operation>, restore_point: bool) -> RunView {
    if restore_point {
        RunView::started(plan, true).after(Ok(()))
    } else {
        RunView::started(plan, false)
    }
}

/// A run that begins is consistent, and so is one that has entered its plan.
pub proof fn lemma_started_is_wf(plan: Seq<Operation>, restore_point: bool)
    requires
        plan.len() <= u32::MAX,
    ensures
        RunView::started(plan, restore_point).wf(),
        entered(plan, restore_point).wf(),
        entered(plan, restore_point) == RunView::started(plan, false),
{
}

/// Whatever the outcome, a step keeps the run consistent, keeps the plan and
/// the total, never lowers the count, and only ever appends to the log.
pub proof fn lemma_step_keeps_order(run: RunView, outcome: Result<(), Seq<char>>)
    requires
        run.wf(),
    ensures
        run.after(outcome).wf(),
        run.after(outcome).plan == run.plan,
        run.after(outcome).state.total_ops == run.state.total_ops,
        run.state.completed_ops <= run.after(outcome).state.completed_ops <= run.state.total_ops,
        run.state.log_messages.is_prefix_of(run.after(outcome).state.log_messages),
{
}

/// A run that is over, or was never started, takes no outcome in.
pub proof fn lemma_terminal_is_absorbing(run: RunView, outcome: Result<(), Seq<char>>)
    requires
        !run.active(),
    ensures
        run.after(outcome) == run,
        run.pending() == Action::Finish,
{
}

/// After `n` successes a run that waits for an operation has counted `n`
/// more; it is complete exactly if that was every operation, and has no error.
pub proof fn lemma_successes_count(run: RunView, n: nat)
    requires
        run.wf(),
        run.phase == Phase::Applying,
        run.state.completed_ops + n <= run.state.total_ops,
    ensures
        after_all(run, successes(n)).wf(),
        after_all(run, successes(n)).plan == run.plan,
        after_all(run, successes(n)).state.total_ops == run.state.total_ops,
        after_all(run, successes(n)).state.completed_ops == run.state.completed_ops + n,
        after_all(run, successes(n)).state.error.is_none(),
        after_all(run, successes(n)).phase == if run.state.completed_ops + n
            == run.state.total_ops {
            Phase::Complete
        } else {
            Phase::Applying
        },
    decreases n,
{
    if n > 0 {
        lemma_successes_count(run, (n - 1) as nat);
        assert(successes(n).drop_last() =~= successes((n - 1) as nat));
        assert(successes(n).last() == Ok::<(), Seq<char>>(()));
    } else {
        assert(successes(0).len() == 0);
    }
}

/// A run in which every action succeeds ends complete: every operation
/// counted, the progress at one, no error.
pub proof fn lemma_all_succeed(plan: Seq<Operation>, restore_point: bool)
    requires
        plan.len() <= u32::MAX,
    ensures
        ({
            let end = after_all(entered(plan, restore_point), successes(plan.len()));
            &&& end.phase == Phase::Complete
            &&& end.state.completed_ops == plan.len()
            &&& end.state.total_ops == plan.len()
            &&& end.state.progress.is_one()
            &&& end.state.is_complete
            &&& !end.state.is_running
            &&& end.state.error.is_none()
        }),
{
    let begun = entered(plan, restore_point);
    lemma_started_is_wf(plan, restore_point);
    if plan.len() == 0 {
        assert(successes(0).len() == 0);
    } else {
        lemma_successes_count(begun, plan.len());
    }
}

/// A run stops at its first failure: after `n` successes and then a failure,
/// it has failed with that failure's detail, shows the `n` operations that
/// succeeded and the total that was planned, neither runs nor is complete,
/// ends its log with a line that is tagged as an error, and waits for nothing.
pub proof fn lemma_first_failure_stops(
    plan: Seq<Operation>,
    restore_point: bool,
    n: nat,
    error: Seq<char>,
)
    requires
        plan.len() <= u32::MAX,
        n < plan.len(),
    ensures
        ({
            let end = after_all(entered(plan, restore_point), successes(n)).after(Err(error));
            &&& end.phase == Phase::Failed
            &&& end.state.completed_ops == n
            &&& end.state.total_ops == plan.len()
            &&& end.state.error == Some(error)
            &&& !end.state.is_running
            &&& !end.state.is_complete
            &&& end.state.log_messages.len() > 0
            &&& end.state.log_messages.last() == crate::gui::shared_state::error_log_prefix()
                + error
            &&& end.pending() == Action::Finish
            &&& end.wf()
        }),
{
    lemma_started_is_wf(plan, restore_point);
    lemma_successes_count(entered(plan, restore_point), n);
}

/// A run whose restore point cannot be created fails before any operation:
/// nothing is counted, the total still shows what was planned, the error is
/// set, and no operation is ever asked for.
pub proof fn lemma_restore_point_failure(plan: Seq<Operation>, error: Seq<char>)
    requires
        plan.len() <= u32::MAX,
    ensures
        RunView::started(plan, true).pending() == Action::CreateRestorePoint,
        ({
            let end = RunView::started(plan, true).after(Err(error));
            &&& end.phase == Phase::Failed
            &&& end.state.completed_ops == 0
            &&& end.state.total_ops == plan.len()
            &&& end.state.error == Some(error)
            &&& !end.state.is_running
            &&& !end.state.is_complete
            &&& end.pending() == Action::Finish
            &&& end.wf()
        }),
{
}

} // verus!
