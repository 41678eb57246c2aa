//! The render worker's decisions: which job to start, what to report when a child could
//! not start, exited or was cancelled, and when the run is over. The caller spawns,
//! polls, kills and sends the reports.
use vstd::prelude::*;
use crate::studio::job::StudioJob;
use crate::studio::tui::actions::RunEvent;
use crate::text::str_string;

verus! {

/// The jobs of a run and how far it got.
#[derive(Debug)]
pub struct RunPlan {
    pub jobs: Vec<StudioJob>,
    /// Index of the job in flight, or of the next one to start.
    pub next: usize,
    /// A child for `jobs[next]` has been started and not yet reported.
    pub active: bool,
}

/// What the worker saw since its last step.
#[derive(Debug)]
pub enum WorkerInput {
    /// No child is running; ready for the next job.
    Ready,
    /// The child for the job in flight could not be started.
    SpawnFailed(String),
    /// The child for the job in flight was checked: `cancelled` when the operator asked
    /// to cancel (checked first), else its outcome once it exited.
    Checked { cancelled: bool, exit: Option<Result<String, String>> },
}

/// What the worker does next.
#[derive(Debug)]
pub enum WorkerAction {
    /// Report `Started` for this job, then spawn its child.
    Start(StudioJob),
    /// Send this report, then step again with `Ready`.
    Report(RunEvent),
    /// Sleep a moment, then check the child again.
    Wait,
    /// Kill the child, send this report, then step again with `Ready`.
    Cancel(RunEvent),
    /// Send `AllDone` and stop.
    Finish,
}

impl RunPlan {
    /// The plan is consistent: `next` within the jobs, and a job in flight is one of them.
    pub open spec fn wf(&self) -> bool {
        &&& self.next <= self.jobs@.len()
        &&& self.active ==> self.next < self.jobs@.len()
    }

    /// A run of `jobs`, in order, nothing started yet.
    pub fn new(jobs: Vec<StudioJob>) -> (p: RunPlan)
        ensures
            p.wf(),
            p.jobs == jobs,
            p.next == 0,
            !p.active,
    {
        RunPlan { jobs, next: 0, active: false }
    }
}

/// The texts of an outcome.
pub open spec fn outcome_view(res: Result<String, String>) -> Result<Seq<char>, Seq<char>> {
    match res {
        Ok(s) => Ok(s@),
        Err(e) => Err(e@),
    }
}

/// `ev` reports that `job` ended with the outcome `res`.
pub open spec fn finished(job: StudioJob, res: Result<Seq<char>, Seq<char>>, ev: RunEvent) -> bool {
    ev matches RunEvent::Finished(id, r) && id == job.id && outcome_view(r) == res
}

/// The step from `before` to `after` on `input`, with action `a`: what `worker_step` does.
pub open spec fn step_rel(before: RunPlan, input: WorkerInput, after: RunPlan, a: WorkerAction) -> bool {
    &&& after.wf()
    &&& after.jobs == before.jobs
    &&& match input {
            WorkerInput::Ready => if before.next < before.jobs@.len() {
                a == WorkerAction::Start(before.jobs@[before.next as int]) && after.active
                    && after.next == before.next
            } else {
                a is Finish && after == before
            },
            WorkerInput::SpawnFailed(e) => (a matches WorkerAction::Report(ev) && finished(
                before.jobs@[before.next as int],
                Err(e@),
                ev,
            )) && after.next == before.next + 1 && !after.active,
            WorkerInput::Checked { cancelled, exit } => if cancelled {
                (a matches WorkerAction::Cancel(ev) && finished(
                    before.jobs@[before.next as int],
                    Err("cancelled"@),
                    ev,
                )) && after.next == before.jobs@.len() && !after.active
            } else {
                match exit {
                    Some(res) => (a matches WorkerAction::Report(ev) && finished(
                        before.jobs@[before.next as int],
                        outcome_view(res),
                        ev,
                    )) && after.next == before.next + 1 && !after.active,
                    None => a is Wait && after == before,
                }
            },
        }
}

/// Decide the worker's next action. A cancel ends the whole run: the remaining jobs are
/// dropped. A child that fails to start is reported and the run goes on with the next
/// job, as it does after a child exits.
pub fn worker_step(plan: &mut RunPlan, input: WorkerInput) -> (a: WorkerAction)
    requires
        old(plan).wf(),
        input is Ready <==> !old(plan).active,
    ensures
        step_rel(*old(plan), input, *final(plan), a),
{
    let count = plan.jobs.len();
    match input {
        WorkerInput::Ready => {
            if plan.next < plan.jobs.len() {
                plan.active = true;
                WorkerAction::Start(plan.jobs[plan.next].duplicate())
            } else {
                WorkerAction::Finish
            }
        },
        WorkerInput::SpawnFailed(e) => {
            let id = plan.jobs[plan.next].id.clone();
            assert(plan.next < count);
            plan.next = plan.next + 1;
            plan.active = false;
            WorkerAction::Report(RunEvent::Finished(id, Err(e)))
        },
        WorkerInput::Checked { cancelled, exit } => {
            if cancelled {
                let id = plan.jobs[plan.next].id.clone();
                plan.next = plan.jobs.len();
                plan.active = false;
                WorkerAction::Cancel(RunEvent::Finished(id, Err(str_string("cancelled"))))
            } else {
                match exit {
                    Some(res) => {
                        let id = plan.jobs[plan.next].id.clone();
                        assert(plan.next < count);
                        plan.next = plan.next + 1;
                        plan.active = false;
                        WorkerAction::Report(RunEvent::Finished(id, res))
                    },
                    None => WorkerAction::Wait,
                }
            }
        },
    }
}


/// Step `k` of a run goes from `plans[k]` to `plans[k + 1]` on `inputs[k]` with action
/// `actions[k]`, the input being `Ready` exactly when no child is in flight.
pub open spec fn step_at(plans: Seq<RunPlan>, inputs: Seq<WorkerInput>, actions: Seq<WorkerAction>, k: int) -> bool {
    &&& (inputs[k] is Ready <==> !plans[k].active)
    &&& step_rel(plans[k], inputs[k], plans[k + 1], actions[k])
}

/// A run of the worker: steps from a consistent plan with nothing in flight.
pub open spec fn is_run(plans: Seq<RunPlan>, inputs: Seq<WorkerInput>, actions: Seq<WorkerAction>) -> bool {
    &&& plans.len() == actions.len() + 1
    &&& inputs.len() == actions.len()
    &&& plans[0].wf()
    &&& !plans[0].active
    &&& forall|k: int| 0 <= k < actions.len() ==> #[trigger] step_at(plans, inputs, actions, k)
}

/// `a` reports (as a plain report or after a cancel) that `job` ended.
pub open spec fn reports_end(a: WorkerAction, job: StudioJob) -> bool {
    ||| (a matches WorkerAction::Report(ev) && ev matches RunEvent::Finished(id, _) && id == job.id)
    ||| (a matches WorkerAction::Cancel(ev) && ev matches RunEvent::Finished(id, _) && id == job.id)
}

/// No action in `actions[from..to]` starts a job.
pub open spec fn no_start_between(actions: Seq<WorkerAction>, from: int, to: int) -> bool {
    forall|j: int| from <= j < to ==> !(#[trigger] actions[j] is Start)
}

proof fn lemma_run_basics(plans: Seq<RunPlan>, inputs: Seq<WorkerInput>, actions: Seq<WorkerAction>, k: int)
    requires
        is_run(plans, inputs, actions),
        0 <= k < plans.len(),
    ensures
        plans[k].wf(),
        plans[k].jobs == plans[0].jobs,
    decreases k,
{
    if k > 0 {
        lemma_run_basics(plans, inputs, actions, k - 1);
        assert(step_at(plans, inputs, actions, k - 1));
    }
}

proof fn lemma_next_grows(plans: Seq<RunPlan>, inputs: Seq<WorkerInput>, actions: Seq<WorkerAction>, i: int, k: int)
    requires
        is_run(plans, inputs, actions),
        0 <= i <= k < plans.len(),
    ensures
        plans[i].next <= plans[k].next,
    decreases k,
{
    if k > i {
        lemma_next_grows(plans, inputs, actions, i, k - 1);
        lemma_run_basics(plans, inputs, actions, k - 1);
        assert(step_at(plans, inputs, actions, k - 1));
    }
}

/// A child in flight was started by the last `Start`, and only waits followed it.
proof fn lemma_active_from_start(plans: Seq<RunPlan>, inputs: Seq<WorkerInput>, actions: Seq<WorkerAction>, k: int) -> (i: int)
    requires
        is_run(plans, inputs, actions),
        0 <= k < plans.len(),
        plans[k].active,
    ensures
        0 <= i < k,
        actions[i] is Start,
        plans[i].next == plans[k].next,
        forall|j: int| i < j < k ==> #[trigger] actions[j] is Wait,
    decreases k,
{
    assert(k > 0);
    assert(step_at(plans, inputs, actions, k - 1));
    lemma_run_basics(plans, inputs, actions, k - 1);
    if plans[k - 1].active {
        let i = lemma_active_from_start(plans, inputs, actions, k - 1);
        assert(actions[k - 1] is Wait);
        i
    } else {
        k - 1
    }
}

/// Without a `Start` before step `k`, nothing moved: the run still is where it began.
proof fn lemma_before_first_start(plans: Seq<RunPlan>, inputs: Seq<WorkerInput>, actions: Seq<WorkerAction>, k: int)
    requires
        is_run(plans, inputs, actions),
        0 <= k < plans.len(),
        no_start_between(actions, 0, k),
    ensures
        plans[k].next == plans[0].next,
        !plans[k].active,
    decreases k,
{
    if k > 0 {
        lemma_before_first_start(plans, inputs, actions, k - 1);
        assert(step_at(plans, inputs, actions, k - 1));
        assert(!(actions[k - 1] is Start));
    }
}

/// After a `Start` at `i` and before the next one: the job is in flight (only waits so
/// far), or it has been reported and the run moved one job on (or to the end after a
/// cancel).
proof fn lemma_after_start(plans: Seq<RunPlan>, inputs: Seq<WorkerInput>, actions: Seq<WorkerAction>, i: int, t: int)
    requires
        is_run(plans, inputs, actions),
        0 <= i < t < plans.len(),
        actions[i] is Start,
        no_start_between(actions, i + 1, t),
    ensures
        plans[t].active ==> plans[t].next == plans[i].next,
        !plans[t].active ==> exists|m: int|
            i < m < t && reports_end(#[trigger] actions[m], plans[0].jobs@[plans[i].next as int]) && (
            (actions[m] is Report && plans[t].next == plans[i].next + 1) || (actions[m] is Cancel
                && plans[t].next == plans[0].jobs@.len())),
    decreases t,
{
    lemma_run_basics(plans, inputs, actions, i);
    lemma_run_basics(plans, inputs, actions, t - 1);
    assert(step_at(plans, inputs, actions, i));
    assert(step_at(plans, inputs, actions, t - 1));
    if t == i + 1 {
        assert(plans[t].active);
    } else {
        lemma_after_start(plans, inputs, actions, i, t - 1);
        assert(!(actions[t - 1] is Start));
        if plans[t - 1].active {
            if !plans[t].active {
                let m = t - 1;
                assert(reports_end(actions[m], plans[0].jobs@[plans[i].next as int]));
            }
        } else {
            let m = choose|m: int|
                i < m < t - 1 && reports_end(#[trigger] actions[m], plans[0].jobs@[plans[i].next as int]) && (
                (actions[m] is Report && plans[t - 1].next == plans[i].next + 1) || (actions[m] is Cancel
                    && plans[t - 1].next == plans[0].jobs@.len()));
            assert(actions[t - 1] is Finish);
            assert(plans[t] == plans[t - 1]);
            assert(i < m < t && reports_end(actions[m], plans[0].jobs@[plans[i].next as int]));
        }
    }
}

/// The order of a worker run. Jobs start in order, from where the plan began, one at a
/// time: each `Start` names the job at the plan's position, the first one the plan's
/// first job, and between two starts the earlier job's end is reported and the run
/// moved exactly one job on. Every end report follows the start of the same job, with
/// only waits between. After a cancel, and after `Finish`, no job starts. (The caller
/// sends `Started` on `Start`, `Finished` on a report and `AllDone` on `Finish`.)
pub proof fn law_run_order(plans: Seq<RunPlan>, inputs: Seq<WorkerInput>, actions: Seq<WorkerAction>)
    requires
        is_run(plans, inputs, actions),
    ensures
        forall|k: int| 0 <= k < actions.len() && #[trigger] actions[k] is Start ==> actions[k]
            == WorkerAction::Start(plans[0].jobs@[plans[k].next as int]),
        forall|k: int| 0 <= k < actions.len() && #[trigger] actions[k] is Start && no_start_between(actions, 0, k)
            ==> plans[k].next == plans[0].next,
        forall|i: int, k: int|
            0 <= i < k < actions.len() && #[trigger] actions[i] is Start && #[trigger] actions[k] is Start
                && no_start_between(actions, i + 1, k) ==> plans[k].next == plans[i].next + 1 && exists|m: int|
                i < m < k && reports_end(#[trigger] actions[m], plans[0].jobs@[plans[i].next as int]),
        forall|m: int| 0 <= m < actions.len() && (#[trigger] actions[m] is Report || actions[m] is Cancel) ==> exists|i: int|
            0 <= i < m && #[trigger] actions[i] is Start && plans[i].next == plans[m].next && reports_end(
                actions[m],
                plans[0].jobs@[plans[m].next as int],
            ) && forall|j: int| i < j < m ==> #[trigger] actions[j] is Wait,
        forall|i: int, k: int|
            0 <= i < k < actions.len() && (#[trigger] actions[i] is Cancel || actions[i] is Finish) ==> !(
            #[trigger] actions[k] is Start),
{
    assert forall|k: int| 0 <= k < actions.len() && #[trigger] actions[k] is Start implies actions[k]
        == WorkerAction::Start(plans[0].jobs@[plans[k].next as int]) by {
        assert(step_at(plans, inputs, actions, k));
        lemma_run_basics(plans, inputs, actions, k);
    }
    assert forall|k: int| 0 <= k < actions.len() && #[trigger] actions[k] is Start && no_start_between(actions, 0, k)
        implies plans[k].next == plans[0].next by {
        lemma_before_first_start(plans, inputs, actions, k);
    }
    assert forall|i: int, k: int|
        0 <= i < k < actions.len() && #[trigger] actions[i] is Start && #[trigger] actions[k] is Start
            && no_start_between(actions, i + 1, k) implies plans[k].next == plans[i].next + 1 && exists|m: int|
            i < m < k && reports_end(#[trigger] actions[m], plans[0].jobs@[plans[i].next as int]) by {
        lemma_after_start(plans, inputs, actions, i, k);
        assert(step_at(plans, inputs, actions, k));
        lemma_run_basics(plans, inputs, actions, k);
    }
    assert forall|m: int| 0 <= m < actions.len() && (#[trigger] actions[m] is Report || actions[m] is Cancel) implies exists|i: int|
        0 <= i < m && #[trigger] actions[i] is Start && plans[i].next == plans[m].next && reports_end(
            actions[m],
            plans[0].jobs@[plans[m].next as int],
        ) && forall|j: int| i < j < m ==> #[trigger] actions[j] is Wait by {
        assert(step_at(plans, inputs, actions, m));
        lemma_run_basics(plans, inputs, actions, m);
        let i = lemma_active_from_start(plans, inputs, actions, m);
        assert(reports_end(actions[m], plans[0].jobs@[plans[m].next as int]));
    }
    assert forall|i: int, k: int|
        0 <= i < k < actions.len() && (#[trigger] actions[i] is Cancel || actions[i] is Finish) implies !(
        #[trigger] actions[k] is Start) by {
        assert(step_at(plans, inputs, actions, i));
        assert(step_at(plans, inputs, actions, k));
        lemma_run_basics(plans, inputs, actions, i);
        lemma_run_basics(plans, inputs, actions, k);
        lemma_next_grows(plans, inputs, actions, i + 1, k);
    }
}

} // verus!
