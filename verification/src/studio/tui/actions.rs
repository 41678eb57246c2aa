//! Bookkeeping of render runs: which job a keypress runs and how run reports change
//! the queue.
use vstd::prelude::*;
use crate::studio::job::StudioJob;
use crate::studio::queue::{id_taken, JobQueue, JobStatus};
use crate::text::{append_chars, chars_of, str_string};

verus! {

/// Index of the job to run for the selection: the selected one when it exists, the first
/// otherwise, none for an empty queue.
pub fn selected_pending_or_any(queue: &JobQueue, selected: usize) -> (r: Option<usize>)
    ensures
        queue.entries@.len() == 0 ==> r is None,
        queue.entries@.len() > 0 && selected < queue.entries@.len() ==> r == Some(selected),
        queue.entries@.len() > 0 && selected >= queue.entries@.len() ==> r == Some(0usize),
{
    if queue.entries.len() == 0 {
        return None;
    }
    if selected < queue.entries.len() {
        return Some(selected);
    }
    Some(0)
}

/// Events a render worker reports back. Keyed by job id: indices go stale when the
/// operator edits the queue mid-run.
#[derive(Debug, PartialEq, Eq)]
pub enum RunEvent {
    Started(String),
    Finished(String, Result<String, String>),
    AllDone,
}

/// The first `n` characters of `s`.
pub open spec fn prefix(s: Seq<char>, n: nat) -> Seq<char> {
    if s.len() <= n {
        s
    } else {
        s.take(n as int)
    }
}

/// The text an outcome leaves in the entry: the output, or the error.
pub open spec fn outcome_text(res: Result<String, String>) -> Seq<char> {
    match res {
        Ok(s) => s@,
        Err(m) => m@,
    }
}

/// `i` is the first entry of `entries` with id `id`.
pub open spec fn first_with_id(entries: Seq<crate::studio::queue::QueueEntry>, id: Seq<char>, i: int) -> bool {
    0 <= i < entries.len() && entries[i].job.id@ == id && forall|j: int|
        0 <= j < i ==> entries[j].job.id@ != id
}

/// Effect of a `Started(id)` report: the first entry with that id becomes running.
pub open spec fn started_effect(
    before: Seq<crate::studio::queue::QueueEntry>,
    after: Seq<crate::studio::queue::QueueEntry>,
    id: Seq<char>,
    saved: bool,
) -> bool {
    if id_taken(before, id) {
        saved && exists|i: int|
            first_with_id(before, id, i) && after == before.update(
                i,
                crate::studio::queue::QueueEntry { status: JobStatus::Running, ..before[i] },
            )
    } else {
        !saved && after == before
    }
}

/// Effect of a `Finished(id, res)` report on the first entry with that id.
pub open spec fn finished_effect(
    before: Seq<crate::studio::queue::QueueEntry>,
    after: Seq<crate::studio::queue::QueueEntry>,
    id: Seq<char>,
    res: Result<String, String>,
    r: (Option<String>, bool),
) -> bool {
    if id_taken(before, id) {
        &&& r.1
        &&& r.0 matches Some(m) && m@ == match res {
            Ok(_) => "done "@ + id,
            Err(e) => "failed "@ + id + ": "@ + prefix(e@, 80),
        }
        &&& exists|i: int|
            first_with_id(before, id, i) && after.len() == before.len() && (forall|j: int|
                0 <= j < before.len() && j != i ==> after[j] == before[j]) && after[i].job
                == before[i].job && after[i].status == (if res is Ok {
                JobStatus::Done
            } else {
                JobStatus::Failed
            }) && after[i].message@ == outcome_text(res)
    } else {
        &&& !r.1
        &&& after == before
        &&& r.0 matches Some(m) && m@ == id + " finished after being deleted"@
    }
}

fn apply_started(queue: &mut JobQueue, id: String) -> (saved: bool)
    ensures
        started_effect(old(queue).entries@, final(queue).entries@, id@, saved),
{
    match queue.position_of(id.as_str()) {
        Some(i) => {
            queue.update_entry(i, JobStatus::Running, None);
            proof {
                assert(queue.entries@ =~= old(queue).entries@.update(
                    i as int,
                    crate::studio::queue::QueueEntry {
                        status: JobStatus::Running,
                        ..old(queue).entries@[i as int]
                    },
                ));
                assert(first_with_id(old(queue).entries@, id@, i as int));
            }
            true
        },
        None => false,
    }
}

fn failure_line(id: &str, e: &str) -> (m: String)
    ensures
        m@ == "failed "@ + id@ + ": "@ + prefix(e@, 80),
{
    let mut m = str_string("failed ");
    m.append(id);
    m.append(": ");
    let c = chars_of(e);
    let n: usize = if c.len() <= 80 { c.len() } else { 80 };
    let head = crate::text::slice_chars(&c, 0, n);
    append_chars(&mut m, &head);
    proof {
        assert(head@ =~= prefix(e@, 80));
    }
    m
}

fn apply_finished(queue: &mut JobQueue, id: String, res: Result<String, String>) -> (r: (
    Option<String>,
    bool,
))
    ensures
        finished_effect(old(queue).entries@, final(queue).entries@, id@, res, r),
{
    match queue.position_of(id.as_str()) {
        None => {
            let mut m = id.clone();
            m.append(" finished after being deleted");
            (Some(m), false)
        },
        Some(i) => {
            let ghost res0 = res;
            let (status, text, msg) = match res {
                Ok(out) => {
                    let mut m = str_string("done ");
                    m.append(id.as_str());
                    (JobStatus::Done, out, m)
                },
                Err(e) => {
                    let m = failure_line(id.as_str(), e.as_str());
                    (JobStatus::Failed, e, m)
                },
            };
            queue.update_entry(i, status, Some(text));
            proof {
                assert(first_with_id(old(queue).entries@, id@, i as int));
            }
            (Some(msg), true)
        },
    }
}

/// Apply one worker event to the queue (status and message, by job id). Returns the
/// status-line message (none for `Started`) and whether the queue changed and must be
/// saved.
pub fn apply_run_event(queue: &mut JobQueue, ev: RunEvent) -> (r: (Option<String>, bool))
    ensures
        match ev {
            RunEvent::Started(id) => r.0 is None && started_effect(
                old(queue).entries@,
                final(queue).entries@,
                id@,
                r.1,
            ),
            RunEvent::Finished(id, res) => finished_effect(
                old(queue).entries@,
                final(queue).entries@,
                id@,
                res,
                r,
            ),
            RunEvent::AllDone => !r.1 && final(queue).entries@ == old(queue).entries@ && (r.0 matches Some(
                m,
            ) && m@ == "run finished"@),
        },
{
    match ev {
        RunEvent::Started(id) => {
            let saved = apply_started(queue, id);
            (None, saved)
        },
        RunEvent::Finished(id, res) => apply_finished(queue, id, res),
        RunEvent::AllDone => (Some(str_string("run finished")), false),
    }
}

/// Mark entry `idx` running before its blocking run; the job to run, or `bad index`.
pub fn begin_run_at(queue: &mut JobQueue, idx: usize) -> (r: Result<StudioJob, String>)
    ensures
        idx >= old(queue).entries@.len() ==> (r matches Err(m) && m@ == "bad index"@
            && final(queue).entries@ == old(queue).entries@),
        idx < old(queue).entries@.len() ==> (r == Ok::<StudioJob, String>(old(queue).entries@[idx as int].job)
            && final(queue).entries@ == old(queue).entries@.update(
            idx as int,
            crate::studio::queue::QueueEntry {
                status: JobStatus::Running,
                ..old(queue).entries@[idx as int]
            },
        )),
{
    if idx >= queue.entries.len() {
        return Err(str_string("bad index"));
    }
    queue.update_entry(idx, JobStatus::Running, None);
    proof {
        assert(queue.entries@ =~= old(queue).entries@.update(
            idx as int,
            crate::studio::queue::QueueEntry {
                status: JobStatus::Running,
                ..old(queue).entries@[idx as int]
            },
        ));
    }
    Ok(queue.entries[idx].job.duplicate())
}

/// Record the blocking run of entry `idx` (job `id`): done with its output, or failed
/// with the error text. Returns the status line.
pub fn finish_run_at(queue: &mut JobQueue, idx: usize, id: &str, res: Result<String, String>) -> (r:
    String)
    requires
        idx < old(queue).entries@.len(),
    ensures
        final(queue).entries@.len() == old(queue).entries@.len(),
        forall|j: int| 0 <= j < old(queue).entries@.len() && j != idx ==> final(queue).entries@[j] == old(queue).entries@[j],
        final(queue).entries@[idx as int].job == old(queue).entries@[idx as int].job,
        final(queue).entries@[idx as int].status == (if res is Ok {
            JobStatus::Done
        } else {
            JobStatus::Failed
        }),
        final(queue).entries@[idx as int].message@ == outcome_text(res),
        r@ == match res {
            Ok(_) => "done "@ + id@,
            Err(e) => "failed "@ + id@ + ": "@ + e@,
        },
{
    match res {
        Ok(out) => {
            queue.update_entry(idx, JobStatus::Done, Some(out));
            let mut m = str_string("done ");
            m.append(id);
            m
        },
        Err(e) => {
            let mut m = str_string("failed ");
            m.append(id);
            m.append(": ");
            m.append(e.as_str());
            queue.update_entry(idx, JobStatus::Failed, Some(e));
            m
        },
    }
}

} // verus!
