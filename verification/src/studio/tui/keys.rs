//! Key handling for both Director screens, as transitions of the UI state. Each
//! handler says what the caller must do next (start a run, save, reload, ...).
use vstd::prelude::*;
use crate::studio::job::StudioJob;
use crate::studio::queue::{first_pending, JobQueue, JobStatus, QueueEntry};
use crate::studio::tui::actions::selected_pending_or_any;
use crate::studio::tui::form::{lemma_wrap_back, output_path_spec, wrap, FormField, NewJobForm, Screen, EFFECTS, FORM_FIELDS};
use crate::studio::queue::{id_taken, ids_distinct, job_id, law_ids_stay_distinct};
use crate::text::{append_chars, decimal, decimal_chars, pop_char, push_char, str_string};

verus! {

/// A key press, as the Director reads it.
#[derive(Debug, Clone, Copy, PartialEq, Eq, Structural)]
pub enum Key {
    Char(char),
    Up,
    Down,
    Left,
    Right,
    Enter,
    Esc,
    Tab,
    BackTab,
    Backspace,
    Delete,
    /// Any other key.
    Other,
}

/// Outcome of a queue-screen keypress.
#[derive(Debug, Clone, Copy, PartialEq, Eq, Structural)]
pub enum KeyOutcome {
    Continue,
    Quit,
}

/// Work the caller does after a keypress.
#[derive(Debug, Clone)]
pub enum UiEffect {
    /// Nothing to do.
    Nothing,
    /// Show a fresh new-job form.
    OpenForm,
    /// Ask the running worker to cancel.
    CancelRun,
    /// Reload the queue from disk, then report with [`Ui::reload_done`].
    Reload,
    /// Save the queue (a failure is ignored).
    Save,
    /// Run these jobs in order on a worker.
    Start(Vec<StudioJob>),
    /// Save the queue after enqueueing job `id`, then report with [`Ui::enqueue_saved`].
    SaveEnqueued(String),
}

/// Mutable UI state threaded through the key handlers.
#[derive(Debug, Clone)]
pub struct Ui {
    pub queue: JobQueue,
    pub screen: Screen,
    pub selected: usize,
    pub status: String,
    /// A render worker is running.
    pub running: bool,
}

/// Selection after moving down: one further, stopping at the last entry.
pub open spec fn moved_down(selected: usize, len: nat) -> usize {
    if len == 0 {
        selected
    } else if selected + 1 <= len - 1 {
        (selected + 1) as usize
    } else {
        (len - 1) as usize
    }
}

/// Selection after moving up: one back, stopping at zero.
pub open spec fn moved_up(selected: usize) -> usize {
    if selected == 0 {
        0
    } else {
        (selected - 1) as usize
    }
}

/// Moving the selection goes one row at a time: up from row `s > 0` selects `s - 1`
/// and up from the top stays there; down from a row before the last selects the next
/// row, from the last row (or past it) selects the last row, and an empty queue keeps
/// the selection. Moving down and then up from a row before the last comes back to it.
/// (A queue holds at most `usize::MAX` entries.)
pub proof fn law_moves(s: usize, len: nat)
    requires
        len <= usize::MAX,
    ensures
        s > 0 ==> moved_up(s) == s - 1,
        s == 0 ==> moved_up(s) == 0,
        len > 0 && s + 1 < len ==> moved_down(s, len) == s + 1,
        len > 0 && s + 1 >= len ==> moved_down(s, len) == len - 1,
        len == 0 ==> moved_down(s, len) == s,
        s + 1 < len ==> moved_up(moved_down(s, len)) == s,
        len > 0 && s < len ==> moved_down(s, len) < len,
{
}

/// The status line while `n` jobs run.
pub open spec fn running_status(n: nat) -> Seq<char> {
    "running "@ + decimal(n) + " job(s) — x cancels"@
}

/// Indices of the pending entries, in order.
pub open spec fn pending_indices(entries: Seq<QueueEntry>) -> Seq<int>
    decreases entries.len(),
{
    if entries.len() == 0 {
        seq![]
    } else {
        let rest = pending_indices(entries.drop_last());
        if entries.last().status == JobStatus::Pending {
            rest.push(entries.len() - 1)
        } else {
            rest
        }
    }
}

/// The jobs of the given entries, in order.
pub open spec fn jobs_at(entries: Seq<QueueEntry>, idx: Seq<int>) -> Seq<StudioJob> {
    idx.map_values(|i: int| entries[i].job)
}

/// `after` is the UI once a run of `jobs` started (nothing starts when `jobs` is
/// empty), and `effect` what the caller must do.
pub open spec fn started(after: Ui, jobs: Seq<StudioJob>, effect: UiEffect, empty_status: Seq<char>) -> bool {
    if jobs.len() == 0 {
        &&& effect is Nothing
        &&& !after.running
        &&& after.status@ == empty_status
    } else {
        &&& effect matches UiEffect::Start(js) && js@ == jobs
        &&& after.running
        &&& after.status@ == running_status(jobs.len())
    }
}

proof fn lemma_pending_step(entries: Seq<QueueEntry>, k: int)
    requires
        0 <= k < entries.len(),
    ensures
        pending_indices(entries.take(k + 1)) == if entries[k].status == JobStatus::Pending {
            pending_indices(entries.take(k)).push(k)
        } else {
            pending_indices(entries.take(k))
        },
{
    let t = entries.take(k + 1);
    assert(t.drop_last() =~= entries.take(k));
}

/// Jobs of all pending entries, in queue order.
fn pending_jobs(queue: &JobQueue) -> (r: Vec<StudioJob>)
    ensures
        r@ == jobs_at(queue.entries@, pending_indices(queue.entries@)),
{
    let mut r: Vec<StudioJob> = Vec::new();
    let mut k: usize = 0;
    while k < queue.entries.len()
        invariant
            k <= queue.entries@.len(),
            r@ == jobs_at(queue.entries@, pending_indices(queue.entries@.take(k as int))),
        decreases queue.entries@.len() - k,
    {
        proof {
            lemma_pending_step(queue.entries@, k as int);
        }
        if queue.entries[k].status == JobStatus::Pending {
            r.push(queue.entries[k].job.duplicate());
        }
        k = k + 1;
        assert(r@ =~= jobs_at(queue.entries@, pending_indices(queue.entries@.take(k as int))));
    }
    assert(queue.entries@.take(k as int) =~= queue.entries@);
    r
}

fn running_line(n: usize) -> (s: String)
    ensures
        s@ == running_status(n as nat),
{
    let mut s = str_string("running ");
    append_chars(&mut s, &decimal_chars(n as u64));
    s.append(" job(s) — x cancels");
    s
}

fn start_jobs(ui: &mut Ui, jobs: Vec<StudioJob>, empty_status: &str) -> (e: UiEffect)
    ensures
        started(*final(ui), jobs@, e, empty_status@),
        final(ui).queue == old(ui).queue,
        final(ui).selected == old(ui).selected,
        final(ui).screen == old(ui).screen,
{
    if jobs.len() == 0 {
        ui.running = false;
        ui.status = str_string(empty_status);
        UiEffect::Nothing
    } else {
        ui.status = running_line(jobs.len());
        ui.running = true;
        UiEffect::Start(jobs)
    }
}

/// A key that starts a run or reloads the queue: `r`, `a`, Enter, `R`.
pub open spec fn is_run_key(code: Key) -> bool {
    code == Key::Char('r') || code == Key::Char('a') || code == Key::Enter || code == Key::Char('R')
}

/// A key that the queue screen handles the same whether or not a run is in flight.
pub open spec fn is_edit_key(code: Key) -> bool {
    ||| code == Key::Char('q')
    ||| code == Key::Esc
    ||| code == Key::Char('j')
    ||| code == Key::Down
    ||| code == Key::Char('k')
    ||| code == Key::Up
    ||| code == Key::Char('n')
    ||| code == Key::Char('d')
    ||| code == Key::Delete
    ||| code == Key::Char('p')
}

/// Keys that work in every state: quit, move, new job, delete, re-queue.
fn edit_key_queue(code: Key, ui: &mut Ui) -> (r: (KeyOutcome, UiEffect))
    ensures
        ids_distinct(old(ui).queue.entries@) ==> ids_distinct(final(ui).queue.entries@),
        final(ui).running == old(ui).running,
        final(ui).screen == old(ui).screen || code == Key::Char('n'),
        !(code == Key::Char('j') || code == Key::Down || code == Key::Char('k') || code == Key::Up
            || code == Key::Char('d') || code == Key::Delete) ==> final(ui).selected == old(ui).selected,
        (code == Key::Char('q') || code == Key::Esc) ==> r.0 == KeyOutcome::Quit && r.1 is Nothing
            && *final(ui) == *old(ui),
        !(code == Key::Char('q') || code == Key::Esc) ==> r.0 == KeyOutcome::Continue,
        (code == Key::Char('j') || code == Key::Down) ==> final(ui).selected == moved_down(
            old(ui).selected,
            old(ui).queue.entries@.len(),
        ) && final(ui).queue == old(ui).queue && r.1 is Nothing && final(ui).status == old(ui).status,
        (code == Key::Char('k') || code == Key::Up) ==> final(ui).selected == moved_up(old(ui).selected)
            && final(ui).queue == old(ui).queue && r.1 is Nothing && final(ui).status == old(ui).status,
        code == Key::Char('n') ==> r.1 is OpenForm && final(ui).screen == Screen::NewJob
            && final(ui).status@ == "new job — Tab fields, Enter edit/save, Esc cancel"@
            && final(ui).queue == old(ui).queue,
        (code == Key::Char('d') || code == Key::Delete) ==> if old(ui).selected < old(ui).queue.entries@.len() {
            r.1 is Save && final(ui).queue.entries@ == old(ui).queue.entries@.remove(old(ui).selected as int)
                && final(ui).status@ == "deleted "@ + old(ui).queue.entries@[old(ui).selected as int].job.id@
                && final(ui).selected == (if old(ui).selected >= final(ui).queue.entries@.len() && old(ui).selected > 0 {
                (old(ui).selected - 1) as usize
            } else {
                old(ui).selected
            })
        } else {
            r.1 is Nothing && *final(ui) == *old(ui)
        },
        code == Key::Char('p') ==> if old(ui).selected < old(ui).queue.entries@.len() {
            let i = old(ui).selected as int;
            r.1 is Save && final(ui).queue.entries@.len() == old(ui).queue.entries@.len()
                && (forall|j: int| 0 <= j < old(ui).queue.entries@.len() && j != i ==> final(ui).queue.entries@[j] == old(ui).queue.entries@[j])
                && final(ui).queue.entries@[i].job == old(ui).queue.entries@[i].job
                && final(ui).queue.entries@[i].status == JobStatus::Pending
                && final(ui).queue.entries@[i].message@ == Seq::<char>::empty()
                && final(ui).status@ == "pending "@ + old(ui).queue.entries@[i].job.id@
        } else {
            r.1 is Nothing && *final(ui) == *old(ui)
        },
        !is_edit_key(code) ==> r.1 is Nothing && *final(ui) == *old(ui),
{
    match code {
        Key::Char('q') | Key::Esc => (KeyOutcome::Quit, UiEffect::Nothing),
        Key::Char('j') | Key::Down => {
            if ui.queue.entries.len() > 0 {
                let last = ui.queue.entries.len() - 1;
                ui.selected = if ui.selected < last { ui.selected + 1 } else { last };
            }
            (KeyOutcome::Continue, UiEffect::Nothing)
        },
        Key::Char('k') | Key::Up => {
            ui.selected = if ui.selected == 0 { 0 } else { ui.selected - 1 };
            (KeyOutcome::Continue, UiEffect::Nothing)
        },
        Key::Char('n') => {
            ui.screen = Screen::NewJob;
            ui.status = str_string("new job — Tab fields, Enter edit/save, Esc cancel");
            (KeyOutcome::Continue, UiEffect::OpenForm)
        },
        Key::Char('d') | Key::Delete => {
            if ui.selected < ui.queue.entries.len() {
                proof {
                    if ids_distinct(ui.queue.entries@) {
                        law_ids_stay_distinct(ui.queue.entries@, ui.queue.entries@[0], ui.selected as int);
                    }
                }
                let removed = ui.queue.remove_entry(ui.selected);
                if ui.selected >= ui.queue.entries.len() && ui.selected > 0 {
                    ui.selected = ui.selected - 1;
                }
                let mut s = str_string("deleted ");
                s.append(removed.job.id.as_str());
                ui.status = s;
                (KeyOutcome::Continue, UiEffect::Save)
            } else {
                (KeyOutcome::Continue, UiEffect::Nothing)
            }
        },
        Key::Char('p') => {
            if ui.selected < ui.queue.entries.len() {
                let i = ui.selected;
                let ghost before = ui.queue.entries@;
                ui.queue.update_entry(i, JobStatus::Pending, Some(String::new()));
                proof {
                    if ids_distinct(before) {
                        assert forall|a: int, b: int| 0 <= a < b < ui.queue.entries@.len() implies
                            #[trigger] ui.queue.entries@[a].job.id@ != #[trigger] ui.queue.entries@[b].job.id@ by {
                            assert(ui.queue.entries@[a].job == before[a].job);
                            assert(ui.queue.entries@[b].job == before[b].job);
                        }
                    }
                }
                let mut s = str_string("pending ");
                s.append(ui.queue.entries[i].job.id.as_str());
                ui.status = s;
                (KeyOutcome::Continue, UiEffect::Save)
            } else {
                (KeyOutcome::Continue, UiEffect::Nothing)
            }
        },
        _ => (KeyOutcome::Continue, UiEffect::Nothing),
    }
}

/// Starting runs and reloading, which wait while a run is in flight.
fn run_key(code: Key, ui: &mut Ui) -> (r: UiEffect)
    requires
        is_run_key(code),
    ensures
        final(ui).queue == old(ui).queue,
        final(ui).selected == old(ui).selected,
        final(ui).screen == old(ui).screen,
        code == Key::Char('R') ==> r is Reload && *final(ui) == *old(ui),
        code == Key::Char('r') ==> started(
            *final(ui),
            match first_pending(old(ui).queue.entries@) {
                Some(i) => seq![old(ui).queue.entries@[i].job],
                None => seq![],
            },
            r,
            "no pending jobs"@,
        ),
        code == Key::Char('a') ==> started(
            *final(ui),
            jobs_at(old(ui).queue.entries@, pending_indices(old(ui).queue.entries@)),
            r,
            "no pending jobs"@,
        ),
        code == Key::Enter ==> if old(ui).queue.entries@.len() == 0 {
            r is Nothing && final(ui).status@ == "no job selected"@ && final(ui).running == old(ui).running
        } else {
            let i = if old(ui).selected < old(ui).queue.entries@.len() { old(ui).selected as int } else { 0 };
            started(*final(ui), seq![old(ui).queue.entries@[i].job], r, "no job selected"@)
        },
{
    match code {
        Key::Char('r') => {
            let mut jobs: Vec<StudioJob> = Vec::new();
            match ui.queue.next_pending_index() {
                Some(i) => {
                    jobs.push(ui.queue.entries[i].job.duplicate());
                },
                None => {},
            }
            assert(jobs@ =~= match first_pending(ui.queue.entries@) {
                Some(i) => seq![ui.queue.entries@[i].job],
                None => seq![],
            });
            start_jobs(ui, jobs, "no pending jobs")
        },
        Key::Char('a') => {
            let jobs = pending_jobs(&ui.queue);
            start_jobs(ui, jobs, "no pending jobs")
        },
        Key::Enter => {
            match selected_pending_or_any(&ui.queue, ui.selected) {
                Some(idx) => {
                    let mut jobs: Vec<StudioJob> = Vec::new();
                    jobs.push(ui.queue.entries[idx].job.duplicate());
                    assert(jobs@ =~= seq![ui.queue.entries@[idx as int].job]);
                    start_jobs(ui, jobs, "no job selected")
                },
                None => {
                    ui.status = str_string("no job selected");
                    UiEffect::Nothing
                },
            }
        },
        _ => UiEffect::Reload,
    }
}

/// Handle a key on the queue screen. `q`/Esc quit (cancelling a run in flight), `j`/`k` move, `n` opens the form,
/// `d` deletes and `p` re-queues the selected job, in every state: the queue stays
/// editable while a run is in flight. Then `x` cancels the run; without a run, `R`
/// reloads, `r` runs the next pending job, `a` all pending jobs and Enter the selected
/// one (those keys wait while a run is in flight).
pub fn queue_key(code: Key, ui: &mut Ui) -> (r: (KeyOutcome, UiEffect))
    requires
        old(ui).selected < usize::MAX,
    ensures
        ids_distinct(old(ui).queue.entries@) ==> ids_distinct(final(ui).queue.entries@),
        final(ui).screen == old(ui).screen || code == Key::Char('n'),
        !(code == Key::Char('j') || code == Key::Down || code == Key::Char('k') || code == Key::Up
            || code == Key::Char('d') || code == Key::Delete) ==> final(ui).selected == old(ui).selected,
        !(!old(ui).running && is_run_key(code)) ==> final(ui).running == old(ui).running,
        (code == Key::Char('q') || code == Key::Esc) ==> r.0 == KeyOutcome::Quit && *final(ui) == *old(ui)
            && (if old(ui).running { r.1 is CancelRun } else { r.1 is Nothing }),
        !(code == Key::Char('q') || code == Key::Esc) ==> r.0 == KeyOutcome::Continue,
        (code == Key::Char('j') || code == Key::Down) ==> final(ui).selected == moved_down(
            old(ui).selected,
            old(ui).queue.entries@.len(),
        ) && final(ui).queue == old(ui).queue && r.1 is Nothing && final(ui).status == old(ui).status,
        (code == Key::Char('k') || code == Key::Up) ==> final(ui).selected == moved_up(old(ui).selected)
            && final(ui).queue == old(ui).queue && r.1 is Nothing && final(ui).status == old(ui).status,
        code == Key::Char('n') ==> r.1 is OpenForm && final(ui).screen == Screen::NewJob
            && final(ui).status@ == "new job — Tab fields, Enter edit/save, Esc cancel"@
            && final(ui).queue == old(ui).queue,
        (code == Key::Char('d') || code == Key::Delete) ==> if old(ui).selected < old(ui).queue.entries@.len() {
            r.1 is Save && final(ui).queue.entries@ == old(ui).queue.entries@.remove(old(ui).selected as int)
                && final(ui).status@ == "deleted "@ + old(ui).queue.entries@[old(ui).selected as int].job.id@
                && final(ui).selected == (if old(ui).selected >= final(ui).queue.entries@.len() && old(ui).selected > 0 {
                (old(ui).selected - 1) as usize
            } else {
                old(ui).selected
            })
        } else {
            r.1 is Nothing && *final(ui) == *old(ui)
        },
        code == Key::Char('p') ==> if old(ui).selected < old(ui).queue.entries@.len() {
            let i = old(ui).selected as int;
            r.1 is Save && final(ui).queue.entries@.len() == old(ui).queue.entries@.len()
                && (forall|j: int| 0 <= j < old(ui).queue.entries@.len() && j != i ==> final(ui).queue.entries@[j] == old(ui).queue.entries@[j])
                && final(ui).queue.entries@[i].job == old(ui).queue.entries@[i].job
                && final(ui).queue.entries@[i].status == JobStatus::Pending
                && final(ui).queue.entries@[i].message@ == Seq::<char>::empty()
                && final(ui).status@ == "pending "@ + old(ui).queue.entries@[i].job.id@
        } else {
            r.1 is Nothing && *final(ui) == *old(ui)
        },
        old(ui).running && code == Key::Char('x') ==> r.1 is CancelRun && final(ui).status@ == "cancelling…"@
            && final(ui).queue == old(ui).queue,
        old(ui).running && is_run_key(code) ==> r.1 is Nothing && *final(ui) == *old(ui),
        !old(ui).running && code == Key::Char('R') ==> r.1 is Reload && *final(ui) == *old(ui),
        !old(ui).running && code == Key::Char('r') ==> final(ui).queue == old(ui).queue && started(
            *final(ui),
            match first_pending(old(ui).queue.entries@) {
                Some(i) => seq![old(ui).queue.entries@[i].job],
                None => seq![],
            },
            r.1,
            "no pending jobs"@,
        ),
        !old(ui).running && code == Key::Char('a') ==> final(ui).queue == old(ui).queue && started(
            *final(ui),
            jobs_at(old(ui).queue.entries@, pending_indices(old(ui).queue.entries@)),
            r.1,
            "no pending jobs"@,
        ),
        !old(ui).running && code == Key::Enter ==> final(ui).queue == old(ui).queue && if old(ui).queue.entries@.len() == 0 {
            r.1 is Nothing && final(ui).status@ == "no job selected"@ && !final(ui).running
        } else {
            let i = if old(ui).selected < old(ui).queue.entries@.len() { old(ui).selected as int } else { 0 };
            started(*final(ui), seq![old(ui).queue.entries@[i].job], r.1, "no job selected"@)
        },
        !is_edit_key(code) && !is_run_key(code) && !(old(ui).running && code == Key::Char('x')) ==> r.1 is Nothing
            && *final(ui) == *old(ui),
{
    if is_run_key_exec(code) {
        if ui.running {
            (KeyOutcome::Continue, UiEffect::Nothing)
        } else {
            let e = run_key(code, ui);
            (KeyOutcome::Continue, e)
        }
    } else if ui.running && (code == Key::Char('q') || code == Key::Esc) {
        (KeyOutcome::Quit, UiEffect::CancelRun)
    } else if ui.running && code == Key::Char('x') {
        ui.status = str_string("cancelling…");
        (KeyOutcome::Continue, UiEffect::CancelRun)
    } else {
        edit_key_queue(code, ui)
    }
}

fn is_run_key_exec(code: Key) -> (b: bool)
    ensures
        b == is_run_key(code),
{
    code == Key::Char('r') || code == Key::Char('a') || code == Key::Enter || code == Key::Char('R')
}

/// The focused field of `f`.
pub open spec fn focus(f: NewJobForm) -> FormField {
    FORM_FIELDS[(f.field_i % 8) as int]
}

/// `t` after a keystroke while editing: Backspace drops the last character, a
/// character typed without Ctrl or Alt is appended, other keys leave it.
pub open spec fn edit_text(t: Seq<char>, code: Key, ctrl: bool, alt: bool) -> Seq<char> {
    match code {
        Key::Backspace => if t.len() > 0 { t.drop_last() } else { t },
        Key::Char(c) => if ctrl || alt { t } else { t.push(c) },
        _ => t,
    }
}

/// The text field `field` after the keystroke: edited when it has the focus,
/// unchanged otherwise.
pub open spec fn text_edited(
    focused: FormField,
    field: FormField,
    before: String,
    after: String,
    code: Key,
    ctrl: bool,
    alt: bool,
) -> bool {
    if focused == field {
        after@ == edit_text(before@, code, ctrl, alt)
    } else {
        after == before
    }
}

/// `after` is `before` with its focused text field edited by the keystroke.
pub open spec fn form_edited(before: NewJobForm, after: NewJobForm, code: Key, ctrl: bool, alt: bool) -> bool {
    let k = focus(before);
    &&& after.field_i == before.field_i
    &&& after.effect_i == before.effect_i
    &&& after.dry_run == before.dry_run
    &&& after.editing == before.editing
    &&& after.video_dir == before.video_dir
    &&& text_edited(k, FormField::Duration, before.duration, after.duration, code, ctrl, alt)
    &&& text_edited(k, FormField::Width, before.width, after.width, code, ctrl, alt)
    &&& text_edited(k, FormField::Height, before.height, after.height, code, ctrl, alt)
    &&& text_edited(k, FormField::Fps, before.fps, after.fps, code, ctrl, alt)
    &&& text_edited(k, FormField::Crf, before.crf, after.crf, code, ctrl, alt)
    &&& text_edited(k, FormField::Output, before.output, after.output, code, ctrl, alt)
}

/// `after` is `before` with the effect moved `dir` steps (wrapping) and a fresh
/// default output path for it.
pub open spec fn form_cycled(before: NewJobForm, after: NewJobForm, dir: int) -> bool {
    &&& after.effect_i == wrap((before.effect_i as i32) + dir, 10)
    &&& exists|stamp: nat|
        after.output@ == output_path_spec(before.video_dir@, EFFECTS[after.effect_i as int]@, stamp)
    &&& after == (NewJobForm { effect_i: after.effect_i, output: after.output, ..before })
}

/// `after` is `before` with the focus moved `dir` fields (wrapping), not editing.
pub open spec fn form_moved(before: NewJobForm, after: NewJobForm, dir: int) -> bool {
    after == (NewJobForm { field_i: wrap((before.field_i as i32) + dir, 8) as usize, editing: false, ..before })
}

/// `after` is `before` with the dry-run switch flipped.
pub open spec fn form_toggled(before: NewJobForm, after: NewJobForm) -> bool {
    after == (NewJobForm { dry_run: !before.dry_run, ..before })
}

/// `after` is `before` as changed by Left/Right (`dir` -1 or 1) or, on the
/// switch, Space: the effect cycles, the dry-run switch flips, other fields stay.
pub open spec fn form_adjusted(before: NewJobForm, after: NewJobForm, dir: int) -> bool {
    match focus(before) {
        FormField::Effect => form_cycled(before, after, dir),
        FormField::DryRun => form_toggled(before, after),
        _ => after == before,
    }
}

/// A step and the step back cancel out on the form: cycling the effect by `d` and
/// then by `-d` restores the effect, and moving the focus by `d` and then by `-d`
/// (outside editing) restores the whole form.
pub proof fn law_step_back_restores(f0: NewJobForm, f1: NewJobForm, f2: NewJobForm, d: i32)
    ensures
        f0.effect_i < 10 && form_cycled(f0, f1, d as int) && form_cycled(f1, f2, -(d as int))
            ==> f2.effect_i == f0.effect_i,
        f0.field_i < 8 && !f0.editing && form_moved(f0, f1, d as int) && form_moved(f1, f2, -(d as int))
            ==> f2 == f0,
{
    if f0.effect_i < 10 && form_cycled(f0, f1, d as int) && form_cycled(f1, f2, -(d as int)) {
        let i = f0.effect_i as int;
        lemma_wrap_back(i, d as int, 10);
        assert(0 <= wrap(i + d, 10) < 10);
        assert(f1.effect_i as int == wrap(i + d, 10));
        assert((f1.effect_i as i32) as int == f1.effect_i as int);
    }
    if f0.field_i < 8 && !f0.editing && form_moved(f0, f1, d as int) && form_moved(f1, f2, -(d as int)) {
        let i = f0.field_i as int;
        lemma_wrap_back(i, d as int, 8);
        assert(0 <= wrap(i + d, 8) < 8);
        assert(f1.field_i as int == wrap(i + d, 8));
        assert((f1.field_i as i32) as int == f1.field_i as int);
        assert(f2.field_i == f0.field_i);
    }
}

fn flip_dry_run(form: &mut NewJobForm)
    ensures
        form_toggled(*old(form), *final(form)),
{
    form.dry_run = !form.dry_run;
}

fn cycle(form: &mut NewJobForm, dir: i32)
    requires
        i32::MIN <= (old(form).effect_i as i32) + dir <= i32::MAX,
    ensures
        form_cycled(*old(form), *final(form), dir as int),
{
    form.cycle_effect(dir);
}

fn adjust(form: &mut NewJobForm, dir: i32)
    requires
        focus(*old(form)) == FormField::Effect ==> i32::MIN <= (old(form).effect_i as i32) + dir <= i32::MAX,
    ensures
        form_adjusted(*old(form), *final(form), dir as int),
{
    match form.field() {
        FormField::Effect => cycle(form, dir),
        FormField::DryRun => flip_dry_run(form),
        _ => {},
    }
}

fn move_focus(form: &mut NewJobForm, dir: i32)
    requires
        i32::MIN <= (old(form).field_i as i32) + dir <= i32::MAX,
    ensures
        form_moved(*old(form), *final(form), dir as int),
{
    form.next_field(dir);
}

/// A keystroke while a text field is being edited.
fn edit_key(code: Key, ctrl: bool, alt: bool, form: &mut NewJobForm, ui: &mut Ui)
    requires
        old(form).editing,
    ensures
        (code == Key::Esc || code == Key::Enter) ==> *final(form) == (NewJobForm { editing: false, ..*old(form) })
            && final(ui).status@ == (if code == Key::Esc { "edit cancelled"@ } else { "field set"@ })
            && *final(ui) == (Ui { status: final(ui).status, ..*old(ui) }),
        !(code == Key::Esc || code == Key::Enter) ==> form_edited(*old(form), *final(form), code, ctrl, alt)
            && *final(ui) == *old(ui),
{
    match code {
        Key::Esc => {
            form.editing = false;
            ui.status = str_string("edit cancelled");
        },
        Key::Enter => {
            form.editing = false;
            ui.status = str_string("field set");
        },
        Key::Backspace => {
            match form.text_mut() {
                Some(t) => {
                    pop_char(t);
                },
                None => {},
            }
        },
        Key::Char(c) => {
            if !ctrl && !alt {
                match form.text_mut() {
                    Some(t) => push_char(t, c),
                    None => {},
                }
            }
        },
        _ => {},
    }
}

/// The status line after enqueueing job `id`.
pub open spec fn enqueued_status(id: Seq<char>) -> Seq<char> {
    "enqueued "@ + id
}

/// Handle a key on the new-job form. While a text field is edited, keys edit it
/// (Esc or Enter ends editing). Otherwise Tab/j/Down and BackTab/k/Up move the
/// focus, Left/h and Right/l cycle the effect or flip dry-run, Space flips
/// dry-run, Enter cycles, flips or starts editing, `s` enqueues the job the form
/// describes (the caller then saves), and Esc/`q` go back to the queue.
pub fn form_key(code: Key, ctrl: bool, alt: bool, form: &mut NewJobForm, ui: &mut Ui) -> (e: UiEffect)
    requires
        !old(form).editing && (code == Key::Tab || code == Key::Down || code == Key::Char('j')) ==> (
        old(form).field_i as i32) < i32::MAX,
        !old(form).editing && (code == Key::BackTab || code == Key::Up || code == Key::Char('k')) ==> (
        old(form).field_i as i32) > i32::MIN,
        !old(form).editing && focus(*old(form)) == FormField::Effect && (code == Key::Right || code
            == Key::Char('l') || code == Key::Enter) ==> (old(form).effect_i as i32) < i32::MAX,
        !old(form).editing && focus(*old(form)) == FormField::Effect && (code == Key::Left || code
            == Key::Char('h')) ==> (old(form).effect_i as i32) > i32::MIN,
    ensures
        final(ui).selected == old(ui).selected,
        final(ui).running == old(ui).running,
        ids_distinct(old(ui).queue.entries@) ==> ids_distinct(final(ui).queue.entries@),
        !(e is SaveEnqueued) ==> final(ui).queue == old(ui).queue,
        old(form).editing ==> e is Nothing && final(ui).screen == old(ui).screen && if code == Key::Esc
            || code == Key::Enter {
            *final(form) == (NewJobForm { editing: false, ..*old(form) }) && final(ui).status@ == (if code
                == Key::Esc {
                "edit cancelled"@
            } else {
                "field set"@
            })
        } else {
            form_edited(*old(form), *final(form), code, ctrl, alt) && final(ui).status == old(ui).status
        },
        !old(form).editing && (code == Key::Esc || code == Key::Char('q')) ==> e is Nothing
            && *final(form) == *old(form) && final(ui).screen == Screen::Queue && final(ui).status@
            == "cancelled new job"@,
        !old(form).editing && (code == Key::Tab || code == Key::Down || code == Key::Char('j')) ==> e is Nothing
            && form_moved(*old(form), *final(form), 1) && final(ui).screen == old(ui).screen
            && final(ui).status == old(ui).status,
        !old(form).editing && (code == Key::BackTab || code == Key::Up || code == Key::Char('k')) ==> e is Nothing
            && form_moved(*old(form), *final(form), -1) && final(ui).screen == old(ui).screen
            && final(ui).status == old(ui).status,
        !old(form).editing && (code == Key::Left || code == Key::Char('h')) ==> e is Nothing
            && form_adjusted(*old(form), *final(form), -1) && final(ui).screen == old(ui).screen
            && final(ui).status == old(ui).status,
        !old(form).editing && (code == Key::Right || code == Key::Char('l')) ==> e is Nothing
            && form_adjusted(*old(form), *final(form), 1) && final(ui).screen == old(ui).screen
            && final(ui).status == old(ui).status,
        !old(form).editing && code == Key::Char(' ') ==> e is Nothing && (if focus(*old(form))
            == FormField::DryRun {
            form_toggled(*old(form), *final(form))
        } else {
            *final(form) == *old(form)
        }) && final(ui).screen == old(ui).screen && final(ui).status == old(ui).status,
        !old(form).editing && code == Key::Enter ==> e is Nothing && final(ui).screen == old(ui).screen && match focus(*old(form)) {
            FormField::Effect => form_cycled(*old(form), *final(form), 1) && final(ui).status == old(ui).status,
            FormField::DryRun => form_toggled(*old(form), *final(form)) && final(ui).status == old(ui).status,
            _ => *final(form) == (NewJobForm { editing: true, ..*old(form) }) && final(ui).status@
                == "editing — type, Enter done, Esc cancel"@,
        },
        !old(form).editing && (code == Key::Char('s') || code == Key::Char('S')) ==> *final(form) == *old(form)
            && final(ui).screen == old(ui).screen && match old(form).form_error() {
            Some(m) => e is Nothing && final(ui).status@ == m,
            None => e matches UiEffect::SaveEnqueued(id) && final(ui).status == old(ui).status
                && final(ui).queue.entries@.drop_last() == old(ui).queue.entries@
                && final(ui).queue.entries@.len() == old(ui).queue.entries@.len() + 1
                && final(ui).queue.entries@.last().job.id == id
                && old(form).describes(final(ui).queue.entries@.last().job.spec)
                && final(ui).queue.entries@.last().status == JobStatus::Pending
                && final(ui).queue.entries@.last().message@ == Seq::<char>::empty()
                && exists|n: nat| n >= old(ui).queue.entries@.len() + 1 && id@ == job_id(n)
                    && !id_taken(old(ui).queue.entries@, job_id(n)),
        },
        !old(form).editing && !(code == Key::Esc || code == Key::Char('q') || code == Key::Tab
            || code == Key::Down || code == Key::Char('j') || code == Key::BackTab || code == Key::Up
            || code == Key::Char('k') || code == Key::Left || code == Key::Char('h') || code == Key::Right
            || code == Key::Char('l') || code == Key::Char(' ') || code == Key::Enter || code == Key::Char('s')
            || code == Key::Char('S')) ==> e is Nothing && *final(form) == *old(form) && *final(ui) == *old(ui),
{
    if form.editing {
        edit_key(code, ctrl, alt, form, ui);
        return UiEffect::Nothing;
    }
    match code {
        Key::Esc | Key::Char('q') => {
            ui.screen = Screen::Queue;
            ui.status = str_string("cancelled new job");
            UiEffect::Nothing
        },
        Key::Tab | Key::Down | Key::Char('j') => {
            move_focus(form, 1);
            UiEffect::Nothing
        },
        Key::BackTab | Key::Up | Key::Char('k') => {
            move_focus(form, -1);
            UiEffect::Nothing
        },
        Key::Left | Key::Char('h') => {
            adjust(form, -1);
            UiEffect::Nothing
        },
        Key::Right | Key::Char('l') => {
            adjust(form, 1);
            UiEffect::Nothing
        },
        Key::Char(' ') => {
            if form.field() == FormField::DryRun {
                flip_dry_run(form);
            }
            UiEffect::Nothing
        },
        Key::Enter => {
            match form.field() {
                FormField::Effect => cycle(form, 1),
                FormField::DryRun => flip_dry_run(form),
                _ => {
                    form.editing = true;
                    ui.status = str_string("editing — type, Enter done, Esc cancel");
                },
            }
            UiEffect::Nothing
        },
        Key::Char('s') | Key::Char('S') => {
            match form.to_job_spec() {
                Ok(spec) => {
                    let id = ui.queue.next_id();
                    let returned = id.clone();
                    let ghost before = ui.queue.entries@;
                    ui.queue.enqueue(StudioJob::new(id, spec));
                    proof {
                        assert(ui.queue.entries@ == before.push(ui.queue.entries@.last()));
                        if ids_distinct(before) {
                            law_ids_stay_distinct(before, ui.queue.entries@.last(), 0);
                        }
                    }
                    UiEffect::SaveEnqueued(returned)
                },
                Err(m) => {
                    ui.status = m;
                    UiEffect::Nothing
                },
            }
        },
        _ => UiEffect::Nothing,
    }
}

impl Ui {
    /// The state when the Director opens on `queue`, with `status` shown.
    pub fn new(queue: JobQueue, status: String) -> (u: Ui)
        ensures
            u.queue == queue,
            u.status == status,
            u.screen == Screen::Queue,
            u.selected == 0,
            !u.running,
    {
        Ui { queue, screen: Screen::Queue, selected: 0, status, running: false }
    }

    /// Keep the selection on an entry: past the end of a non-empty queue it moves to
    /// the last entry; otherwise it stays.
    pub fn clamp_selection(&mut self)
        ensures
            final(self).selected == (if old(self).selected >= old(self).queue.entries@.len()
                && old(self).queue.entries@.len() > 0 {
                (old(self).queue.entries@.len() - 1) as usize
            } else {
                old(self).selected
            }),
            final(self).queue == old(self).queue,
            final(self).screen == old(self).screen,
            final(self).status == old(self).status,
            final(self).running == old(self).running,
    {
        let n = self.queue.entries.len();
        if self.selected >= n && n > 0 {
            self.selected = n - 1;
        }
    }

    /// Apply the outcome of the reload that `R` asked for.
    pub fn reload_done(&mut self, loaded: Result<JobQueue, String>)
        ensures
            match loaded {
                Ok(q) => final(self).queue == q && final(self).status@ == "reloaded"@,
                Err(m) => final(self).queue == old(self).queue && final(self).status@ == "reload failed: "@ + m@,
            },
            final(self).screen == old(self).screen,
            final(self).selected == old(self).selected,
            final(self).running == old(self).running,
    {
        match loaded {
            Ok(q) => {
                self.queue = q;
                self.status = str_string("reloaded");
            },
            Err(m) => {
                let mut s = str_string("reload failed: ");
                s.append(m.as_str());
                self.status = s;
            },
        }
    }

    /// Apply the outcome of saving the queue after job `id` was enqueued: on
    /// success select the last entry and go back to the queue screen.
    pub fn enqueue_saved(&mut self, id: &str, saved: Result<(), String>)
        ensures
            final(self).queue == old(self).queue,
            final(self).running == old(self).running,
            match saved {
                Ok(()) => final(self).selected == (if old(self).queue.entries@.len() == 0 {
                    0
                } else {
                    old(self).queue.entries@.len() - 1
                }) && final(self).screen == Screen::Queue && final(self).status@ == enqueued_status(id@),
                Err(m) => final(self).selected == old(self).selected && final(self).screen == old(self).screen
                    && final(self).status@ == "save failed: "@ + m@,
            },
    {
        match saved {
            Ok(()) => {
                let n = self.queue.entries.len();
                self.selected = if n == 0 { 0 } else { n - 1 };
                self.screen = Screen::Queue;
                let mut s = str_string("enqueued ");
                s.append(id);
                self.status = s;
            },
            Err(m) => {
                let mut s = str_string("save failed: ");
                s.append(m.as_str());
                self.status = s;
            },
        }
    }
}

} // verus!
