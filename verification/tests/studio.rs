use idle_render::error::StudioError;
use idle_render::job_spec::JobSpec;
use idle_render::studio::job::StudioJob;
use idle_render::studio::queue::{queue_path_from, JobQueue, JobStatus, QueueEntry};
use idle_render::studio::runner::{choose_render_bin, keep_tail, run_outcome, OUTPUT_TAIL_CAP, RENDER_BUILD_PATHS};
use idle_render::studio::tui::actions::{apply_run_event, begin_run_at, finish_run_at, selected_pending_or_any, RunEvent};
use idle_render::studio::tui::form::{video_dir_from, default_output_path, FormField, NewJobForm, Screen, EFFECTS};
use idle_render::studio::tui::keys::{form_key, queue_key, Key, KeyOutcome, Ui, UiEffect};
use idle_render::studio::tui::view::{detail_text_of, form_lines_text, queue_rows_text};
use idle_render::studio::tui::worker::{worker_step, RunPlan, WorkerAction, WorkerInput};

fn spec() -> JobSpec {
    JobSpec {
        effect: "beams".into(),
        plugin_path: None,
        seed: 1,
        fps: 30,
        duration: "1s".into(),
        output: "/tmp/x.mkv".into(),
        width: 64,
        height: 64,
        cols: None,
        rows: None,
        dry_run: true,
        raw: false,
        segment: None,
        audio: None,
        resume: false,
        crf: 35,
        preset: None,
        encoder: None,
        prefer_hw: true,
        gpu_upscale: true,
        format: None,
        container: None,
        baseline_dir: None,
        snapshot_last_only: false,
        update_baselines: false,
        cpu_raster: false,
    }
}

fn queue_of(ids: &[(&str, JobStatus)]) -> JobQueue {
    let mut q = JobQueue::default();
    for (id, st) in ids {
        q.enqueue(StudioJob::new((*id).into(), spec()));
        q.entries.last_mut().unwrap().status = *st;
    }
    q
}

fn ui_of(q: JobQueue) -> Ui {
    Ui::new(q, "queue: q.json".into())
}

#[test]
fn next_id_skips_existing_after_delete() {
    let mut q = JobQueue::default();
    q.enqueue(StudioJob::new("job-1".into(), spec()));
    q.enqueue(StudioJob::new("job-2".into(), spec()));
    q.enqueue(StudioJob::new("job-3".into(), spec()));
    q.entries.remove(1);
    assert_eq!(q.next_id(), "job-4");
}

#[test]
fn next_id_never_reuses_after_deletes() {
    let mut q = JobQueue::default();
    assert_eq!(q.next_id(), "job-1");
    for _ in 0..4 {
        let id = q.next_id();
        q.enqueue(StudioJob::new(id, spec()));
    }
    q.entries.remove(0);
    q.entries.remove(0);
    let fresh = q.next_id();
    assert!(q.entries.iter().all(|e| e.job.id != fresh));
    assert_eq!(fresh, "job-5");
}

#[test]
fn reader_caps_output_at_tail() {
    let big = vec![b'x'; OUTPUT_TAIL_CAP * 3];
    let mut buf = Vec::new();
    keep_tail(&mut buf, &big);
    assert_eq!(buf.len(), OUTPUT_TAIL_CAP);
}

#[test]
fn capping_per_chunk_keeps_the_tail_of_everything() {
    let all: Vec<u8> = (0..(OUTPUT_TAIL_CAP * 2 + 77)).map(|i| (i % 251) as u8).collect();
    let mut buf = Vec::new();
    for chunk in all.chunks(8191) {
        keep_tail(&mut buf, chunk);
    }
    assert_eq!(buf.as_slice(), &all[all.len() - OUTPUT_TAIL_CAP..]);
    let mut small = Vec::new();
    keep_tail(&mut small, b"abc");
    keep_tail(&mut small, b"de");
    assert_eq!(small, b"abcde");
}

#[test]
fn tui_default_form_has_official_effect() {
    let f = NewJobForm::default();
    assert!(EFFECTS.contains(&f.effect()));
    assert!(f.output.contains("idlescreen-"));
    assert!(f.output.ends_with(".mkv"));
}

#[test]
fn form_default_form_has_official_effect() {
    let f = NewJobForm::default();
    assert!(EFFECTS.contains(&f.effect()));
    assert!(f.output.contains("idlescreen-"));
    assert!(f.output.ends_with(".mkv"));
}

#[test]
fn tui_cycle_effect_wraps() {
    let mut f = NewJobForm::default();
    for _ in 0..EFFECTS.len() + 2 {
        f.cycle_effect(1);
    }
    assert!(EFFECTS.contains(&f.effect()));
}

#[test]
fn form_cycle_effect_wraps() {
    let mut f = NewJobForm::default();
    for _ in 0..EFFECTS.len() + 2 {
        f.cycle_effect(1);
    }
    assert!(EFFECTS.contains(&f.effect()));
    assert_eq!(f.effect(), "chaos");
    f.cycle_effect(-3);
    assert_eq!(f.effect(), "storm");
    assert!(f.output.contains("idlescreen-storm-"));
}

#[test]
fn tui_to_job_spec_parses() {
    let f = NewJobForm::default();
    let s = f.to_job_spec().expect("spec");
    assert_eq!(s.effect, "beams");
    assert_eq!(s.width, 1280);
    assert_eq!(s.fps, 30);
}

#[test]
fn form_to_job_spec_parses() {
    let f = NewJobForm::default();
    let s = f.to_job_spec().expect("spec");
    assert_eq!(s.effect, "beams");
    assert_eq!(s.width, 1280);
    assert_eq!(s.fps, 30);
    assert_eq!(s.height, 720);
    assert_eq!(s.crf, 35);
    assert_eq!(s.seed, 0x00C0_FFEE);
    assert_eq!(s.duration, "10s");
    assert!(s.prefer_hw && !s.gpu_upscale);
}

#[test]
fn form_errors_in_order() {
    let mut f = NewJobForm::new("/v".into());
    f.width = "wide".into();
    f.fps = "x".into();
    assert_eq!(f.to_job_spec().unwrap_err(), "width must be a number");
    f.width = " 640 ".into();
    assert_eq!(f.to_job_spec().unwrap_err(), "fps must be a number");
    f.fps = "24".into();
    f.crf = "300".into();
    assert_eq!(f.to_job_spec().unwrap_err(), "crf must be 0–63");
    f.crf = "64".into();
    assert_eq!(f.to_job_spec().unwrap_err(), "crf must be 0–63");
    f.crf = "63".into();
    assert_eq!(f.to_job_spec().unwrap().crf, 63);
    f.crf = "20".into();
    f.height = "0".into();
    assert_eq!(f.to_job_spec().unwrap_err(), "width, height, and fps must be > 0");
    f.height = "480".into();
    f.output = "   ".into();
    assert_eq!(f.to_job_spec().unwrap_err(), "output path required");
    f.output = " /tmp/a.mkv ".into();
    let s = f.to_job_spec().unwrap();
    assert_eq!((s.width, s.height, s.fps, s.crf), (640, 480, 24, 20));
    assert_eq!(s.output, "/tmp/a.mkv");
}

#[test]
fn default_output_path_layout() {
    assert_eq!(default_output_path("/home/u/Videos", "ripple", 1700000000), "/home/u/Videos/idlescreen-ripple-1700000000.mkv");
}

#[test]
fn form_focus_wraps() {
    let mut f = NewJobForm::new("/v".into());
    assert_eq!(f.field(), FormField::Effect);
    f.next_field(-1);
    assert_eq!(f.field(), FormField::DryRun);
    f.next_field(2);
    assert_eq!(f.field(), FormField::Duration);
    assert!(f.text_mut().is_some());
}

#[test]
fn selection_falls_back_to_first() {
    let q = queue_of(&[("a", JobStatus::Done), ("b", JobStatus::Pending)]);
    assert_eq!(selected_pending_or_any(&q, 1), Some(1));
    assert_eq!(selected_pending_or_any(&q, 9), Some(0));
    assert_eq!(selected_pending_or_any(&JobQueue::default(), 0), None);
}

#[test]
fn queue_keys_navigate_and_quit() {
    let mut ui = ui_of(queue_of(&[("a", JobStatus::Pending), ("b", JobStatus::Pending)]));
    let (o, e) = queue_key(Key::Down, &mut ui);
    assert!(matches!((o, e), (KeyOutcome::Continue, UiEffect::Nothing)));
    assert_eq!(ui.selected, 1);
    queue_key(Key::Char('j'), &mut ui);
    assert_eq!(ui.selected, 1);
    queue_key(Key::Up, &mut ui);
    queue_key(Key::Char('k'), &mut ui);
    assert_eq!(ui.selected, 0);
    assert!(matches!(queue_key(Key::Char('q'), &mut ui).0, KeyOutcome::Quit));
    assert!(matches!(queue_key(Key::Esc, &mut ui).0, KeyOutcome::Quit));
}

#[test]
fn queue_keys_start_runs() {
    let mut ui = ui_of(queue_of(&[("a", JobStatus::Done), ("b", JobStatus::Pending), ("c", JobStatus::Pending)]));
    match queue_key(Key::Char('r'), &mut ui).1 {
        UiEffect::Start(jobs) => {
            assert_eq!(jobs.len(), 1);
            assert_eq!(jobs[0].id, "b");
        }
        other => panic!("unexpected {other:?}"),
    }
    assert!(ui.running);
    assert_eq!(ui.status, "running 1 job(s) — x cancels");
    // While running, new runs and reloads wait, the queue stays editable, x cancels.
    assert!(matches!(queue_key(Key::Char('a'), &mut ui).1, UiEffect::Nothing));
    assert!(matches!(queue_key(Key::Char('R'), &mut ui).1, UiEffect::Nothing));
    assert!(matches!(queue_key(Key::Char('d'), &mut ui).1, UiEffect::Save));
    assert_eq!(ui.status, "deleted a");
    assert_eq!(ui.queue.entries.len(), 2);
    assert!(ui.running);
    assert!(matches!(queue_key(Key::Char('x'), &mut ui).1, UiEffect::CancelRun));
    assert!(matches!(queue_key(Key::Char('q'), &mut ui), (KeyOutcome::Quit, UiEffect::CancelRun)));
    assert_eq!(ui.status, "cancelling…");

    let mut ui = ui_of(queue_of(&[("a", JobStatus::Pending), ("b", JobStatus::Failed), ("c", JobStatus::Pending)]));
    match queue_key(Key::Char('a'), &mut ui).1 {
        UiEffect::Start(jobs) => {
            let ids: Vec<&str> = jobs.iter().map(|j| j.id.as_str()).collect();
            assert_eq!(ids, vec!["a", "c"]);
        }
        other => panic!("unexpected {other:?}"),
    }
    assert_eq!(ui.status, "running 2 job(s) — x cancels");

    let mut ui = ui_of(queue_of(&[("a", JobStatus::Done)]));
    assert!(matches!(queue_key(Key::Char('r'), &mut ui).1, UiEffect::Nothing));
    assert_eq!(ui.status, "no pending jobs");
    assert!(!ui.running);
    ui.selected = 5;
    match queue_key(Key::Enter, &mut ui).1 {
        UiEffect::Start(jobs) => assert_eq!(jobs[0].id, "a"),
        other => panic!("unexpected {other:?}"),
    }

    let mut empty = ui_of(JobQueue::default());
    assert!(matches!(queue_key(Key::Enter, &mut empty).1, UiEffect::Nothing));
    assert_eq!(empty.status, "no job selected");
}

#[test]
fn queue_keys_edit_the_queue() {
    let mut ui = ui_of(queue_of(&[("a", JobStatus::Done), ("b", JobStatus::Failed)]));
    ui.selected = 1;
    assert!(matches!(queue_key(Key::Char('p'), &mut ui).1, UiEffect::Save));
    assert_eq!(ui.queue.entries[1].status, JobStatus::Pending);
    assert_eq!(ui.status, "pending b");
    assert!(matches!(queue_key(Key::Delete, &mut ui).1, UiEffect::Save));
    assert_eq!(ui.status, "deleted b");
    assert_eq!(ui.selected, 0);
    assert_eq!(ui.queue.entries.len(), 1);
    assert!(matches!(queue_key(Key::Char('R'), &mut ui).1, UiEffect::Reload));
    ui.reload_done(Err("bad json".into()));
    assert_eq!(ui.status, "reload failed: bad json");
    ui.reload_done(Ok(JobQueue::default()));
    assert_eq!(ui.status, "reloaded");
    assert!(ui.queue.entries.is_empty());
    assert!(matches!(queue_key(Key::Char('n'), &mut ui).1, UiEffect::OpenForm));
    assert_eq!(ui.screen, Screen::NewJob);
}

#[test]
fn form_keys_edit_and_enqueue() {
    let mut ui = ui_of(queue_of(&[("job-1", JobStatus::Done)]));
    ui.screen = Screen::NewJob;
    let mut f = NewJobForm::new("/v".into());
    form_key(Key::Tab, false, false, &mut f, &mut ui);
    assert_eq!(f.field(), FormField::Duration);
    form_key(Key::Enter, false, false, &mut f, &mut ui);
    assert!(f.editing);
    assert_eq!(ui.status, "editing — type, Enter done, Esc cancel");
    form_key(Key::Backspace, false, false, &mut f, &mut ui);
    form_key(Key::Backspace, false, false, &mut f, &mut ui);
    form_key(Key::Char('5'), false, false, &mut f, &mut ui);
    form_key(Key::Char('m'), true, false, &mut f, &mut ui);
    form_key(Key::Char('m'), false, false, &mut f, &mut ui);
    assert_eq!(f.duration, "15m");
    form_key(Key::Enter, false, false, &mut f, &mut ui);
    assert!(!f.editing);
    assert_eq!(ui.status, "field set");
    form_key(Key::BackTab, false, false, &mut f, &mut ui);
    form_key(Key::Right, false, false, &mut f, &mut ui);
    assert_eq!(f.effect(), "bursts");
    form_key(Key::Up, false, false, &mut f, &mut ui);
    assert_eq!(f.field(), FormField::DryRun);
    form_key(Key::Char(' '), false, false, &mut f, &mut ui);
    assert!(f.dry_run);
    form_key(Key::Char('h'), false, false, &mut f, &mut ui);
    assert!(!f.dry_run);
    match form_key(Key::Char('s'), false, false, &mut f, &mut ui) {
        UiEffect::SaveEnqueued(id) => {
            assert_eq!(id, "job-2");
            ui.enqueue_saved(&id, Ok(()));
        }
        other => panic!("unexpected {other:?}"),
    }
    assert_eq!(ui.queue.entries.len(), 2);
    assert_eq!(ui.queue.entries[1].job.spec.duration, "15m");
    assert_eq!(ui.queue.entries[1].job.spec.effect, "bursts");
    assert_eq!(ui.queue.entries[1].status, JobStatus::Pending);
    assert_eq!(ui.selected, 1);
    assert_eq!(ui.screen, Screen::Queue);
    assert_eq!(ui.status, "enqueued job-2");
}

#[test]
fn form_keys_report_problems_and_cancel() {
    let mut ui = ui_of(JobQueue::default());
    ui.screen = Screen::NewJob;
    let mut f = NewJobForm::new("/v".into());
    f.fps = "fast".into();
    assert!(matches!(form_key(Key::Char('S'), false, false, &mut f, &mut ui), UiEffect::Nothing));
    assert_eq!(ui.status, "fps must be a number");
    assert!(ui.queue.entries.is_empty());
    f.editing = true;
    form_key(Key::Esc, false, false, &mut f, &mut ui);
    assert_eq!(ui.status, "edit cancelled");
    assert_eq!(ui.screen, Screen::NewJob);
    form_key(Key::Char('q'), false, false, &mut f, &mut ui);
    assert_eq!(ui.screen, Screen::Queue);
    assert_eq!(ui.status, "cancelled new job");
    ui.enqueue_saved("job-9", Err("disk full".into()));
    assert_eq!(ui.status, "save failed: disk full");
}

#[test]
fn run_events_update_the_queue() {
    let mut q = queue_of(&[("a", JobStatus::Pending), ("b", JobStatus::Pending)]);
    assert_eq!(apply_run_event(&mut q, RunEvent::Started("b".into())), (None, true));
    assert_eq!(q.entries[1].status, JobStatus::Running);
    let long = "e".repeat(100);
    let (msg, saved) = apply_run_event(&mut q, RunEvent::Finished("b".into(), Err(long.clone())));
    assert!(saved);
    assert_eq!(msg.unwrap(), format!("failed b: {}", &long[..80]));
    assert_eq!(q.entries[1].status, JobStatus::Failed);
    assert_eq!(q.entries[1].message, long);
    let (msg, _) = apply_run_event(&mut q, RunEvent::Finished("a".into(), Ok("ok".into())));
    assert_eq!(msg.unwrap(), "done a");
    assert_eq!(q.entries[0].status, JobStatus::Done);
    let (msg, saved) = apply_run_event(&mut q, RunEvent::Finished("zz".into(), Ok("x".into())));
    assert!(!saved);
    assert_eq!(msg.unwrap(), "zz finished after being deleted");
    assert_eq!(apply_run_event(&mut q, RunEvent::Started("zz".into())), (None, false));
    assert_eq!(apply_run_event(&mut q, RunEvent::AllDone), (Some("run finished".into()), false));
}

#[test]
fn blocking_runs_by_index() {
    let mut q = queue_of(&[("a", JobStatus::Pending)]);
    assert_eq!(begin_run_at(&mut q, 3).unwrap_err(), "bad index");
    let job = begin_run_at(&mut q, 0).unwrap();
    assert_eq!(job.id, "a");
    assert_eq!(q.entries[0].status, JobStatus::Running);
    assert_eq!(finish_run_at(&mut q, 0, "a", Err("render failed: boom".into())), "failed a: render failed: boom");
    assert_eq!(q.entries[0].status, JobStatus::Failed);
    assert_eq!(finish_run_at(&mut q, 0, "a", Ok("out".into())), "done a");
    assert_eq!(q.entries[0].message, "out");
}

#[test]
fn render_binary_lookup_order() {
    let env = vec![None, Some(("/nope".to_string(), false)), Some(("/opt/render".to_string(), true))];
    assert_eq!(choose_render_bin(&env, &vec![Some("/usr/bin/render\n".into())], &vec![true]).unwrap(), "/opt/render");
    let env: Vec<Option<(String, bool)>> = vec![None, None, None];
    let which = vec![Some("   \n".to_string()), Some("  /usr/bin/idle-render \n".to_string())];
    assert_eq!(choose_render_bin(&env, &which, &vec![true]).unwrap(), "/usr/bin/idle-render");
    let mut built = vec![false; RENDER_BUILD_PATHS.len()];
    built[3] = true;
    assert_eq!(choose_render_bin(&env, &vec![None, None], &built).unwrap(), "../target/debug/render");
    assert!(matches!(choose_render_bin(&env, &vec![None, None], &vec![false; 10]), Err(StudioError::RenderMissing)));
}

#[test]
fn finished_child_reports_output() {
    assert_eq!(run_outcome(true, "out ".into(), "err".into()).unwrap(), "out err");
    assert!(matches!(run_outcome(false, "o".into(), "e".into()), Err(StudioError::Render(m)) if m == "oe"));
}

#[test]
fn queue_path_choices() {
    assert_eq!(queue_path_from(Some("/x"), Some("/h")), "/x/idle-studio/queue.json");
    assert_eq!(queue_path_from(None, Some("/h")), "/h/.config/idle-studio/queue.json");
    assert_eq!(queue_path_from(None, None), "idle-studio-queue.json");
}

#[test]
fn queue_screen_text() {
    let mut q = queue_of(&[("job-1", JobStatus::Running), ("job-2", JobStatus::Failed)]);
    q.entries[1].message = "m".repeat(250);
    let rows = queue_rows_text(&q, 1);
    assert_eq!(rows[0], "  [RUN ] job-1  beams  64x64 @30fps  1s  → /tmp/x.mkv");
    assert_eq!(rows[1], "> [FAIL] job-2  beams  64x64 @30fps  1s  → /tmp/x.mkv");
    assert_eq!(queue_rows_text(&JobQueue::default(), 0), vec!["  (empty — press n to add a job)".to_string()]);
    let d = detail_text_of(&q, 1);
    assert_eq!(d, format!("id=job-2  status=Failed\neffect=beams  dry_run=true\n{}", "m".repeat(200)));
    assert_eq!(detail_text_of(&q, 0), "id=job-1  status=Running\neffect=beams  dry_run=true\n(no message)");
    assert_eq!(detail_text_of(&q, 7), "No selection");
    let _ = QueueEntry { job: StudioJob::new("z".into(), spec()), status: JobStatus::Done, message: String::new() };
}

#[test]
fn form_screen_text() {
    let mut f = NewJobForm::new("/v".into());
    f.field_i = 1;
    f.editing = true;
    let lines = form_lines_text(&f);
    assert_eq!(lines.len(), 8);
    assert_eq!(lines[0], ("  effect     beams  (h/l cycle)".to_string(), false));
    assert_eq!(lines[1], ("> duration   10s [edit]".to_string(), true));
    assert_eq!(lines[7], ("  dry_run    no".to_string(), false));
}

#[test]
fn step_and_back_restores_form() {
    let mut f = NewJobForm::new("/v".into());
    for start in 0..10 {
        f.effect_i = start;
        f.cycle_effect(1);
        f.cycle_effect(-1);
        assert_eq!(f.effect_i, start);
    }
    for start in 0..8 {
        f.field_i = start;
        f.next_field(-1);
        f.next_field(1);
        assert_eq!(f.field_i, start);
    }
}

#[test]
fn video_folder_choice() {
    assert_eq!(video_dir_from(Some("/home/u")), "/home/u/Videos");
    assert_eq!(video_dir_from(None), "/tmp");
}

#[test]
fn job_file_names() {
    let j = StudioJob::new("job-7".into(), spec());
    assert_eq!(j.job_file_name(), "idle-studio-job-7.json");
    assert_eq!(j.duplicate(), j);
}

#[test]
fn worker_runs_jobs_in_order_and_stops_on_cancel() {
    let jobs = vec![StudioJob::new("a".into(), spec()), StudioJob::new("b".into(), spec()), StudioJob::new("c".into(), spec())];
    let mut plan = RunPlan::new(jobs);
    match worker_step(&mut plan, WorkerInput::Ready) {
        WorkerAction::Start(j) => assert_eq!(j.id, "a"),
        other => panic!("unexpected {other:?}"),
    }
    match worker_step(&mut plan, WorkerInput::SpawnFailed("no binary".into())) {
        WorkerAction::Report(ev) => assert_eq!(ev, RunEvent::Finished("a".into(), Err("no binary".into()))),
        other => panic!("unexpected {other:?}"),
    }
    assert!(matches!(worker_step(&mut plan, WorkerInput::Ready), WorkerAction::Start(j) if j.id == "b"));
    assert!(matches!(worker_step(&mut plan, WorkerInput::Checked { cancelled: false, exit: None }), WorkerAction::Wait));
    match worker_step(&mut plan, WorkerInput::Checked { cancelled: false, exit: Some(Ok("out".into())) }) {
        WorkerAction::Report(ev) => assert_eq!(ev, RunEvent::Finished("b".into(), Ok("out".into()))),
        other => panic!("unexpected {other:?}"),
    }
    assert!(matches!(worker_step(&mut plan, WorkerInput::Ready), WorkerAction::Start(j) if j.id == "c"));
    match worker_step(&mut plan, WorkerInput::Checked { cancelled: true, exit: Some(Ok("late".into())) }) {
        WorkerAction::Cancel(ev) => assert_eq!(ev, RunEvent::Finished("c".into(), Err("cancelled".into()))),
        other => panic!("unexpected {other:?}"),
    }
    assert!(matches!(worker_step(&mut plan, WorkerInput::Ready), WorkerAction::Finish));
}

#[test]
fn cancel_drops_the_rest_of_the_run() {
    let jobs = vec![StudioJob::new("a".into(), spec()), StudioJob::new("b".into(), spec())];
    let mut plan = RunPlan::new(jobs);
    worker_step(&mut plan, WorkerInput::Ready);
    assert!(matches!(worker_step(&mut plan, WorkerInput::Checked { cancelled: true, exit: None }), WorkerAction::Cancel(_)));
    assert!(matches!(worker_step(&mut plan, WorkerInput::Ready), WorkerAction::Finish));
}

#[test]
fn selection_stays_on_an_entry() {
    let mut ui = ui_of(queue_of(&[("a", JobStatus::Pending), ("b", JobStatus::Pending)]));
    ui.selected = 7;
    ui.clamp_selection();
    assert_eq!(ui.selected, 1);
    let mut empty = ui_of(JobQueue::default());
    empty.selected = 3;
    empty.clamp_selection();
    assert_eq!(empty.selected, 3);
}
