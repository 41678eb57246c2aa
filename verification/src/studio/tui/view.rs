//! What the Director screens show, as text: the queue rows, the detail of the selected
//! job and the lines of the new-job form. Boxes, colours and layout are the caller's.
use vstd::prelude::*;
use crate::studio::queue::{JobQueue, JobStatus, QueueEntry};
use crate::studio::tui::form::{FormField, NewJobForm, EFFECTS, FORM_FIELDS};
use crate::text::{append_chars, chars_of, decimal, decimal_chars, str_string};

verus! {

/// Title of the queue screen.
pub const QUEUE_TITLE: &'static str = "IdleScreen Studio — Director (TUI)";

/// Key help on the queue screen; the status line follows it.
pub const QUEUE_HELP: &'static str =
    "n new  j/k move  Enter run  r next  a all  d del  p re-pend  R reload  q quit  | ";

/// The only row of an empty queue.
pub const EMPTY_QUEUE_ROW: &'static str = "  (empty — press n to add a job)";

/// Detail text when no entry is selected.
pub const NO_SELECTION: &'static str = "No selection";

/// Title of the new-job screen.
pub const FORM_TITLE: &'static str = "New export job";

/// Key help below the form's fields.
pub const FORM_HELP: &'static str =
    "Tab/j/k field  h/l effect or dry_run  Enter edit/toggle  s save to queue  Esc cancel";

/// Longest message shown in the detail box, in characters.
pub const DETAIL_MESSAGE_CAP: usize = 200;

/// Four-letter status tag of a queue row.
pub open spec fn status_tag(s: JobStatus) -> Seq<char> {
    match s {
        JobStatus::Pending => "PEND"@,
        JobStatus::Running => "RUN "@,
        JobStatus::Done => "DONE"@,
        JobStatus::Failed => "FAIL"@,
    }
}

/// Name of a status in the detail box.
pub open spec fn status_name(s: JobStatus) -> Seq<char> {
    match s {
        JobStatus::Pending => "Pending"@,
        JobStatus::Running => "Running"@,
        JobStatus::Done => "Done"@,
        JobStatus::Failed => "Failed"@,
    }
}

/// Row `i` of the queue list: a `>` on the selected row, the status tag, id,
/// effect, size, rate, duration and output.
pub open spec fn queue_row(e: QueueEntry, selected: bool) -> Seq<char> {
    (if selected { ">"@ } else { " "@ }) + " ["@ + status_tag(e.status) + "] "@ + e.job.id@ + "  "@
        + e.job.spec.effect@ + "  "@ + decimal(e.job.spec.width as nat) + "x"@ + decimal(
        e.job.spec.height as nat,
    ) + " @"@ + decimal(e.job.spec.fps as nat) + "fps  "@ + e.job.spec.duration@ + "  → "@
        + e.job.spec.output@
}

/// The rows of the queue list.
pub open spec fn queue_rows(entries: Seq<QueueEntry>, selected: int) -> Seq<Seq<char>> {
    if entries.len() == 0 {
        seq![EMPTY_QUEUE_ROW@]
    } else {
        Seq::new(entries.len(), |i: int| queue_row(entries[i], i == selected))
    }
}

/// `true` / `false`.
pub open spec fn bool_text(b: bool) -> Seq<char> {
    if b {
        "true"@
    } else {
        "false"@
    }
}

/// Detail box of the selected entry: id, status, effect, dry-run, then the last
/// message (its first 200 characters) or `(no message)`.
pub open spec fn detail_text(entries: Seq<QueueEntry>, selected: int) -> Seq<char> {
    if 0 <= selected < entries.len() {
        let e = entries[selected];
        let msg = if e.message@.len() == 0 {
            "(no message)"@
        } else {
            e.message@.take(if e.message@.len() < 200 { e.message@.len() as int } else { 200 })
        };
        "id="@ + e.job.id@ + "  status="@ + status_name(e.status) + "\neffect="@ + e.job.spec.effect@
            + "  dry_run="@ + bool_text(e.job.spec.dry_run) + "\n"@ + msg
    } else {
        NO_SELECTION@
    }
}

/// Label of a form field.
pub open spec fn field_label(f: FormField) -> Seq<char> {
    match f {
        FormField::Effect => "effect"@,
        FormField::Duration => "duration"@,
        FormField::Width => "width"@,
        FormField::Height => "height"@,
        FormField::Fps => "fps"@,
        FormField::Crf => "crf"@,
        FormField::Output => "output"@,
        FormField::DryRun => "dry_run"@,
    }
}

/// `s` padded with spaces on the right to `w` characters.
pub open spec fn pad_right(s: Seq<char>, w: nat) -> Seq<char> {
    if s.len() >= w {
        s
    } else {
        s + Seq::new((w - s.len()) as nat, |i: int| ' ')
    }
}

/// Value shown for a form field.
pub open spec fn field_value(form: NewJobForm, f: FormField) -> Seq<char> {
    match f {
        FormField::Effect => EFFECTS[(form.effect_i % 10) as int]@ + "  (h/l cycle)"@,
        FormField::Duration => form.duration@,
        FormField::Width => form.width@,
        FormField::Height => form.height@,
        FormField::Fps => form.fps@,
        FormField::Crf => form.crf@,
        FormField::Output => form.output@,
        FormField::DryRun => if form.dry_run { "yes"@ } else { "no"@ },
    }
}

/// Line `i` of the form: a `>` on the focused field, the label in a column of ten,
/// the value, and `[edit]` while the focused field is edited.
pub open spec fn form_line(form: NewJobForm, i: int) -> Seq<char> {
    let focus = i == form.field_i;
    (if focus { ">"@ } else { " "@ }) + " "@ + pad_right(field_label(FORM_FIELDS[i]), 10) + " "@
        + field_value(form, FORM_FIELDS[i]) + (if focus && form.editing { " [edit]"@ } else { ""@ })
}

fn status_tag_str(s: JobStatus) -> (r: &'static str)
    ensures
        r@ == status_tag(s),
{
    match s {
        JobStatus::Pending => "PEND",
        JobStatus::Running => "RUN ",
        JobStatus::Done => "DONE",
        JobStatus::Failed => "FAIL",
    }
}

fn status_name_str(s: JobStatus) -> (r: &'static str)
    ensures
        r@ == status_name(s),
{
    match s {
        JobStatus::Pending => "Pending",
        JobStatus::Running => "Running",
        JobStatus::Done => "Done",
        JobStatus::Failed => "Failed",
    }
}

fn append_number(s: &mut String, n: u32)
    ensures
        final(s)@ == old(s)@ + decimal(n as nat),
{
    append_chars(s, &decimal_chars(n as u64));
}

/// One row of the queue list.
pub fn queue_row_text(e: &QueueEntry, selected: bool) -> (r: String)
    ensures
        r@ == queue_row(*e, selected),
{
    let mut r = str_string(if selected { ">" } else { " " });
    r.append(" [");
    r.append(status_tag_str(e.status));
    r.append("] ");
    r.append(e.job.id.as_str());
    r.append("  ");
    r.append(e.job.spec.effect.as_str());
    r.append("  ");
    append_number(&mut r, e.job.spec.width);
    r.append("x");
    append_number(&mut r, e.job.spec.height);
    r.append(" @");
    append_number(&mut r, e.job.spec.fps);
    r.append("fps  ");
    r.append(e.job.spec.duration.as_str());
    r.append("  → ");
    r.append(e.job.spec.output.as_str());
    r
}

/// The rows of the queue list, `selected` marked.
pub fn queue_rows_text(queue: &JobQueue, selected: usize) -> (r: Vec<String>)
    ensures
        r@.len() == queue_rows(queue.entries@, selected as int).len(),
        forall|i: int| 0 <= i < r@.len() ==> #[trigger] r@[i]@ == queue_rows(queue.entries@, selected as int)[i],
{
    let mut r: Vec<String> = Vec::new();
    if queue.entries.len() == 0 {
        r.push(str_string(EMPTY_QUEUE_ROW));
        return r;
    }
    let mut i: usize = 0;
    while i < queue.entries.len()
        invariant
            i <= queue.entries@.len(),
            r@.len() == i,
            forall|j: int| 0 <= j < i ==> #[trigger] r@[j]@ == queue_row(queue.entries@[j], j == selected),
        decreases queue.entries@.len() - i,
    {
        r.push(queue_row_text(&queue.entries[i], i == selected));
        i = i + 1;
    }
    r
}

/// The first `n` characters of `s` (all of it when shorter).
fn take_chars(s: &str, n: usize) -> (r: String)
    ensures
        r@ == s@.take(if s@.len() < n { s@.len() as int } else { n as int }),
{
    let v = chars_of(s);
    let k = if v.len() < n { v.len() } else { n };
    let mut r = String::new();
    let mut i: usize = 0;
    while i < k
        invariant
            k <= v@.len(),
            i <= k,
            r@ == v@.take(i as int),
        decreases k - i,
    {
        crate::text::push_char(&mut r, v[i]);
        i = i + 1;
        assert(r@ =~= v@.take(i as int));
    }
    r
}

/// The detail box of the selected entry.
pub fn detail_text_of(queue: &JobQueue, selected: usize) -> (r: String)
    ensures
        r@ == detail_text(queue.entries@, selected as int),
{
    if selected >= queue.entries.len() {
        return str_string(NO_SELECTION);
    }
    let e = &queue.entries[selected];
    let mut r = str_string("id=");
    r.append(e.job.id.as_str());
    r.append("  status=");
    r.append(status_name_str(e.status));
    r.append("\neffect=");
    r.append(e.job.spec.effect.as_str());
    r.append("  dry_run=");
    r.append(if e.job.spec.dry_run { "true" } else { "false" });
    r.append("\n");
    if chars_of(e.message.as_str()).len() == 0 {
        r.append("(no message)");
    } else {
        let m = take_chars(e.message.as_str(), DETAIL_MESSAGE_CAP);
        r.append(m.as_str());
    }
    r
}

fn field_label_str(f: FormField) -> (r: &'static str)
    ensures
        r@ == field_label(f),
{
    match f {
        FormField::Effect => "effect",
        FormField::Duration => "duration",
        FormField::Width => "width",
        FormField::Height => "height",
        FormField::Fps => "fps",
        FormField::Crf => "crf",
        FormField::Output => "output",
        FormField::DryRun => "dry_run",
    }
}

fn append_padded(s: &mut String, t: &str, w: usize)
    ensures
        final(s)@ == old(s)@ + pad_right(t@, w as nat),
{
    let ghost start = s@;
    s.append(t);
    let n = chars_of(t).len();
    let mut k: usize = n;
    while k < w
        invariant
            n == t@.len(),
            n <= w ==> n <= k <= w,
            n > w ==> k == n,
            s@ == start + t@ + Seq::new((k - n) as nat, |i: int| ' '),
        decreases w - k,
    {
        crate::text::push_char(s, ' ');
        k = k + 1;
        assert(s@ =~= start + t@ + Seq::new((k - n) as nat, |i: int| ' '));
    }
    if n >= w {
        assert(s@ =~= start + t@);
    } else {
        assert(k == w);
    }
}

fn field_value_text(form: &NewJobForm, field: FormField) -> (r: String)
    ensures
        r@ == field_value(*form, field),
{
    match field {
        FormField::Effect => {
            let mut r = str_string(form.effect());
            r.append("  (h/l cycle)");
            r
        },
        FormField::Duration => form.duration.clone(),
        FormField::Width => form.width.clone(),
        FormField::Height => form.height.clone(),
        FormField::Fps => form.fps.clone(),
        FormField::Crf => form.crf.clone(),
        FormField::Output => form.output.clone(),
        FormField::DryRun => str_string(if form.dry_run { "yes" } else { "no" }),
    }
}

/// Line `i` of the new-job form.
pub fn form_line_text(form: &NewJobForm, i: usize) -> (r: String)
    requires
        i < 8,
    ensures
        r@ == form_line(*form, i as int),
{
    let field = FORM_FIELDS[i];
    let focus = i == form.field_i;
    let mut r = str_string(if focus { ">" } else { " " });
    r.append(" ");
    append_padded(&mut r, field_label_str(field), 10);
    r.append(" ");
    let v = field_value_text(form, field);
    r.append(v.as_str());
    if focus && form.editing {
        r.append(" [edit]");
    } else {
        proof {
            reveal_strlit("");
            assert(r@ =~= r@ + ""@);
        }
    }
    r
}

/// The lines of the new-job form, each with whether it has the focus.
pub fn form_lines_text(form: &NewJobForm) -> (r: Vec<(String, bool)>)
    ensures
        r@.len() == 8,
        forall|i: int| 0 <= i < 8 ==> (#[trigger] r@[i]).0@ == form_line(*form, i) && r@[i].1 == (i == form.field_i),
{
    let mut r: Vec<(String, bool)> = Vec::new();
    let mut i: usize = 0;
    while i < 8
        invariant
            i <= 8,
            r@.len() == i,
            forall|j: int| 0 <= j < i ==> (#[trigger] r@[j]).0@ == form_line(*form, j) && r@[j].1 == (j == form.field_i),
        decreases 8 - i,
    {
        r.push((form_line_text(form, i), i == form.field_i));
        i = i + 1;
    }
    r
}

} // verus!
