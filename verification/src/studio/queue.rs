//! The Director's job queue.
use vstd::prelude::*;
use crate::pipeline_snapshot::{join_path, join_spec};
use crate::studio::job::StudioJob;
use crate::text::{decimal, append_chars, lemma_decimal_props, str_string};

verus! {

/// Lifecycle of a queued job.
#[derive(Debug, Clone, Copy, PartialEq, Eq, Structural)]
pub enum JobStatus {
    Pending,
    Running,
    Done,
    Failed,
}

/// A job with its status and the last run's message.
#[derive(Debug, Clone)]
pub struct QueueEntry {
    pub job: StudioJob,
    pub status: JobStatus,
    pub message: String,
}

/// The queue, in display order.
#[derive(Debug, Clone)]
pub struct JobQueue {
    pub entries: Vec<QueueEntry>,
}

impl Default for JobQueue {
    fn default() -> (q: Self)
        ensures
            q.entries@ == Seq::<QueueEntry>::empty(),
    {
        JobQueue { entries: Vec::new() }
    }
}

/// The id `job-<n>`.
pub open spec fn job_id(n: nat) -> Seq<char> {
    "job-"@ + decimal(n)
}

/// Some entry of `entries` has id `id`.
pub open spec fn id_taken(entries: Seq<QueueEntry>, id: Seq<char>) -> bool {
    exists|i: int| 0 <= i < entries.len() && #[trigger] entries[i].job.id@ == id
}

/// No two entries share an id.
pub open spec fn ids_distinct(entries: Seq<QueueEntry>) -> bool {
    forall|i: int, j: int|
        0 <= i < j < entries.len() ==> #[trigger] entries[i].job.id@ != #[trigger] entries[j].job.id@
}

/// Ids stay distinct in the queue: appending an entry whose id no entry has (as
/// `next_id` provides one) keeps them distinct, and so does removing an entry.
pub proof fn law_ids_stay_distinct(entries: Seq<QueueEntry>, e: QueueEntry, k: int)
    requires
        ids_distinct(entries),
    ensures
        !id_taken(entries, e.job.id@) ==> ids_distinct(entries.push(e)),
        0 <= k < entries.len() ==> ids_distinct(entries.remove(k)),
{
    let p = entries.push(e);
    if !id_taken(entries, e.job.id@) {
        assert forall|i: int, j: int| 0 <= i < j < p.len() implies #[trigger] p[i].job.id@
            != #[trigger] p[j].job.id@ by {
            if j == entries.len() {
                if p[i].job.id@ == e.job.id@ {
                    assert(entries[i].job.id@ == e.job.id@);
                    assert(id_taken(entries, e.job.id@));
                }
            } else {
                assert(p[i] == entries[i] && p[j] == entries[j]);
            }
        }
    }
    if 0 <= k < entries.len() {
        let r = entries.remove(k);
        assert forall|i: int, j: int| 0 <= i < j < r.len() implies #[trigger] r[i].job.id@
            != #[trigger] r[j].job.id@ by {
            let a = if i < k { i } else { i + 1 };
            let b = if j < k { j } else { j + 1 };
            assert(r[i] == entries[a] && r[j] == entries[b]);
            assert(entries[a].job.id@ != entries[b].job.id@);
        }
    }
}

/// Index of the first pending entry.
pub open spec fn first_pending(entries: Seq<QueueEntry>) -> Option<int>
    decreases entries.len(),
{
    if entries.len() == 0 {
        None
    } else {
        match first_pending(entries.drop_last()) {
            Some(i) => Some(i),
            None => if entries.last().status == JobStatus::Pending {
                Some(entries.len() - 1)
            } else {
                None
            },
        }
    }
}

proof fn lemma_first_pending_step(entries: Seq<QueueEntry>, k: int)
    requires
        0 <= k < entries.len(),
        first_pending(entries.take(k)) is None,
    ensures
        first_pending(entries.take(k + 1)) == if entries[k].status == JobStatus::Pending {
            Some(k)
        } else {
            None::<int>
        },
{
    assert(entries.take(k + 1).drop_last() =~= entries.take(k));
}

/// Once a prefix has a pending entry at `i`, every longer prefix has the same first one.
proof fn first_pending_settles(entries: Seq<QueueEntry>, k: int, i: int)
    requires
        0 <= k <= entries.len(),
        first_pending(entries.take(k)) == Some(i),
    ensures
        first_pending(entries) == Some(i),
    decreases entries.len() - k,
{
    if k < entries.len() {
        lemma_first_pending_prefix_step(entries, k);
        first_pending_settles(entries, k + 1, i);
    } else {
        assert(entries.take(k) =~= entries);
    }
}

proof fn lemma_first_pending_prefix_step(entries: Seq<QueueEntry>, k: int)
    requires
        0 <= k < entries.len(),
        first_pending(entries.take(k)) is Some,
    ensures
        first_pending(entries.take(k + 1)) == first_pending(entries.take(k)),
{
    assert(entries.take(k + 1).drop_last() =~= entries.take(k));
}

proof fn lemma_job_id_injective(a: nat, b: nat)
    requires
        job_id(a) == job_id(b),
    ensures
        a == b,
{
    reveal_strlit("job-");
    assert(job_id(a).skip(4) =~= decimal(a));
    assert(job_id(b).skip(4) =~= decimal(b));
    lemma_decimal_props(a);
    lemma_decimal_props(b);
}

/// Among `len + 1` consecutive ids, one is free in a queue of `len` entries.
proof fn lemma_free_id_exists(entries: Seq<QueueEntry>, lo: nat)
    ensures
        exists|n: nat| lo <= n < lo + entries.len() + 1 && !id_taken(entries, job_id(n)),
{
    if forall|n: nat| lo <= n < lo + entries.len() + 1 ==> id_taken(entries, job_id(n)) {
        let len = entries.len() as int;
        let c = vstd::set_lib::set_int_range(lo as int, lo + len + 1);
        vstd::set_lib::lemma_int_range(lo as int, lo + len + 1);
        let f = |n: int| choose|i: int| 0 <= i < entries.len() && #[trigger] entries[i].job.id@ == job_id(n as nat);
        let img = c.map(f);
        assert(vstd::relations::injective_on(f, c)) by {
            assert forall|x: int, y: int| c.contains(x) && c.contains(y) && #[trigger] f(x) == #[trigger] f(y) implies x == y by {
                assert(id_taken(entries, job_id(x as nat)));
                assert(id_taken(entries, job_id(y as nat)));
                lemma_job_id_injective(x as nat, y as nat);
            }
        }
        vstd::set_lib::lemma_map_size(c, img, f);
        let r = vstd::set_lib::set_int_range(0, len);
        vstd::set_lib::lemma_int_range(0, len);
        assert(img.subset_of(r)) by {
            assert forall|k: int| img.contains(k) implies r.contains(k) by {
                let x = choose|x: int| c.contains(x) && f(x) == k;
                assert(id_taken(entries, job_id(x as nat)));
            }
        }
        vstd::set_lib::lemma_len_subset(img, r);
        assert(false);
    }
}

impl JobQueue {
    /// Append a pending job with no message.
    pub fn enqueue(&mut self, job: StudioJob)
        ensures
            final(self).entries@.len() == old(self).entries@.len() + 1,
            final(self).entries@.drop_last() == old(self).entries@,
            final(self).entries@.last().job == job,
            final(self).entries@.last().status == JobStatus::Pending,
            final(self).entries@.last().message@ == Seq::<char>::empty(),
    {
        self.entries.push(QueueEntry { job, status: JobStatus::Pending, message: String::new() });
        assert(self.entries@.drop_last() =~= old(self).entries@);
    }

    /// Set the status of entry `i`, and its message when `message` is given.
    pub fn update_entry(&mut self, i: usize, status: JobStatus, message: Option<String>)
        requires
            i < old(self).entries@.len(),
        ensures
            final(self).entries@.len() == old(self).entries@.len(),
            forall|j: int| 0 <= j < old(self).entries@.len() && j != i ==> final(self).entries@[j] == old(self).entries@[j],
            final(self).entries@[i as int].job == old(self).entries@[i as int].job,
            final(self).entries@[i as int].status == status,
            final(self).entries@[i as int].message == match message {
                Some(m) => m,
                None => old(self).entries@[i as int].message,
            },
    {
        let mut e = self.entries.remove(i);
        e.status = status;
        if let Some(m) = message {
            e.message = m;
        }
        self.entries.insert(i, e);
    }

    /// Remove entry `i`.
    pub fn remove_entry(&mut self, i: usize) -> (e: QueueEntry)
        requires
            i < old(self).entries@.len(),
        ensures
            e == old(self).entries@[i as int],
            final(self).entries@ == old(self).entries@.remove(i as int),
    {
        self.entries.remove(i)
    }

    /// Index of the first pending job.
    pub fn next_pending_index(&self) -> (r: Option<usize>)
        ensures
            match r {
                Some(i) => first_pending(self.entries@) == Some(i as int),
                None => first_pending(self.entries@) is None,
            },
            r matches Some(i) ==> i < self.entries@.len() && self.entries@[i as int].status
                == JobStatus::Pending,
    {
        let mut i: usize = 0;
        while i < self.entries.len()
            invariant
                i <= self.entries@.len(),
                first_pending(self.entries@.take(i as int)) is None,
            decreases self.entries@.len() - i,
        {
            proof {
                lemma_first_pending_step(self.entries@, i as int);
            }
            if self.entries[i].status == JobStatus::Pending {
                proof {
                    first_pending_settles(self.entries@, i as int + 1, i as int);
                }
                return Some(i);
            }
            i = i + 1;
        }
        assert(self.entries@.take(i as int) =~= self.entries@);
        None
    }

    /// Index of the first entry whose job has id `id`.
    pub fn position_of(&self, id: &str) -> (r: Option<usize>)
        ensures
            match r {
                Some(i) => i < self.entries@.len() && self.entries@[i as int].job.id@ == id@
                    && forall|j: int| 0 <= j < i ==> self.entries@[j].job.id@ != id@,
                None => !id_taken(self.entries@, id@),
            },
    {
        let target = crate::text::chars_of(id);
        let mut i: usize = 0;
        while i < self.entries.len()
            invariant
                i <= self.entries@.len(),
                target@ == id@,
                forall|j: int| 0 <= j < i ==> self.entries@[j].job.id@ != id@,
            decreases self.entries@.len() - i,
        {
            let c = crate::text::chars_of(self.entries[i].job.id.as_str());
            if crate::text::seq_eq(&c, &target) {
                return Some(i);
            }
            i = i + 1;
        }
        None
    }

    /// A fresh id `job-<n>`: the smallest `n` past the queue length that no entry
    /// uses (so deleting a job never makes a later id come back).
    pub fn next_id(&self) -> (r: String)
        ensures
            exists|n: nat|
                n >= self.entries@.len() + 1 && r@ == job_id(n) && !id_taken(self.entries@, job_id(n))
                    && forall|m: nat|
                    self.entries@.len() + 1 <= m < n ==> id_taken(self.entries@, #[trigger] job_id(m)),
    {
        let len = self.entries.len();
        let ghost lo: nat = len as nat + 1;
        proof {
            lemma_free_id_exists(self.entries@, lo);
        }
        let mut n: u128 = len as u128 + 1;
        loop
            invariant
                lo == len + 1,
                len == self.entries@.len(),
                lo <= n <= lo + len,
                forall|m: nat| lo <= m < n ==> id_taken(self.entries@, #[trigger] job_id(m)),
                exists|k: nat| lo <= k < lo + len + 1 && !id_taken(self.entries@, job_id(k)),
            decreases lo + len - n,
        {
            let mut id = str_string("job-");
            append_chars(&mut id, &crate::text::decimal_chars_wide(n));
            match self.position_of(id.as_str()) {
                None => {
                    assert(id@ == job_id(n as nat));
                    assert(!id_taken(self.entries@, job_id(n as nat)));
                    assert(n >= self.entries@.len() + 1);
                    return id;
                },
                Some(_) => {
                    assert(id_taken(self.entries@, job_id(n as nat)));
                    if n == len as u128 + len as u128 + 1 {
                        proof {
                            let k = choose|k: nat| lo <= k < lo + len + 1 && !id_taken(self.entries@, job_id(k));
                            if k < n {
                                assert(id_taken(self.entries@, job_id(k)));
                            }
                        }
                        return id;
                    }
                    n = n + 1;
                },
            }
        }
    }
}

/// Where the queue file lives: under `$XDG_CONFIG_HOME/idle-studio/`, else under
/// `$HOME/.config/idle-studio/`, else `idle-studio-queue.json` in the working folder.
pub open spec fn queue_path_spec(xdg: Option<Seq<char>>, home: Option<Seq<char>>) -> Seq<char> {
    match xdg {
        Some(x) => join_spec(join_spec(x, "idle-studio"@), "queue.json"@),
        None => match home {
            Some(h) => join_spec(join_spec(join_spec(h, ".config"@), "idle-studio"@), "queue.json"@),
            None => "idle-studio-queue.json"@,
        },
    }
}

/// The queue path, given the values of `XDG_CONFIG_HOME` and `HOME` when set.
pub fn queue_path_from(xdg: Option<&str>, home: Option<&str>) -> (r: String)
    ensures
        r@ == queue_path_spec(
            match xdg {
                Some(x) => Some(x@),
                None => None,
            },
            match home {
                Some(h) => Some(h@),
                None => None,
            },
        ),
{
    match xdg {
        Some(x) => {
            let d = join_path(x, "idle-studio");
            join_path(d.as_str(), "queue.json")
        },
        None => match home {
            Some(h) => {
                let c = join_path(h, ".config");
                let d = join_path(c.as_str(), "idle-studio");
                join_path(d.as_str(), "queue.json")
            },
            None => str_string("idle-studio-queue.json"),
        },
    }
}

} // verus!
