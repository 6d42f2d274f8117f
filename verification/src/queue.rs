//! The durable job queue: enqueue with dedup, atomic dequeue-and-advance,
//! stage and metadata updates, the retry policy and statistics.
//!
//! The queue owns all persisted state of the pipeline. Its operations are the
//! only way that state changes, and each operation's contract pins the new
//! state exactly: keys stay unique, every stage change follows the stage
//! graph, and `retry_count` never exceeds `max_retries`. The surrounding
//! binary mirrors each operation into the database file and serializes
//! access behind one lock, as the concurrency model demands.

use vstd::prelude::*;

use crate::model::Anime;
use crate::model::AnimeSelection;
use crate::model::Confidence;
use crate::model::FileType;
use crate::model::Job;
use crate::model::JobMetadata;
use crate::model::JobStats;
use crate::model::NewJob;
use crate::model::SelectionRow;
use crate::model::clone_opt_string;
use crate::model::same_anime;
use crate::stage::JobStage;

verus! {

/// Errors of the queue operations.
#[derive(Debug, Clone, Copy, PartialEq, Eq, Structural)]
pub enum QueueError {
    /// No row with the given id.
    NotFound,
    /// The request contradicts the current state: a stage step outside the
    /// stage graph, or a retry past the limit.
    Conflict,
    /// The store cannot accept new rows.
    Storage,
}

/// A job record is internally consistent.
pub open spec fn job_ok(j: Job) -> bool {
    &&& 0 < j.id
    &&& j.retry_count <= j.max_retries
    &&& j.progress_permille <= 1000
}

/// Two jobs sharing the natural key (series, episode).
pub open spec fn same_key(a: Job, b: Job) -> bool {
    a.anime_id == b.anime_id && a.episode == b.episode
}

/// The natural key (series, episode) is unique.
pub open spec fn keys_unique(jobs: Seq<Job>) -> bool {
    forall|p: int, q: int|
        0 <= p < q < jobs.len() ==> !same_key(#[trigger] jobs[p], #[trigger] jobs[q])
}

/// Surrogate ids are unique.
pub open spec fn ids_unique(jobs: Seq<Job>) -> bool {
    forall|p: int, q: int|
        0 <= p < q < jobs.len() ==> (#[trigger] jobs[p]).id != (#[trigger] jobs[q]).id
}

/// Some job carries the given natural key.
pub open spec fn has_key(jobs: Seq<Job>, anime_id: i64, episode: u32) -> bool {
    exists|k: int|
        0 <= k < jobs.len() && (#[trigger] jobs[k]).anime_id == anime_id && jobs[k].episode
            == episode
}

/// Some job carries the given id.
pub open spec fn has_job_id(jobs: Seq<Job>, id: i64) -> bool {
    exists|k: int| 0 <= k < jobs.len() && (#[trigger] jobs[k]).id == id
}

/// Every job of `after` that already stood in `before` either kept its stage
/// or moved along one edge of the stage graph, and every appended job starts
/// at `queued`. This is the step relation of the whole store: a history of
/// queue operations can only move a job along paths of the graph.
pub open spec fn stages_follow_graph(before: Seq<Job>, after: Seq<Job>) -> bool {
    &&& before.len() <= after.len()
    &&& forall|k: int|
        0 <= k < before.len() ==> (#[trigger] after[k]).id == before[k].id && (after[k].stage
            == before[k].stage || JobStage::spec_allowed_transition(
            before[k].stage,
            after[k].stage,
        ))
    &&& forall|k: int|
        before.len() <= k < after.len() ==> (#[trigger] after[k]).stage == JobStage::Queued
}

/// The record enqueue appends for a new job.
pub open spec fn fresh_job(nj: NewJob, id: i64, now: i64, max_retries: u32) -> Job {
    Job {
        id,
        anime_id: nj.anime_id,
        anime_title: nj.anime_title,
        anime_title_english: None,
        mal_id: nj.mal_id,
        episode: nj.episode,
        season: None,
        year: None,
        stage: JobStage::Queued,
        progress_permille: 0,
        created_at: now,
        updated_at: now,
        started_at: None,
        completed_at: None,
        error_message: None,
        retry_count: 0,
        max_retries,
        video_path: None,
        transcript_path: None,
        tokens_path: None,
        analysis_path: None,
        duration_seconds: None,
        video_size_bytes: None,
        audio_size_bytes: None,
        transcript_size_bytes: None,
        tokens_size_bytes: None,
        word_count: None,
        token_count: None,
        video_deleted: false,
        audio_deleted: false,
        priority: nj.priority,
        depends_on: None,
    }
}

/// A job a dequeue for `from` may pick, honouring the optional series
/// filter.
pub open spec fn candidate(j: Job, from: JobStage, filt: Option<u32>) -> bool {
    &&& j.stage == from
    &&& match filt {
        Some(f) => j.mal_id == f,
        None => true,
    }
}

/// Some job is a dequeue candidate.
pub open spec fn has_candidate(jobs: Seq<Job>, from: JobStage, filt: Option<u32>) -> bool {
    exists|k: int| 0 <= k < jobs.len() && candidate(#[trigger] jobs[k], from, filt)
}

/// Strict selection order of the dequeue: higher priority first, ties broken
/// by earlier creation.
pub open spec fn prio_before(a: Job, b: Job) -> bool {
    a.priority > b.priority || (a.priority == b.priority && a.created_at < b.created_at)
}

/// `bi` is the index the dequeue picks: the first candidate that no
/// candidate strictly precedes.
pub open spec fn is_dequeue_choice(jobs: Seq<Job>, from: JobStage, filt: Option<u32>, bi: int) -> bool {
    &&& 0 <= bi < jobs.len()
    &&& candidate(jobs[bi], from, filt)
    &&& forall|k: int|
        0 <= k < jobs.len() && candidate(#[trigger] jobs[k], from, filt) ==> !prio_before(
            jobs[k],
            jobs[bi],
        )
    &&& forall|k: int|
        0 <= k < bi && candidate(#[trigger] jobs[k], from, filt) ==> prio_before(jobs[bi], jobs[k])
}

/// The picked record after the atomic advance.
pub open spec fn advanced(j: Job, to: JobStage, now: i64) -> Job {
    Job { stage: to, started_at: Some(now), updated_at: now, ..j }
}

/// Stored series ids and catalog ids are unique and assigned.
pub open spec fn animes_ok(animes: Seq<Anime>, next_id: int) -> bool {
    &&& forall|k: int|
        0 <= k < animes.len() ==> ((#[trigger] animes[k]).id matches Some(id) && 0 < id < next_id)
    &&& forall|p: int, q: int|
        0 <= p < q < animes.len() ==> (#[trigger] animes[p]).id != (#[trigger] animes[q]).id
            && animes[p].mal_id != animes[q].mal_id
}

/// Selection cache rows are keyed by catalog id.
pub open spec fn selections_ok(rows: Seq<SelectionRow>) -> bool {
    forall|p: int, q: int|
        0 <= p < q < rows.len() ==> (#[trigger] rows[p]).mal_id != (#[trigger] rows[q]).mal_id
}

/// The job queue over the durable store.
#[derive(Debug)]
pub struct JobQueue {
    jobs: Vec<Job>,
    animes: Vec<Anime>,
    selections: Vec<SelectionRow>,
    next_job_id: i64,
    next_anime_id: i64,
    default_max_retries: u32,
}

impl JobQueue {
    /// The stored job records, in creation order.
    pub closed spec fn jobs(&self) -> Seq<Job> {
        self.jobs@
    }

    /// The stored series records.
    pub closed spec fn animes(&self) -> Seq<Anime> {
        self.animes@
    }

    /// The stored selection cache rows.
    pub closed spec fn selections(&self) -> Seq<SelectionRow> {
        self.selections@
    }

    /// The id the next inserted job receives.
    pub closed spec fn next_job_id(&self) -> int {
        self.next_job_id as int
    }

    /// The id the next inserted series receives.
    pub closed spec fn next_anime_id(&self) -> int {
        self.next_anime_id as int
    }

    /// The retry limit given to new jobs.
    pub closed spec fn default_max_retries(&self) -> u32 {
        self.default_max_retries
    }

    /// The store invariant: unique keys and ids, every record internally
    /// consistent.
    pub open spec fn wf(&self) -> bool {
        &&& forall|k: int| 0 <= k < self.jobs().len() ==> job_ok(#[trigger] self.jobs()[k])
        &&& keys_unique(self.jobs())
        &&& ids_unique(self.jobs())
        &&& forall|k: int|
            0 <= k < self.jobs().len() ==> (#[trigger] self.jobs()[k]).id < self.next_job_id()
        &&& 0 < self.next_job_id() <= i64::MAX
        &&& animes_ok(self.animes(), self.next_anime_id())
        &&& 0 < self.next_anime_id() <= i64::MAX
        &&& selections_ok(self.selections())
    }

    /// An empty queue whose new jobs allow three retries.
    pub fn new() -> (r: JobQueue)
        ensures
            r.wf(),
            r.jobs() == Seq::<Job>::empty(),
            r.animes() == Seq::<Anime>::empty(),
            r.selections() == Seq::<SelectionRow>::empty(),
            r.next_job_id() == 1,
            r.next_anime_id() == 1,
            r.default_max_retries() == 3u32,
    {
        JobQueue {
            jobs: Vec::new(),
            animes: Vec::new(),
            selections: Vec::new(),
            next_job_id: 1,
            next_anime_id: 1,
            default_max_retries: 3,
        }
    }

    /// An empty queue whose new jobs allow the given number of retries.
    pub fn with_max_retries(max_retries: u32) -> (r: JobQueue)
        ensures
            r.wf(),
            r.jobs() == Seq::<Job>::empty(),
            r.animes() == Seq::<Anime>::empty(),
            r.selections() == Seq::<SelectionRow>::empty(),
            r.next_job_id() == 1,
            r.next_anime_id() == 1,
            r.default_max_retries() == max_retries,
    {
        JobQueue {
            jobs: Vec::new(),
            animes: Vec::new(),
            selections: Vec::new(),
            next_job_id: 1,
            next_anime_id: 1,
            default_max_retries: max_retries,
        }
    }

    /// Changes the retry limit that later enqueued jobs receive; existing
    /// jobs keep theirs.
    pub fn set_default_max_retries(&mut self, max_retries: u32)
        ensures
            final(self).wf() == old(self).wf(),
            final(self).jobs() == old(self).jobs(),
            final(self).animes() == old(self).animes(),
            final(self).selections() == old(self).selections(),
            final(self).next_job_id() == old(self).next_job_id(),
            final(self).next_anime_id() == old(self).next_anime_id(),
            final(self).default_max_retries() == max_retries,
    {
        self.default_max_retries = max_retries;
    }

    /// Enqueues a job. If a job with the same (series, episode) key already
    /// exists, its id is returned and nothing changes: re-enqueueing a key
    /// never creates a duplicate.
    pub fn enqueue(&mut self, job: &NewJob, now: i64) -> (r: Result<i64, QueueError>)
        requires
            old(self).wf(),
        ensures
            final(self).wf(),
            stages_follow_graph(old(self).jobs(), final(self).jobs()),
            final(self).animes() == old(self).animes(),
            final(self).selections() == old(self).selections(),
            final(self).default_max_retries() == old(self).default_max_retries(),
            match r {
                Ok(id) => {
                    if has_key(old(self).jobs(), job.anime_id, job.episode) {
                        &&& final(self).jobs() == old(self).jobs()
                        &&& final(self).next_job_id() == old(self).next_job_id()
                        &&& exists|k: int|
                            0 <= k < old(self).jobs().len() && (#[trigger] old(self).jobs()[k]).anime_id
                                == job.anime_id && old(self).jobs()[k].episode == job.episode && old(self).jobs()[k].id == id
                    } else {
                        &&& id == old(self).next_job_id()
                        &&& final(self).jobs() == old(self).jobs().push(
                            fresh_job(*job, id, now, old(self).default_max_retries()),
                        )
                        &&& final(self).next_job_id() == old(self).next_job_id() + 1
                    }
                },
                Err(e) => {
                    &&& e == QueueError::Storage
                    &&& !has_key(old(self).jobs(), job.anime_id, job.episode)
                    &&& old(self).next_job_id() == i64::MAX
                    &&& final(self).jobs() == old(self).jobs()
                    &&& final(self).next_job_id() == old(self).next_job_id()
                },
            },
    {
        let n = self.jobs.len();
        let mut i: usize = 0;
        while i < n
            invariant
                *self == *old(self),
                old(self).wf(),
                n == self.jobs@.len(),
                i <= n,
                forall|k: int|
                    0 <= k < i ==> !((#[trigger] self.jobs@[k]).anime_id == job.anime_id
                        && self.jobs@[k].episode == job.episode),
            decreases n - i,
        {
            if self.jobs[i].anime_id == job.anime_id && self.jobs[i].episode == job.episode {
                return Ok(self.jobs[i].id);
            }
            i = i + 1;
        }
        if self.next_job_id == i64::MAX {
            return Err(QueueError::Storage);
        }
        let id = self.next_job_id;
        let record = Job {
            id,
            anime_id: job.anime_id,
            anime_title: job.anime_title.clone(),
            anime_title_english: None,
            mal_id: job.mal_id,
            episode: job.episode,
            season: None,
            year: None,
            stage: JobStage::Queued,
            progress_permille: 0,
            created_at: now,
            updated_at: now,
            started_at: None,
            completed_at: None,
            error_message: None,
            retry_count: 0,
            max_retries: self.default_max_retries,
            video_path: None,
            transcript_path: None,
            tokens_path: None,
            analysis_path: None,
            duration_seconds: None,
            video_size_bytes: None,
            audio_size_bytes: None,
            transcript_size_bytes: None,
            tokens_size_bytes: None,
            word_count: None,
            token_count: None,
            video_deleted: false,
            audio_deleted: false,
            priority: job.priority,
            depends_on: None,
        };
        proof {
            assert(record == fresh_job(*job, id, now, old(self).default_max_retries()));
        }
        self.jobs.push(record);
        self.next_job_id = id + 1;
        Ok(id)
    }

    /// Atomically picks the best job in stage `from` — highest priority,
    /// ties broken by earliest creation — moves it to `to` and stamps its
    /// start time. Returns `None` when no such job exists; the step
    /// `from -> to` must be an edge of the stage graph.
    pub fn dequeue(&mut self, from: JobStage, to: JobStage, now: i64) -> (r: Result<
        Option<Job>,
        QueueError,
    >)
        requires
            old(self).wf(),
        ensures
            final(self).wf(),
            stages_follow_graph(old(self).jobs(), final(self).jobs()),
            final(self).animes() == old(self).animes(),
            final(self).selections() == old(self).selections(),
            final(self).next_job_id() == old(self).next_job_id(),
            final(self).default_max_retries() == old(self).default_max_retries(),
            dequeue_outcome(old(self).jobs(), final(self).jobs(), from, to, None::<u32>, now, r),
    {
        self.dequeue_filtered(from, to, None, now)
    }

    /// The dequeue variant that only considers jobs of one series.
    pub fn dequeue_filtered(
        &mut self,
        from: JobStage,
        to: JobStage,
        filter_mal_id: Option<u32>,
        now: i64,
    ) -> (r: Result<Option<Job>, QueueError>)
        requires
            old(self).wf(),
        ensures
            final(self).wf(),
            stages_follow_graph(old(self).jobs(), final(self).jobs()),
            final(self).animes() == old(self).animes(),
            final(self).selections() == old(self).selections(),
            final(self).next_job_id() == old(self).next_job_id(),
            final(self).default_max_retries() == old(self).default_max_retries(),
            dequeue_outcome(
                old(self).jobs(),
                final(self).jobs(),
                from,
                to,
                filter_mal_id,
                now,
                r,
            ),
    {
        if !JobStage::allowed_transition(from, to) {
            return Err(QueueError::Conflict);
        }
        let n = self.jobs.len();
        let mut best: Option<usize> = None;
        let mut i: usize = 0;
        while i < n
            invariant
                *self == *old(self),
                old(self).wf(),
                n == self.jobs@.len(),
                i <= n,
                match best {
                    None => forall|k: int|
                        0 <= k < i ==> !candidate(#[trigger] self.jobs@[k], from, filter_mal_id),
                    Some(b) => {
                        &&& (b as int) < i
                        &&& candidate(self.jobs@[b as int], from, filter_mal_id)
                        &&& forall|k: int|
                            0 <= k < i && candidate(#[trigger] self.jobs@[k], from, filter_mal_id)
                                ==> !prio_before(self.jobs@[k], self.jobs@[b as int])
                        &&& forall|k: int|
                            0 <= k < b && candidate(#[trigger] self.jobs@[k], from, filter_mal_id)
                                ==> prio_before(self.jobs@[b as int], self.jobs@[k])
                    },
                },
            decreases n - i,
        {
            let is_cand = self.jobs[i].stage == from && (match filter_mal_id {
                Some(f) => self.jobs[i].mal_id == f,
                None => true,
            });
            if is_cand {
                match best {
                    None => {
                        best = Some(i);
                    },
                    Some(b) => {
                        let better = self.jobs[i].priority > self.jobs[b].priority || (
                        self.jobs[i].priority == self.jobs[b].priority && self.jobs[i].created_at
                            < self.jobs[b].created_at);
                        if better {
                            best = Some(i);
                        }
                    },
                }
            }
            i = i + 1;
        }
        match best {
            None => Ok(None),
            Some(b) => {
                let mut picked = self.jobs[b].clone();
                picked.stage = to;
                picked.started_at = Some(now);
                picked.updated_at = now;
                let out = picked.clone();
                proof {
                    assert(picked == advanced(old(self).jobs()[b as int], to, now));
                }
                self.jobs[b] = picked;
                proof {
                    assert(is_dequeue_choice(old(self).jobs(), from, filter_mal_id, b as int));
                }
                Ok(Some(out))
            },
        }
    }
}

/// A job restaged by an explicit stage update: stage and update time set,
/// completion stamped when the stage is terminal.
pub open spec fn restaged(j: Job, stage: JobStage, now: i64) -> Job {
    Job {
        stage,
        updated_at: now,
        completed_at: if stage.spec_is_terminal() {
            Some(now)
        } else {
            j.completed_at
        },
        ..j
    }
}

/// A job marked failed with an error message.
pub open spec fn failed_job(j: Job, msg: String, now: i64) -> Job {
    Job {
        stage: JobStage::Failed,
        error_message: Some(msg),
        updated_at: now,
        completed_at: Some(now),
        ..j
    }
}

/// A failed job reset for another attempt.
pub open spec fn requeued(j: Job, now: i64) -> Job {
    Job { stage: JobStage::Queued, error_message: None, progress_permille: 0, updated_at: now, ..j }
}

/// A failed job that the bulk retry resets: still under its retry limit.
pub open spec fn retry_eligible(j: Job) -> bool {
    j.stage == JobStage::Failed && j.retry_count < j.max_retries
}

/// How many jobs of `jobs` satisfy `pred`.
pub open spec fn count_jobs(jobs: Seq<Job>, pred: spec_fn(Job) -> bool) -> nat
    decreases jobs.len(),
{
    if jobs.len() == 0 {
        0
    } else {
        count_jobs(jobs.drop_last(), pred) + if pred(jobs.last()) {
            1nat
        } else {
            0nat
        }
    }
}

/// One step of evaluating `count_jobs` over a growing prefix.
pub proof fn lemma_count_take_step(jobs: Seq<Job>, pred: spec_fn(Job) -> bool, i: int)
    requires
        0 <= i < jobs.len(),
    ensures
        count_jobs(jobs.subrange(0, i + 1), pred) == count_jobs(jobs.subrange(0, i), pred) + if pred(
            jobs[i],
        ) {
            1nat
        } else {
            0nat
        },
{
    let t = jobs.subrange(0, i + 1);
    assert(t.drop_last() =~= jobs.subrange(0, i));
    assert(t.last() == jobs[i]);
}

/// With unique ids, at most one index carries a given id.
pub proof fn lemma_id_index_unique(jobs: Seq<Job>, i: int, j: int)
    requires
        ids_unique(jobs),
        0 <= i < jobs.len(),
        0 <= j < jobs.len(),
        jobs[i].id == jobs[j].id,
    ensures
        i == j,
{
}

/// Replacing a record with one of the same key and id keeps the uniqueness
/// invariants.
proof fn lemma_update_preserves_uniq(jobs: Seq<Job>, k: int, j: Job)
    requires
        0 <= k < jobs.len(),
        keys_unique(jobs),
        ids_unique(jobs),
        same_key(j, jobs[k]),
        j.id == jobs[k].id,
    ensures
        keys_unique(jobs.update(k, j)),
        ids_unique(jobs.update(k, j)),
{
    let post = jobs.update(k, j);
    assert forall|p: int, q: int| 0 <= p < q < post.len() implies !same_key(
        #[trigger] post[p],
        #[trigger] post[q],
    ) && post[p].id != post[q].id by {
        assert(!same_key(jobs[p], jobs[q]));
        assert(jobs[p].id != jobs[q].id);
    }
}

/// An optional string freshly produced from a patch: the patch's characters
/// when present, the old value otherwise.
pub open spec fn opt_patched(newv: Option<String>, oldv: Option<String>, patch: Option<String>) -> bool {
    match patch {
        Some(s) => newv matches Some(t) && t@ == s@,
        None => newv == oldv,
    }
}

/// The scalar fields a metadata update writes, with the paths given
/// explicitly.
pub open spec fn meta_patched(j: Job, m: JobMetadata, vp: Option<String>, tp: Option<String>, kp: Option<String>) -> Job {
    Job {
        video_size_bytes: if m.video_size_bytes is Some {
            m.video_size_bytes
        } else {
            j.video_size_bytes
        },
        audio_size_bytes: if m.audio_size_bytes is Some {
            m.audio_size_bytes
        } else {
            j.audio_size_bytes
        },
        transcript_size_bytes: if m.transcript_size_bytes is Some {
            m.transcript_size_bytes
        } else {
            j.transcript_size_bytes
        },
        tokens_size_bytes: if m.tokens_size_bytes is Some {
            m.tokens_size_bytes
        } else {
            j.tokens_size_bytes
        },
        duration_seconds: if m.duration_seconds is Some {
            m.duration_seconds
        } else {
            j.duration_seconds
        },
        word_count: if m.word_count is Some {
            m.word_count
        } else {
            j.word_count
        },
        token_count: if m.token_count is Some {
            m.token_count
        } else {
            j.token_count
        },
        video_path: vp,
        transcript_path: tp,
        tokens_path: kp,
        ..j
    }
}

/// Display order of job listings: no later record strictly precedes an
/// earlier one under the dequeue order (priority first, then age).
pub open spec fn display_sorted(s: Seq<Job>) -> bool {
    forall|i: int, j: int| 0 <= i < j < s.len() ==> !prio_before(#[trigger] s[j], #[trigger] s[i])
}

/// Inserting an element anywhere adds exactly it to the multiset.
proof fn lemma_insert_to_multiset(s: Seq<Job>, p: int, j: Job)
    requires
        0 <= p <= s.len(),
    ensures
        s.insert(p, j).to_multiset() =~= s.to_multiset().insert(j),
{
    broadcast use vstd::seq_lib::group_to_multiset_ensures;

    let t = s.insert(p, j);
    assert(t.remove(p) =~= s);
    assert(t[p] == j);
    assert(t.contains(j));
    assert(t.remove(p).to_multiset() =~= t.to_multiset().remove(t[p]));
    assert(t.to_multiset().count(j) > 0);
    assert forall|x: Job| t.to_multiset().count(x) == #[trigger] s.to_multiset().insert(
        j,
    ).count(x) by {
        if x == j {
            assert(s.to_multiset().count(j) == t.to_multiset().remove(j).count(j));
        } else {
            assert(s.to_multiset().count(x) == t.to_multiset().remove(j).count(x));
        }
    }
}

/// Inserts a record into a display-sorted listing, keeping it sorted.
fn sorted_insert(out: &mut Vec<Job>, j: Job)
    requires
        display_sorted(old(out)@),
    ensures
        final(out)@.to_multiset() == old(out)@.to_multiset().insert(j),
        display_sorted(final(out)@),
{
    let n = out.len();
    let mut p: usize = 0;
    while p < n && !(j.priority > out[p].priority || (j.priority == out[p].priority
        && j.created_at < out[p].created_at))
        invariant
            out@ == old(out)@,
            n == out@.len(),
            p <= n,
            forall|q: int| 0 <= q < p ==> !prio_before(j, #[trigger] out@[q]),
        decreases n - p,
    {
        p = p + 1;
    }
    proof {
        lemma_insert_to_multiset(out@, p as int, j);
        let s = out@.insert(p as int, j);
        assert forall|a: int, b: int| 0 <= a < b < s.len() implies !prio_before(
            #[trigger] s[b],
            #[trigger] s[a],
        ) by {
            if a == p {
                // `j` sits at `a`; the record after it was at `b - 1`.
                if b - 1 > p {
                    assert(!prio_before(out@[b - 1], out@[p as int]));
                }
            } else if b == p {
                assert(!prio_before(j, out@[a]));
            } else if a < p && b > p {
                assert(!prio_before(out@[b - 1], out@[a]));
            }
        }
    }
    out.insert(p, j);
}

impl JobQueue {
    fn find_index(&self, job_id: i64) -> (r: Option<usize>)
        ensures
            match r {
                Some(k) => (k as int) < self.jobs().len() && self.jobs()[k as int].id == job_id,
                None => !has_job_id(self.jobs(), job_id),
            },
    {
        let n = self.jobs.len();
        let mut i: usize = 0;
        while i < n
            invariant
                n == self.jobs@.len(),
                i <= n,
                forall|k: int| 0 <= k < i ==> (#[trigger] self.jobs@[k]).id != job_id,
            decreases n - i,
        {
            if self.jobs[i].id == job_id {
                return Some(i);
            }
            i = i + 1;
        }
        None
    }

    /// A copy of the record with the given id, if it exists.
    pub fn get_job(&self, job_id: i64) -> (r: Option<Job>)
        ensures
            match r {
                Some(j) => exists|k: int|
                    0 <= k < self.jobs().len() && (#[trigger] self.jobs()[k]).id == job_id && j
                        == self.jobs()[k],
                None => !has_job_id(self.jobs(), job_id),
            },
    {
        let found = self.find_index(job_id);
        match found {
            None => None,
            Some(k) => Some(self.jobs[k].clone()),
        }
    }

    /// Moves the job to the given stage; the step must be an edge of the
    /// stage graph from the job's current stage.
    pub fn update_stage(&mut self, job_id: i64, stage: JobStage, now: i64) -> (r: Result<
        (),
        QueueError,
    >)
        requires
            old(self).wf(),
        ensures
            final(self).wf(),
            stages_follow_graph(old(self).jobs(), final(self).jobs()),
            final(self).animes() == old(self).animes(),
            final(self).selections() == old(self).selections(),
            final(self).next_job_id() == old(self).next_job_id(),
            final(self).default_max_retries() == old(self).default_max_retries(),
            match r {
                Ok(_) => exists|k: int|
                    0 <= k < old(self).jobs().len() && (#[trigger] old(self).jobs()[k]).id == job_id
                        && JobStage::spec_allowed_transition(old(self).jobs()[k].stage, stage)
                        && final(self).jobs() == old(self).jobs().update(
                        k,
                        restaged(old(self).jobs()[k], stage, now),
                    ),
                Err(QueueError::NotFound) => !has_job_id(old(self).jobs(), job_id) && final(self).jobs() == old(self).jobs(),
                Err(QueueError::Conflict) => final(self).jobs() == old(self).jobs() && exists|
                    k: int,
                |
                    0 <= k < old(self).jobs().len() && (#[trigger] old(self).jobs()[k]).id == job_id
                        && !JobStage::spec_allowed_transition(old(self).jobs()[k].stage, stage),
                Err(QueueError::Storage) => false,
            },
    {
        let found = self.find_index(job_id);
        match found {
            None => Err(QueueError::NotFound),
            Some(k) => {
                if !JobStage::allowed_transition(self.jobs[k].stage, stage) {
                    return Err(QueueError::Conflict);
                }
                let mut j = self.jobs[k].clone();
                j.stage = stage;
                j.updated_at = now;
                if stage.is_terminal() {
                    j.completed_at = Some(now);
                }
                proof {
                    assert(j == restaged(old(self).jobs()[k as int], stage, now));
                    lemma_update_preserves_uniq(old(self).jobs(), k as int, j);
                }
                self.jobs[k] = j;
                Ok(())
            },
        }
    }

    /// Marks the job failed and records the error message. The job's current
    /// stage must have a `failed` edge in the stage graph.
    pub fn fail_job(&mut self, job_id: i64, error: &str, now: i64) -> (r: Result<(), QueueError>)
        requires
            old(self).wf(),
        ensures
            final(self).wf(),
            stages_follow_graph(old(self).jobs(), final(self).jobs()),
            final(self).animes() == old(self).animes(),
            final(self).selections() == old(self).selections(),
            final(self).next_job_id() == old(self).next_job_id(),
            final(self).default_max_retries() == old(self).default_max_retries(),
            match r {
                Ok(_) => exists|k: int, m: String|
                    0 <= k < old(self).jobs().len() && old(self).jobs()[k].id == job_id
                        && JobStage::spec_allowed_transition(
                        old(self).jobs()[k].stage,
                        JobStage::Failed,
                    ) && m@ == error@ && final(self).jobs() == old(self).jobs().update(
                        k,
                        #[trigger] failed_job(old(self).jobs()[k], m, now),
                    ),
                Err(QueueError::NotFound) => !has_job_id(old(self).jobs(), job_id) && final(self).jobs() == old(self).jobs(),
                Err(QueueError::Conflict) => final(self).jobs() == old(self).jobs() && exists|
                    k: int,
                |
                    0 <= k < old(self).jobs().len() && (#[trigger] old(self).jobs()[k]).id == job_id
                        && !JobStage::spec_allowed_transition(
                        old(self).jobs()[k].stage,
                        JobStage::Failed,
                    ),
                Err(QueueError::Storage) => false,
            },
    {
        let found = self.find_index(job_id);
        match found {
            None => Err(QueueError::NotFound),
            Some(k) => {
                if !JobStage::allowed_transition(self.jobs[k].stage, JobStage::Failed) {
                    return Err(QueueError::Conflict);
                }
                let mut j = self.jobs[k].clone();
                let msg = <String as vstd::string::StringExecFns>::from_str(error);
                let ghost gmsg = msg;
                j.stage = JobStage::Failed;
                j.error_message = Some(msg);
                j.updated_at = now;
                j.completed_at = Some(now);
                proof {
                    assert(j == failed_job(old(self).jobs()[k as int], gmsg, now));
                    lemma_update_preserves_uniq(old(self).jobs(), k as int, j);
                }
                self.jobs[k] = j;
                Ok(())
            },
        }
    }

    /// Adds one to the job's retry count; refused once the count has reached
    /// the limit, so `retry_count <= max_retries` always holds.
    pub fn increment_retry(&mut self, job_id: i64, now: i64) -> (r: Result<(), QueueError>)
        requires
            old(self).wf(),
        ensures
            final(self).wf(),
            stages_follow_graph(old(self).jobs(), final(self).jobs()),
            final(self).animes() == old(self).animes(),
            final(self).selections() == old(self).selections(),
            final(self).next_job_id() == old(self).next_job_id(),
            final(self).default_max_retries() == old(self).default_max_retries(),
            match r {
                Ok(_) => exists|k: int|
                    0 <= k < old(self).jobs().len() && (#[trigger] old(self).jobs()[k]).id == job_id
                        && old(self).jobs()[k].retry_count < old(self).jobs()[k].max_retries
                        && final(self).jobs() == old(self).jobs().update(
                        k,
                        Job {
                            retry_count: (old(self).jobs()[k].retry_count + 1) as u32,
                            updated_at: now,
                            ..old(self).jobs()[k]
                        },
                    ),
                Err(QueueError::NotFound) => !has_job_id(old(self).jobs(), job_id) && final(self).jobs() == old(self).jobs(),
                Err(QueueError::Conflict) => final(self).jobs() == old(self).jobs() && exists|
                    k: int,
                |
                    0 <= k < old(self).jobs().len() && (#[trigger] old(self).jobs()[k]).id == job_id
                        && old(self).jobs()[k].retry_count == old(self).jobs()[k].max_retries,
                Err(QueueError::Storage) => false,
            },
    {
        let found = self.find_index(job_id);
        match found {
            None => Err(QueueError::NotFound),
            Some(k) => {
                if self.jobs[k].retry_count >= self.jobs[k].max_retries {
                    return Err(QueueError::Conflict);
                }
                let mut j = self.jobs[k].clone();
                j.retry_count = j.retry_count + 1;
                j.updated_at = now;
                proof {
                    lemma_update_preserves_uniq(old(self).jobs(), k as int, j);
                }
                self.jobs[k] = j;
                Ok(())
            },
        }
    }

    /// Updates the job's progress, and optionally its stage along a graph
    /// edge.
    pub fn update_progress(
        &mut self,
        job_id: i64,
        progress_permille: u32,
        stage: Option<JobStage>,
        now: i64,
    ) -> (r: Result<(), QueueError>)
        requires
            old(self).wf(),
            progress_permille <= 1000,
        ensures
            final(self).wf(),
            stages_follow_graph(old(self).jobs(), final(self).jobs()),
            final(self).animes() == old(self).animes(),
            final(self).selections() == old(self).selections(),
            final(self).next_job_id() == old(self).next_job_id(),
            final(self).default_max_retries() == old(self).default_max_retries(),
            match r {
                Ok(_) => exists|k: int|
                    0 <= k < old(self).jobs().len() && (#[trigger] old(self).jobs()[k]).id == job_id
                        && match stage {
                        Some(st) => JobStage::spec_allowed_transition(
                            old(self).jobs()[k].stage,
                            st,
                        ) && final(self).jobs() == old(self).jobs().update(
                            k,
                            Job {
                                progress_permille,
                                ..restaged(old(self).jobs()[k], st, now)
                            },
                        ),
                        None => final(self).jobs() == old(self).jobs().update(
                            k,
                            Job { progress_permille, updated_at: now, ..old(self).jobs()[k] },
                        ),
                    },
                Err(QueueError::NotFound) => !has_job_id(old(self).jobs(), job_id) && final(self).jobs() == old(self).jobs(),
                Err(QueueError::Conflict) => final(self).jobs() == old(self).jobs() && (stage
                    matches Some(st) && exists|k: int|
                    0 <= k < old(self).jobs().len() && (#[trigger] old(self).jobs()[k]).id == job_id
                        && !JobStage::spec_allowed_transition(old(self).jobs()[k].stage, st)),
                Err(QueueError::Storage) => false,
            },
    {
        let found = self.find_index(job_id);
        match found {
            None => Err(QueueError::NotFound),
            Some(k) => {
                let mut j = self.jobs[k].clone();
                match stage {
                    Some(st) => {
                        if !JobStage::allowed_transition(self.jobs[k].stage, st) {
                            return Err(QueueError::Conflict);
                        }
                        j.stage = st;
                        j.updated_at = now;
                        if st.is_terminal() {
                            j.completed_at = Some(now);
                        }
                        j.progress_permille = progress_permille;
                        proof {
                            assert(j == Job {
                                progress_permille,
                                ..restaged(old(self).jobs()[k as int], st, now)
                            });
                        }
                    },
                    None => {
                        j.progress_permille = progress_permille;
                        j.updated_at = now;
                    },
                }
                proof {
                    lemma_update_preserves_uniq(old(self).jobs(), k as int, j);
                }
                self.jobs[k] = j;
                Ok(())
            },
        }
    }

    /// Writes the fields present in the metadata update and leaves every
    /// other field of the job alone.
    #[verifier::rlimit(60)]
    pub fn update_metadata(&mut self, job_id: i64, metadata: &JobMetadata, now: i64) -> (r: Result<
        (),
        QueueError,
    >)
        requires
            old(self).wf(),
        ensures
            final(self).wf(),
            stages_follow_graph(old(self).jobs(), final(self).jobs()),
            final(self).animes() == old(self).animes(),
            final(self).selections() == old(self).selections(),
            final(self).next_job_id() == old(self).next_job_id(),
            final(self).default_max_retries() == old(self).default_max_retries(),
            match r {
                Ok(_) => exists|k: int, vp: Option<String>, tp: Option<String>, kp: Option<String>|
                    0 <= k < old(self).jobs().len() && old(self).jobs()[k].id == job_id
                        && opt_patched(vp, old(self).jobs()[k].video_path, metadata.video_path)
                        && opt_patched(
                        tp,
                        old(self).jobs()[k].transcript_path,
                        metadata.transcript_path,
                    ) && opt_patched(kp, old(self).jobs()[k].tokens_path, metadata.tokens_path)
                        && final(self).jobs() == old(self).jobs().update(
                        k,
                        #[trigger] meta_patched(old(self).jobs()[k], *metadata, vp, tp, kp),
                    ),
                Err(QueueError::NotFound) => !has_job_id(old(self).jobs(), job_id) && final(self).jobs() == old(self).jobs(),
                _ => false,
            },
    {
        let found = self.find_index(job_id);
        match found {
            None => Err(QueueError::NotFound),
            Some(k) => {
                let mut j = self.jobs[k].clone();
                if let Some(v) = metadata.video_size_bytes {
                    j.video_size_bytes = Some(v);
                }
                if let Some(v) = metadata.audio_size_bytes {
                    j.audio_size_bytes = Some(v);
                }
                if let Some(v) = metadata.transcript_size_bytes {
                    j.transcript_size_bytes = Some(v);
                }
                if let Some(v) = metadata.tokens_size_bytes {
                    j.tokens_size_bytes = Some(v);
                }
                if let Some(v) = metadata.duration_seconds {
                    j.duration_seconds = Some(v);
                }
                if let Some(v) = metadata.word_count {
                    j.word_count = Some(v);
                }
                if let Some(v) = metadata.token_count {
                    j.token_count = Some(v);
                }
                if metadata.video_path.is_some() {
                    j.video_path = clone_opt_string(&metadata.video_path);
                }
                if metadata.transcript_path.is_some() {
                    j.transcript_path = clone_opt_string(&metadata.transcript_path);
                }
                if metadata.tokens_path.is_some() {
                    j.tokens_path = clone_opt_string(&metadata.tokens_path);
                }
                proof {
                    lemma_update_preserves_uniq(old(self).jobs(), k as int, j);
                    assert(j == meta_patched(
                        old(self).jobs()[k as int],
                        *metadata,
                        j.video_path,
                        j.transcript_path,
                        j.tokens_path,
                    ));
                }
                self.jobs[k] = j;
                Ok(())
            },
        }
    }

    /// Sets the deletion flag of the given artifact kind.
    pub fn mark_file_deleted(&mut self, job_id: i64, file_type: FileType, now: i64) -> (r: Result<
        (),
        QueueError,
    >)
        requires
            old(self).wf(),
        ensures
            final(self).wf(),
            stages_follow_graph(old(self).jobs(), final(self).jobs()),
            final(self).animes() == old(self).animes(),
            final(self).selections() == old(self).selections(),
            final(self).next_job_id() == old(self).next_job_id(),
            final(self).default_max_retries() == old(self).default_max_retries(),
            match r {
                Ok(_) => exists|k: int|
                    0 <= k < old(self).jobs().len() && (#[trigger] old(self).jobs()[k]).id == job_id
                        && final(self).jobs() == old(self).jobs().update(
                        k,
                        if file_type == FileType::Video {
                            Job { video_deleted: true, updated_at: now, ..old(self).jobs()[k] }
                        } else {
                            Job { audio_deleted: true, updated_at: now, ..old(self).jobs()[k] }
                        },
                    ),
                Err(QueueError::NotFound) => !has_job_id(old(self).jobs(), job_id) && final(self).jobs() == old(self).jobs(),
                _ => false,
            },
    {
        let found = self.find_index(job_id);
        match found {
            None => Err(QueueError::NotFound),
            Some(k) => {
                let mut j = self.jobs[k].clone();
                match file_type {
                    FileType::Video => {
                        j.video_deleted = true;
                    },
                    FileType::Audio => {
                        j.audio_deleted = true;
                    },
                }
                j.updated_at = now;
                proof {
                    lemma_update_preserves_uniq(old(self).jobs(), k as int, j);
                }
                self.jobs[k] = j;
                Ok(())
            },
        }
    }

    /// Resets every failed job that is still under its retry limit back to
    /// `queued`, clearing its error and progress; returns how many were
    /// reset.
    pub fn retry_failed(&mut self, now: i64) -> (r: usize)
        requires
            old(self).wf(),
        ensures
            final(self).wf(),
            stages_follow_graph(old(self).jobs(), final(self).jobs()),
            final(self).animes() == old(self).animes(),
            final(self).selections() == old(self).selections(),
            final(self).next_job_id() == old(self).next_job_id(),
            final(self).default_max_retries() == old(self).default_max_retries(),
            final(self).jobs().len() == old(self).jobs().len(),
            forall|k: int|
                0 <= k < old(self).jobs().len() ==> #[trigger] final(self).jobs()[k] == if retry_eligible(
                    old(self).jobs()[k],
                ) {
                    requeued(old(self).jobs()[k], now)
                } else {
                    old(self).jobs()[k]
                },
            r == count_jobs(old(self).jobs(), |j: Job| retry_eligible(j)),
    {
        let n = self.jobs.len();
        let mut count: usize = 0;
        let mut i: usize = 0;
        proof {
            assert(old(self).jobs().subrange(0, 0) =~= Seq::<Job>::empty());
        }
        while i < n
            invariant
                old(self).wf(),
                n == old(self).jobs().len(),
                self.jobs@.len() == n,
                i <= n,
                self.animes@ == old(self).animes@,
                self.selections@ == old(self).selections@,
                self.next_job_id == old(self).next_job_id,
                self.next_anime_id == old(self).next_anime_id,
                self.default_max_retries == old(self).default_max_retries,
                count <= i,
                count == count_jobs(old(self).jobs().subrange(0, i as int), |j: Job| retry_eligible(j)),
                forall|k: int|
                    0 <= k < i ==> #[trigger] self.jobs@[k] == if retry_eligible(
                        old(self).jobs()[k],
                    ) {
                        requeued(old(self).jobs()[k], now)
                    } else {
                        old(self).jobs()[k]
                    },
                forall|k: int| i <= k < n ==> #[trigger] self.jobs@[k] == old(self).jobs()[k],
            decreases n - i,
        {
            proof {
                lemma_count_take_step(old(self).jobs(), |j: Job| retry_eligible(j), i as int);
            }
            let eligible = self.jobs[i].stage == JobStage::Failed && self.jobs[i].retry_count
                < self.jobs[i].max_retries;
            if eligible {
                let mut j = self.jobs[i].clone();
                j.stage = JobStage::Queued;
                j.error_message = None;
                j.progress_permille = 0;
                j.updated_at = now;
                self.jobs[i] = j;
                count = count + 1;
            }
            i = i + 1;
        }
        proof {
            assert(old(self).jobs().subrange(0, n as int) =~= old(self).jobs());
            assert forall|p: int, q: int| 0 <= p < q < self.jobs@.len() implies !same_key(
                #[trigger] self.jobs@[p],
                #[trigger] self.jobs@[q],
            ) && self.jobs@[p].id != self.jobs@[q].id by {
                assert(!same_key(old(self).jobs()[p], old(self).jobs()[q]));
                assert(old(self).jobs()[p].id != old(self).jobs()[q].id);
            }
        }
        count
    }

    /// Counts of jobs by stage.
    pub fn get_stats(&self) -> (r: JobStats)
        ensures
            r.total == self.jobs().len(),
            r.queued == count_jobs(self.jobs(), |j: Job| j.stage == JobStage::Queued),
            r.downloading == count_jobs(self.jobs(), |j: Job| j.stage == JobStage::Downloading),
            r.downloaded == count_jobs(self.jobs(), |j: Job| j.stage == JobStage::Downloaded),
            r.transcribing == count_jobs(self.jobs(), |j: Job| j.stage == JobStage::Transcribing),
            r.transcribed == count_jobs(self.jobs(), |j: Job| j.stage == JobStage::Transcribed),
            r.tokenizing == count_jobs(self.jobs(), |j: Job| j.stage == JobStage::Tokenizing),
            r.tokenized == count_jobs(self.jobs(), |j: Job| j.stage == JobStage::Tokenized),
            r.analyzing == count_jobs(self.jobs(), |j: Job| j.stage == JobStage::Analyzing),
            r.complete == count_jobs(self.jobs(), |j: Job| j.stage == JobStage::Complete),
            r.failed == count_jobs(self.jobs(), |j: Job| j.stage == JobStage::Failed),
    {
        let n = self.jobs.len();
        let mut stats = JobStats {
            total: n,
            queued: 0,
            downloading: 0,
            downloaded: 0,
            transcribing: 0,
            transcribed: 0,
            tokenizing: 0,
            tokenized: 0,
            analyzing: 0,
            complete: 0,
            failed: 0,
        };
        let mut i: usize = 0;
        proof {
            assert(self.jobs().subrange(0, 0) =~= Seq::<Job>::empty());
        }
        while i < n
            invariant
                n == self.jobs@.len(),
                i <= n,
                stats.total == n,
                stats.queued <= i && stats.queued == count_jobs(
                    self.jobs@.subrange(0, i as int),
                    |j: Job| j.stage == JobStage::Queued,
                ),
                stats.downloading <= i && stats.downloading == count_jobs(
                    self.jobs@.subrange(0, i as int),
                    |j: Job| j.stage == JobStage::Downloading,
                ),
                stats.downloaded <= i && stats.downloaded == count_jobs(
                    self.jobs@.subrange(0, i as int),
                    |j: Job| j.stage == JobStage::Downloaded,
                ),
                stats.transcribing <= i && stats.transcribing == count_jobs(
                    self.jobs@.subrange(0, i as int),
                    |j: Job| j.stage == JobStage::Transcribing,
                ),
                stats.transcribed <= i && stats.transcribed == count_jobs(
                    self.jobs@.subrange(0, i as int),
                    |j: Job| j.stage == JobStage::Transcribed,
                ),
                stats.tokenizing <= i && stats.tokenizing == count_jobs(
                    self.jobs@.subrange(0, i as int),
                    |j: Job| j.stage == JobStage::Tokenizing,
                ),
                stats.tokenized <= i && stats.tokenized == count_jobs(
                    self.jobs@.subrange(0, i as int),
                    |j: Job| j.stage == JobStage::Tokenized,
                ),
                stats.analyzing <= i && stats.analyzing == count_jobs(
                    self.jobs@.subrange(0, i as int),
                    |j: Job| j.stage == JobStage::Analyzing,
                ),
                stats.complete <= i && stats.complete == count_jobs(
                    self.jobs@.subrange(0, i as int),
                    |j: Job| j.stage == JobStage::Complete,
                ),
                stats.failed <= i && stats.failed == count_jobs(
                    self.jobs@.subrange(0, i as int),
                    |j: Job| j.stage == JobStage::Failed,
                ),
            decreases n - i,
        {
            proof {
                lemma_count_take_step(self.jobs@, |j: Job| j.stage == JobStage::Queued, i as int);
                lemma_count_take_step(
                    self.jobs@,
                    |j: Job| j.stage == JobStage::Downloading,
                    i as int,
                );
                lemma_count_take_step(
                    self.jobs@,
                    |j: Job| j.stage == JobStage::Downloaded,
                    i as int,
                );
                lemma_count_take_step(
                    self.jobs@,
                    |j: Job| j.stage == JobStage::Transcribing,
                    i as int,
                );
                lemma_count_take_step(
                    self.jobs@,
                    |j: Job| j.stage == JobStage::Transcribed,
                    i as int,
                );
                lemma_count_take_step(
                    self.jobs@,
                    |j: Job| j.stage == JobStage::Tokenizing,
                    i as int,
                );
                lemma_count_take_step(
                    self.jobs@,
                    |j: Job| j.stage == JobStage::Tokenized,
                    i as int,
                );
                lemma_count_take_step(
                    self.jobs@,
                    |j: Job| j.stage == JobStage::Analyzing,
                    i as int,
                );
                lemma_count_take_step(
                    self.jobs@,
                    |j: Job| j.stage == JobStage::Complete,
                    i as int,
                );
                lemma_count_take_step(self.jobs@, |j: Job| j.stage == JobStage::Failed, i as int);
            }
            match self.jobs[i].stage {
                JobStage::Queued => {
                    stats.queued = stats.queued + 1;
                },
                JobStage::Downloading => {
                    stats.downloading = stats.downloading + 1;
                },
                JobStage::Downloaded => {
                    stats.downloaded = stats.downloaded + 1;
                },
                JobStage::Transcribing => {
                    stats.transcribing = stats.transcribing + 1;
                },
                JobStage::Transcribed => {
                    stats.transcribed = stats.transcribed + 1;
                },
                JobStage::Tokenizing => {
                    stats.tokenizing = stats.tokenizing + 1;
                },
                JobStage::Tokenized => {
                    stats.tokenized = stats.tokenized + 1;
                },
                JobStage::Analyzing => {
                    stats.analyzing = stats.analyzing + 1;
                },
                JobStage::Complete => {
                    stats.complete = stats.complete + 1;
                },
                JobStage::Failed => {
                    stats.failed = stats.failed + 1;
                },
            }
            i = i + 1;
        }
        proof {
            assert(self.jobs@.subrange(0, n as int) =~= self.jobs@);
        }
        stats
    }

    /// All job records, in the display order of the queue: highest priority
    /// first, ties by earliest creation.
    pub fn get_all_jobs(&self) -> (r: Vec<Job>)
        ensures
            r@.to_multiset() == self.jobs().to_multiset(),
            display_sorted(r@),
    {
        let n = self.jobs.len();
        let mut out: Vec<Job> = Vec::new();
        let mut i: usize = 0;
        proof {
            assert(self.jobs@.subrange(0, 0) =~= Seq::<Job>::empty());
            assert(out@.to_multiset() =~= Seq::<Job>::empty().to_multiset());
        }
        while i < n
            invariant
                n == self.jobs@.len(),
                i <= n,
                out@.to_multiset() == self.jobs@.subrange(0, i as int).to_multiset(),
                display_sorted(out@),
            decreases n - i,
        {
            proof {
                broadcast use vstd::seq_lib::group_to_multiset_ensures;

                assert(self.jobs@.subrange(0, i + 1) =~= self.jobs@.subrange(0, i as int).push(
                    self.jobs@[i as int],
                ));
            }
            let j = self.jobs[i].clone();
            sorted_insert(&mut out, j);
            i = i + 1;
        }
        proof {
            assert(self.jobs@.subrange(0, n as int) =~= self.jobs@);
        }
        out
    }

    /// The job records currently in the given stage, in the same display
    /// order.
    pub fn get_jobs_by_stage(&self, stage: JobStage) -> (r: Vec<Job>)
        ensures
            r@.to_multiset() == self.jobs().filter(|j: Job| j.stage == stage).to_multiset(),
            display_sorted(r@),
    {
        let n = self.jobs.len();
        let mut out: Vec<Job> = Vec::new();
        let mut i: usize = 0;
        proof {
            assert(self.jobs@.subrange(0, 0) =~= Seq::<Job>::empty());
            assert(Seq::<Job>::empty().filter(|j: Job| j.stage == stage) =~= Seq::<Job>::empty());
            assert(out@.to_multiset() =~= Seq::<Job>::empty().to_multiset());
        }
        while i < n
            invariant
                n == self.jobs@.len(),
                i <= n,
                out@.to_multiset() == self.jobs@.subrange(0, i as int).filter(
                    |j: Job| j.stage == stage,
                ).to_multiset(),
                display_sorted(out@),
            decreases n - i,
        {
            proof {
                crate::text::lemma_filter_take_step(self.jobs@, |j: Job| j.stage == stage, i as int);
                broadcast use vstd::seq_lib::group_to_multiset_ensures;
            }
            if self.jobs[i].stage == stage {
                let j = self.jobs[i].clone();
                sorted_insert(&mut out, j);
            }
            i = i + 1;
        }
        proof {
            assert(self.jobs@.subrange(0, n as int) =~= self.jobs@);
        }
        out
    }

    /// Looks up a series by catalog id, inserting it when absent; returns
    /// its store id either way.
    pub fn get_or_create_anime(&mut self, anime: &Anime) -> (r: Result<i64, QueueError>)
        requires
            old(self).wf(),
        ensures
            final(self).wf(),
            final(self).jobs() == old(self).jobs(),
            final(self).selections() == old(self).selections(),
            final(self).next_job_id() == old(self).next_job_id(),
            final(self).default_max_retries() == old(self).default_max_retries(),
            match r {
                Ok(id) => {
                    if exists|k: int|
                        0 <= k < old(self).animes().len() && (#[trigger] old(self).animes()[k]).mal_id == anime.mal_id {
                        &&& final(self).animes() == old(self).animes()
                        &&& final(self).next_anime_id() == old(self).next_anime_id()
                        &&& exists|k: int|
                            0 <= k < old(self).animes().len() && (#[trigger] old(self).animes()[k]).mal_id == anime.mal_id && old(self).animes()[k].id
                                == Some(id)
                    } else {
                        &&& id == old(self).next_anime_id()
                        &&& final(self).animes().len() == old(self).animes().len() + 1
                        &&& final(self).animes().subrange(0, old(self).animes().len() as int)
                            == old(self).animes()
                        &&& same_anime(
                            final(self).animes().last(),
                            Anime { id: Some(id), ..*anime },
                        )
                        &&& final(self).next_anime_id() == old(self).next_anime_id() + 1
                    }
                },
                Err(e) => {
                    &&& e == QueueError::Storage
                    &&& final(self).animes() == old(self).animes()
                    &&& final(self).next_anime_id() == old(self).next_anime_id()
                    &&& old(self).next_anime_id() == i64::MAX
                },
            },
    {
        let n = self.animes.len();
        let mut i: usize = 0;
        while i < n
            invariant
                *self == *old(self),
                old(self).wf(),
                n == self.animes@.len(),
                i <= n,
                forall|k: int| 0 <= k < i ==> (#[trigger] self.animes@[k]).mal_id != anime.mal_id,
            decreases n - i,
        {
            if self.animes[i].mal_id == anime.mal_id {
                let stored = &self.animes[i];
                match stored.id {
                    Some(id) => {
                        return Ok(id);
                    },
                    None => {
                        return Err(QueueError::Storage);
                    },
                }
            }
            i = i + 1;
        }
        if self.next_anime_id == i64::MAX {
            return Err(QueueError::Storage);
        }
        let id = self.next_anime_id;
        let mut stored = anime.clone();
        stored.id = Some(id);
        let ghost before = self.animes@;
        self.animes.push(stored);
        self.next_anime_id = id + 1;
        proof {
            assert(final(self).animes().subrange(0, before.len() as int) =~= before);
        }
        Ok(id)
    }

    /// The cached selections made with low confidence, for operator review,
    /// in cache order.
    pub fn low_confidence_selections(&self) -> (r: Vec<SelectionRow>)
        ensures
            r@ == self.selections().filter(|s: SelectionRow| s.confidence == Confidence::Low),
    {
        let n = self.selections.len();
        let mut out: Vec<SelectionRow> = Vec::new();
        let mut i: usize = 0;
        proof {
            assert(self.selections@.subrange(0, 0) =~= Seq::<SelectionRow>::empty());
            assert(Seq::<SelectionRow>::empty().filter(
                |s: SelectionRow| s.confidence == Confidence::Low,
            ) =~= Seq::<SelectionRow>::empty());
        }
        while i < n
            invariant
                n == self.selections@.len(),
                i <= n,
                out@ == self.selections@.subrange(0, i as int).filter(
                    |s: SelectionRow| s.confidence == Confidence::Low,
                ),
            decreases n - i,
        {
            proof {
                crate::text::lemma_filter_take_step(
                    self.selections@,
                    |s: SelectionRow| s.confidence == Confidence::Low,
                    i as int,
                );
            }
            if self.selections[i].confidence == Confidence::Low {
                out.push(self.selections[i].clone());
            }
            i = i + 1;
        }
        proof {
            assert(self.selections@.subrange(0, n as int) =~= self.selections@);
        }
        out
    }

    /// Stores a title selection for a series, replacing any earlier row for
    /// the same catalog id.
    pub fn cache_selection(&mut self, row: SelectionRow)
        requires
            old(self).wf(),
        ensures
            final(self).wf(),
            final(self).jobs() == old(self).jobs(),
            final(self).animes() == old(self).animes(),
            final(self).next_job_id() == old(self).next_job_id(),
            final(self).next_anime_id() == old(self).next_anime_id(),
            final(self).default_max_retries() == old(self).default_max_retries(),
            if exists|k: int|
                0 <= k < old(self).selections().len() && (#[trigger] old(self).selections()[k]).mal_id == row.mal_id {
                exists|k: int|
                    0 <= k < old(self).selections().len() && (#[trigger] old(self).selections()[k]).mal_id == row.mal_id && final(self).selections() == old(self).selections().update(k, row)
            } else {
                final(self).selections() == old(self).selections().push(row)
            },
    {
        let n = self.selections.len();
        let mut i: usize = 0;
        while i < n
            invariant
                *self == *old(self),
                old(self).wf(),
                n == self.selections@.len(),
                i <= n,
                forall|k: int|
                    0 <= k < i ==> (#[trigger] self.selections@[k]).mal_id != row.mal_id,
            decreases n - i,
        {
            if self.selections[i].mal_id == row.mal_id {
                proof {
                    assert forall|p: int, q: int|
                        0 <= p < q < self.selections@.update(i as int, row).len() implies (
                    #[trigger] self.selections@.update(i as int, row)[p]).mal_id != (
                    #[trigger] self.selections@.update(i as int, row)[q]).mal_id by {
                        assert(self.selections@[p].mal_id != self.selections@[q].mal_id);
                    }
                }
                self.selections[i] = row;
                return ;
            }
            i = i + 1;
        }
        self.selections.push(row);
    }

    /// The cached title selection for a series, if one exists.
    pub fn get_selection(&self, mal_id: u32) -> (r: Option<AnimeSelection>)
        ensures
            match r {
                None => forall|k: int|
                    0 <= k < self.selections().len() ==> (#[trigger] self.selections()[k]).mal_id
                        != mal_id,
                Some(sel) => exists|k: int|
                    0 <= k < self.selections().len() && (#[trigger] self.selections()[k]).mal_id
                        == mal_id && sel.selected_index == self.selections()[k].selected_index
                        && sel.selected_title@ == self.selections()[k].selected_title@
                        && sel.confidence == self.selections()[k].confidence && (match self.selections()[k].reason {
                        Some(s) => sel.reason@ == s@,
                        None => sel.reason@ == Seq::<char>::empty(),
                    }),
            },
    {
        let n = self.selections.len();
        let mut i: usize = 0;
        while i < n
            invariant
                n == self.selections@.len(),
                i <= n,
                forall|k: int|
                    0 <= k < i ==> (#[trigger] self.selections@[k]).mal_id != mal_id,
            decreases n - i,
        {
            if self.selections[i].mal_id == mal_id {
                let row = &self.selections[i];
                let reason = match &row.reason {
                    Some(s) => s.clone(),
                    None => String::new(),
                };
                return Some(
                    AnimeSelection {
                        selected_index: row.selected_index,
                        selected_title: row.selected_title.clone(),
                        confidence: row.confidence,
                        reason,
                    },
                );
            }
            i = i + 1;
        }
        None
    }
}

/// Law: enqueueing the same (series, episode) again yields the id of the job
/// the first enqueue created, and creates no duplicate. After a fresh
/// enqueue appended its record, the key is present and every job carrying it
/// bears that record's id, so by `enqueue`'s contract a second enqueue of
/// the key returns the same id and leaves the store unchanged.
pub proof fn lemma_enqueue_idempotent(jobs: Seq<Job>, nj: NewJob, id: i64, now: i64, mr: u32)
    requires
        !has_key(jobs, nj.anime_id, nj.episode),
    ensures
        has_key(jobs.push(fresh_job(nj, id, now, mr)), nj.anime_id, nj.episode),
        forall|k: int|
            0 <= k < jobs.push(fresh_job(nj, id, now, mr)).len() && (#[trigger] jobs.push(
                fresh_job(nj, id, now, mr),
            )[k]).anime_id == nj.anime_id && jobs.push(fresh_job(nj, id, now, mr))[k].episode
                == nj.episode ==> jobs.push(fresh_job(nj, id, now, mr))[k].id == id,
{
    let post = jobs.push(fresh_job(nj, id, now, mr));
    assert(post[jobs.len() as int].anime_id == nj.anime_id);
    assert(post[jobs.len() as int].episode == nj.episode);
    assert forall|k: int|
        0 <= k < post.len() && (#[trigger] post[k]).anime_id == nj.anime_id && post[k].episode
            == nj.episode implies post[k].id == id by {
        if k < jobs.len() {
            assert(jobs[k].anime_id == nj.anime_id && jobs[k].episode == nj.episode);
            assert(has_key(jobs, nj.anime_id, nj.episode));
        }
    }
}

/// Law: the natural key (series, episode) stays unique. Every queue
/// operation requires a well-formed store and ensures one again, and
/// well-formedness contains `keys_unique` — so over any sequence of queue
/// operations, however worker calls interleave behind the store lock, no
/// two jobs ever share a key.
pub proof fn lemma_keys_stay_unique(q: JobQueue)
    requires
        q.wf(),
    ensures
        keys_unique(q.jobs()),
{
}

/// Law: `retry_count` never exceeds `max_retries`. The bound is part of
/// well-formedness, which every operation preserves: `increment_retry`
/// refuses the step at the limit, and a failure at the limit moves the job
/// to `failed` instead.
pub proof fn lemma_retries_bounded(q: JobQueue, k: int)
    requires
        q.wf(),
        0 <= k < q.jobs().len(),
    ensures
        q.jobs()[k].retry_count <= q.jobs()[k].max_retries,
{
}

/// Law: a job's stage trajectory is a path in the stage graph. Every queue
/// operation ensures `stages_follow_graph` between the store before and
/// after, so over any history of store states produced by queue operations,
/// a job either keeps its stage or moves along one graph edge at every
/// step — no other transition ever occurs.
pub proof fn lemma_history_is_graph_path(history: Seq<Seq<Job>>, t: int, k: int)
    requires
        forall|i: int|
            0 <= i < history.len() - 1 ==> stages_follow_graph(
                #[trigger] history[i],
                history[i + 1],
            ),
        0 <= t < history.len() - 1,
        0 <= k < history[t].len(),
    ensures
        history[t + 1][k].stage == history[t][k].stage || JobStage::spec_allowed_transition(
            history[t][k].stage,
            history[t + 1][k].stage,
        ),
{
    assert(stages_follow_graph(history[t], history[t + 1]));
}

/// Law: a drained stage stays drained. Once no job is left in a worker's
/// input stage, a dequeue for that stage reports the end of the queue and
/// changes nothing — so re-running a finished worker leaves every job's
/// stage as it was.
pub proof fn lemma_drained_stage_stable(
    before: Seq<Job>,
    after: Seq<Job>,
    from: JobStage,
    to: JobStage,
    filt: Option<u32>,
    now: i64,
    r: Result<Option<Job>, QueueError>,
)
    requires
        JobStage::spec_allowed_transition(from, to),
        !has_candidate(before, from, filt),
        dequeue_outcome(before, after, from, to, filt, now, r),
    ensures
        after == before,
        r == Ok::<Option<Job>, QueueError>(None::<Job>),
{
}

/// What a dequeue did, as a relation between the store before and after:
/// refused off-graph steps, no candidate means no change, and otherwise the
/// chosen job — and nothing else — advanced.
pub open spec fn dequeue_outcome(
    before: Seq<Job>,
    after: Seq<Job>,
    from: JobStage,
    to: JobStage,
    filt: Option<u32>,
    now: i64,
    r: Result<Option<Job>, QueueError>,
) -> bool {
    if !JobStage::spec_allowed_transition(from, to) {
        r == Err::<Option<Job>, QueueError>(QueueError::Conflict) && after == before
    } else if !has_candidate(before, from, filt) {
        r == Ok::<Option<Job>, QueueError>(None::<Job>) && after == before
    } else {
        match r {
            Ok(Some(j)) => exists|bi: int|
                #[trigger] is_dequeue_choice(before, from, filt, bi) && j == advanced(
                    before[bi],
                    to,
                    now,
                ) && after == before.update(bi, advanced(before[bi], to, now)),
            _ => false,
        }
    }
}

} // verus!
