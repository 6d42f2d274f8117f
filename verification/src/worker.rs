//! Worker-pool decision logic shared by every stage worker.
//!
//! A stage worker dequeues a job, lets an external tool produce the
//! artifact, and then persists the outcome: on success it writes the
//! artifact metadata and advances the job; on failure it either re-enqueues
//! the job with one more retry or marks it failed once the retries are
//! exhausted.

use vstd::prelude::*;

use crate::model::Job;
use crate::model::JobMetadata;
use crate::queue::JobQueue;
use crate::queue::QueueError;
use crate::queue::failed_job;
use crate::queue::has_job_id;
use crate::queue::lemma_id_index_unique;
use crate::queue::meta_patched;
use crate::queue::opt_patched;
use crate::queue::restaged;
use crate::queue::stages_follow_graph;
use crate::stage::JobStage;

verus! {

/// How a worker resolves a finished tool invocation.
#[derive(Debug, Clone, Copy, PartialEq, Eq, Structural)]
pub enum WorkerResolution {
    /// The artifact exists: record it and advance the job.
    Advance,
    /// The tool failed and retries remain: re-enqueue with one more retry.
    Retry,
    /// The tool failed and retries are exhausted: mark the job failed.
    Fail,
}

/// The record after a retried failure: one more retry, back at the input
/// stage, with the update time stamped.
pub open spec fn retried_job(j: Job, input_stage: JobStage, now: i64) -> Job {
    restaged(
        Job { retry_count: (j.retry_count + 1) as u32, updated_at: now, ..j },
        input_stage,
        now,
    )
}

/// The retry policy: success advances; a failure retries while
/// `retry_count < max_retries` and otherwise fails the job for good.
pub open spec fn spec_settle(j: Job, succeeded: bool) -> WorkerResolution {
    if succeeded {
        WorkerResolution::Advance
    } else if j.retry_count < j.max_retries {
        WorkerResolution::Retry
    } else {
        WorkerResolution::Fail
    }
}

/// How the worker must resolve the outcome of one tool run on this job.
pub fn settle(job: &Job, succeeded: bool) -> (r: WorkerResolution)
    ensures
        r == spec_settle(*job, succeeded),
{
    if succeeded {
        WorkerResolution::Advance
    } else if job.retry_count < job.max_retries {
        WorkerResolution::Retry
    } else {
        WorkerResolution::Fail
    }
}

/// Persists a successful tool run: writes the artifact metadata and advances
/// the job from its working stage to `next_stage`, which must be a stage
/// graph edge.
pub fn apply_worker_success(
    queue: &mut JobQueue,
    job_id: i64,
    next_stage: JobStage,
    metadata: &JobMetadata,
    now: i64,
) -> (r: Result<(), QueueError>)
    requires
        old(queue).wf(),
    ensures
        final(queue).wf(),
        stages_follow_graph(old(queue).jobs(), final(queue).jobs()),
        final(queue).animes() == old(queue).animes(),
        final(queue).selections() == old(queue).selections(),
        final(queue).next_job_id() == old(queue).next_job_id(),
        final(queue).default_max_retries() == old(queue).default_max_retries(),
        match r {
            Ok(_) => exists|k: int, vp: Option<String>, tp: Option<String>, kp: Option<String>|
                {
                    &&& 0 <= k < old(queue).jobs().len()
                    &&& old(queue).jobs()[k].id == job_id
                    &&& JobStage::spec_allowed_transition(old(queue).jobs()[k].stage, next_stage)
                    &&& opt_patched(vp, old(queue).jobs()[k].video_path, metadata.video_path)
                    &&& opt_patched(
                        tp,
                        old(queue).jobs()[k].transcript_path,
                        metadata.transcript_path,
                    )
                    &&& opt_patched(kp, old(queue).jobs()[k].tokens_path, metadata.tokens_path)
                    &&& final(queue).jobs() == old(queue).jobs().update(
                        k,
                        restaged(
                            #[trigger] meta_patched(old(queue).jobs()[k], *metadata, vp, tp, kp),
                            next_stage,
                            now,
                        ),
                    )
                },
            Err(QueueError::NotFound) => !has_job_id(old(queue).jobs(), job_id) && final(queue).jobs() == old(queue).jobs(),
            Err(QueueError::Conflict) => final(queue).jobs() == old(queue).jobs() && exists|k: int|
                0 <= k < old(queue).jobs().len() && (#[trigger] old(queue).jobs()[k]).id == job_id
                    && !JobStage::spec_allowed_transition(old(queue).jobs()[k].stage, next_stage),
            Err(QueueError::Storage) => false,
        },
{
    let record = match queue.get_job(job_id) {
        None => {
            return Err(QueueError::NotFound);
        },
        Some(j) => j,
    };
    if !JobStage::allowed_transition(record.stage, next_stage) {
        return Err(QueueError::Conflict);
    }
    let ghost q0 = *queue;
    let ghost k0 = choose|k: int|
        0 <= k < q0.jobs().len() && (#[trigger] q0.jobs()[k]).id == job_id && record == q0.jobs()[k];
    let r1 = queue.update_metadata(job_id, metadata, now);
    proof {
        if r1 is Err {
            assert(has_job_id(q0.jobs(), job_id));
            assert(false);
        }
    }
    if r1.is_err() {
        return Err(QueueError::Storage);
    }
    let ghost q1 = *queue;
    proof {
        let (k1, vp, tp, kp) = choose|
            k1: int,
            vp: Option<String>,
            tp: Option<String>,
            kp: Option<String>,
        |
            0 <= k1 < q0.jobs().len() && q0.jobs()[k1].id == job_id && opt_patched(
                vp,
                q0.jobs()[k1].video_path,
                metadata.video_path,
            ) && opt_patched(tp, q0.jobs()[k1].transcript_path, metadata.transcript_path)
                && opt_patched(kp, q0.jobs()[k1].tokens_path, metadata.tokens_path) && q1.jobs()
                == q0.jobs().update(
                k1,
                #[trigger] meta_patched(q0.jobs()[k1], *metadata, vp, tp, kp),
            );
        lemma_id_index_unique(q0.jobs(), k0, k1);
        assert(q1.jobs()[k0].stage == q0.jobs()[k0].stage);
        assert(q1.jobs()[k0].id == job_id);
    }
    let r2 = queue.update_stage(job_id, next_stage, now);
    proof {
        match r2 {
            Err(e) => {
                if e == QueueError::NotFound {
                    assert(has_job_id(q1.jobs(), job_id));
                }
                if e == QueueError::Conflict {
                    let kc = choose|k: int|
                        0 <= k < q1.jobs().len() && (#[trigger] q1.jobs()[k]).id == job_id
                            && !JobStage::spec_allowed_transition(q1.jobs()[k].stage, next_stage);
                    lemma_id_index_unique(q1.jobs(), k0, kc);
                }
                assert(false);
            },
            Ok(_) => {
                let (k1, vp, tp, kp) = choose|
                    k1: int,
                    vp: Option<String>,
                    tp: Option<String>,
                    kp: Option<String>,
                |
                    0 <= k1 < q0.jobs().len() && q0.jobs()[k1].id == job_id && opt_patched(
                        vp,
                        q0.jobs()[k1].video_path,
                        metadata.video_path,
                    ) && opt_patched(tp, q0.jobs()[k1].transcript_path, metadata.transcript_path)
                        && opt_patched(kp, q0.jobs()[k1].tokens_path, metadata.tokens_path)
                        && q1.jobs() == q0.jobs().update(
                        k1,
                        #[trigger] meta_patched(q0.jobs()[k1], *metadata, vp, tp, kp),
                    );
                lemma_id_index_unique(q0.jobs(), k0, k1);
                let patched = meta_patched(q0.jobs()[k0], *metadata, vp, tp, kp);
                let k2 = choose|k: int|
                    0 <= k < q1.jobs().len() && (#[trigger] q1.jobs()[k]).id == job_id
                        && JobStage::spec_allowed_transition(q1.jobs()[k].stage, next_stage)
                        && final(queue).jobs() == q1.jobs().update(
                        k,
                        restaged(q1.jobs()[k], next_stage, now),
                    );
                lemma_id_index_unique(q1.jobs(), k0, k2);
                assert(q1.jobs()[k0] == patched);
                assert(final(queue).jobs() =~= q0.jobs().update(
                    k0,
                    restaged(patched, next_stage, now),
                ));
            },
        }
    }
    if r2.is_err() {
        return Err(QueueError::Storage);
    }
    Ok(())
}

/// Persists a failed tool run: while retries remain, adds one retry and
/// returns the job to `input_stage`; once they are exhausted, marks the job
/// failed with the error message. Both steps must be stage graph edges from
/// the job's working stage.
pub fn apply_worker_failure(
    queue: &mut JobQueue,
    job_id: i64,
    input_stage: JobStage,
    error: &str,
    now: i64,
) -> (r: Result<WorkerResolution, QueueError>)
    requires
        old(queue).wf(),
    ensures
        final(queue).wf(),
        stages_follow_graph(old(queue).jobs(), final(queue).jobs()),
        final(queue).animes() == old(queue).animes(),
        final(queue).selections() == old(queue).selections(),
        final(queue).next_job_id() == old(queue).next_job_id(),
        final(queue).default_max_retries() == old(queue).default_max_retries(),
        match r {
            Ok(res) => exists|k: int|
                #![trigger old(queue).jobs()[k]]
                {
                    &&& 0 <= k < old(queue).jobs().len()
                    &&& old(queue).jobs()[k].id == job_id
                    &&& res == spec_settle(old(queue).jobs()[k], false)
                    &&& (if old(queue).jobs()[k].retry_count < old(queue).jobs()[k].max_retries {
                        final(queue).jobs() == old(queue).jobs().update(
                            k,
                            retried_job(old(queue).jobs()[k], input_stage, now),
                        )
                    } else {
                        exists|m: String|
                            m@ == error@ && final(queue).jobs() == old(queue).jobs().update(
                                k,
                                #[trigger] failed_job(old(queue).jobs()[k], m, now),
                            )
                    })
                },
            Err(QueueError::NotFound) => !has_job_id(old(queue).jobs(), job_id) && final(queue).jobs() == old(queue).jobs(),
            Err(QueueError::Conflict) => final(queue).jobs() == old(queue).jobs() && exists|k: int|
                0 <= k < old(queue).jobs().len() && (#[trigger] old(queue).jobs()[k]).id == job_id
                    && (if old(queue).jobs()[k].retry_count < old(queue).jobs()[k].max_retries {
                    !JobStage::spec_allowed_transition(old(queue).jobs()[k].stage, input_stage)
                } else {
                    !JobStage::spec_allowed_transition(old(queue).jobs()[k].stage, JobStage::Failed)
                }),
            Err(QueueError::Storage) => false,
        },
{
    let record = match queue.get_job(job_id) {
        None => {
            return Err(QueueError::NotFound);
        },
        Some(j) => j,
    };
    let ghost q0 = *queue;
    let ghost k0 = choose|k: int|
        0 <= k < q0.jobs().len() && (#[trigger] q0.jobs()[k]).id == job_id && record == q0.jobs()[k];
    if record.retry_count < record.max_retries {
        if !JobStage::allowed_transition(record.stage, input_stage) {
            return Err(QueueError::Conflict);
        }
        let r1 = queue.increment_retry(job_id, now);
        proof {
            match r1 {
                Err(e) => {
                    if e == QueueError::NotFound {
                        assert(has_job_id(q0.jobs(), job_id));
                    }
                    if e == QueueError::Conflict {
                        let kc = choose|k: int|
                            0 <= k < q0.jobs().len() && (#[trigger] q0.jobs()[k]).id == job_id
                                && q0.jobs()[k].retry_count == q0.jobs()[k].max_retries;
                        lemma_id_index_unique(q0.jobs(), k0, kc);
                    }
                    assert(false);
                },
                Ok(_) => {},
            }
        }
        if r1.is_err() {
            return Err(QueueError::Storage);
        }
        let ghost q1 = *queue;
        proof {
            let k1 = choose|k: int|
                0 <= k < q0.jobs().len() && (#[trigger] q0.jobs()[k]).id == job_id
                    && q0.jobs()[k].retry_count < q0.jobs()[k].max_retries && q1.jobs()
                    == q0.jobs().update(
                    k,
                    Job {
                        retry_count: (q0.jobs()[k].retry_count + 1) as u32,
                        updated_at: now,
                        ..q0.jobs()[k]
                    },
                );
            lemma_id_index_unique(q0.jobs(), k0, k1);
            assert(q1.jobs()[k0].stage == q0.jobs()[k0].stage);
            assert(q1.jobs()[k0].id == job_id);
        }
        let r2 = queue.update_stage(job_id, input_stage, now);
        proof {
            match r2 {
                Err(e) => {
                    if e == QueueError::NotFound {
                        assert(has_job_id(q1.jobs(), job_id));
                    }
                    if e == QueueError::Conflict {
                        let kc = choose|k: int|
                            0 <= k < q1.jobs().len() && (#[trigger] q1.jobs()[k]).id == job_id
                                && !JobStage::spec_allowed_transition(
                                q1.jobs()[k].stage,
                                input_stage,
                            );
                        lemma_id_index_unique(q1.jobs(), k0, kc);
                    }
                    assert(false);
                },
                Ok(_) => {
                    let k1 = choose|k: int|
                        0 <= k < q0.jobs().len() && (#[trigger] q0.jobs()[k]).id == job_id
                            && q0.jobs()[k].retry_count < q0.jobs()[k].max_retries && q1.jobs()
                            == q0.jobs().update(
                            k,
                            Job {
                                retry_count: (q0.jobs()[k].retry_count + 1) as u32,
                                updated_at: now,
                                ..q0.jobs()[k]
                            },
                        );
                    lemma_id_index_unique(q0.jobs(), k0, k1);
                    let rec1 = Job {
                        retry_count: (q0.jobs()[k0].retry_count + 1) as u32,
                        updated_at: now,
                        ..q0.jobs()[k0]
                    };
                    let k2 = choose|k: int|
                        0 <= k < q1.jobs().len() && (#[trigger] q1.jobs()[k]).id == job_id
                            && JobStage::spec_allowed_transition(q1.jobs()[k].stage, input_stage)
                            && final(queue).jobs() == q1.jobs().update(
                            k,
                            restaged(q1.jobs()[k], input_stage, now),
                        );
                    lemma_id_index_unique(q1.jobs(), k0, k2);
                    assert(q1.jobs()[k0] == rec1);
                    assert(final(queue).jobs() =~= q0.jobs().update(
                        k0,
                        retried_job(q0.jobs()[k0], input_stage, now),
                    ));
                },
            }
        }
        if r2.is_err() {
            return Err(QueueError::Storage);
        }
        Ok(WorkerResolution::Retry)
    } else {
        if !JobStage::allowed_transition(record.stage, JobStage::Failed) {
            return Err(QueueError::Conflict);
        }
        let r1 = queue.fail_job(job_id, error, now);
        proof {
            match r1 {
                Err(e) => {
                    if e == QueueError::NotFound {
                        assert(has_job_id(q0.jobs(), job_id));
                    }
                    if e == QueueError::Conflict {
                        let kc = choose|k: int|
                            0 <= k < q0.jobs().len() && (#[trigger] q0.jobs()[k]).id == job_id
                                && !JobStage::spec_allowed_transition(
                                q0.jobs()[k].stage,
                                JobStage::Failed,
                            );
                        lemma_id_index_unique(q0.jobs(), k0, kc);
                    }
                    assert(false);
                },
                Ok(_) => {
                    let (k1, m1) = choose|k1: int, m1: String|
                        0 <= k1 < q0.jobs().len() && q0.jobs()[k1].id == job_id
                            && JobStage::spec_allowed_transition(
                            q0.jobs()[k1].stage,
                            JobStage::Failed,
                        ) && m1@ == error@ && final(queue).jobs() == q0.jobs().update(
                            k1,
                            #[trigger] failed_job(q0.jobs()[k1], m1, now),
                        );
                    lemma_id_index_unique(q0.jobs(), k0, k1);
                },
            }
        }
        if r1.is_err() {
            return Err(QueueError::Storage);
        }
        Ok(WorkerResolution::Fail)
    }
}

} // verus!
