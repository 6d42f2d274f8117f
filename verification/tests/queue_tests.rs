use anime_pipeline::model::FileType;
use anime_pipeline::model::JobMetadata;
use anime_pipeline::model::NewJob;
use anime_pipeline::queue::JobQueue;
use anime_pipeline::queue::QueueError;
use anime_pipeline::stage::JobStage;

fn new_job(anime_id: i64, mal_id: u32, episode: u32, priority: i32) -> NewJob {
    NewJob {
        anime_id,
        mal_id,
        anime_title: "Series".to_string(),
        episode,
        priority,
    }
}

#[test]
fn test_enqueue_dedup_returns_original_id() {
    let mut queue = JobQueue::new();
    let job = NewJob {
        anime_id: 7,
        mal_id: 100,
        anime_title: "Series".to_string(),
        episode: 1,
        priority: 0,
    };
    let first = queue.enqueue(&job, 1000).unwrap();
    let second = queue.enqueue(&job, 2000).unwrap();
    assert_eq!(first, second);
    let stats = queue.get_stats();
    assert_eq!(stats.queued, 1);
    assert_eq!(stats.total, 1);
}

#[test]
fn test_enqueue_distinct_keys_get_distinct_ids() {
    let mut queue = JobQueue::new();
    let a = queue.enqueue(&new_job(7, 100, 1, 0), 10).unwrap();
    let b = queue.enqueue(&new_job(7, 100, 2, 0), 11).unwrap();
    let c = queue.enqueue(&new_job(8, 101, 1, 0), 12).unwrap();
    assert_ne!(a, b);
    assert_ne!(a, c);
    assert_ne!(b, c);
    assert_eq!(queue.get_stats().queued, 3);
}

#[test]
fn test_dequeue_orders_by_priority_then_age() {
    let mut queue = JobQueue::new();
    queue.enqueue(&new_job(1, 1, 1, 0), 10).unwrap();
    let high = queue.enqueue(&new_job(2, 2, 1, 5), 20).unwrap();
    queue.enqueue(&new_job(3, 3, 1, 5), 30).unwrap();

    let picked = queue
        .dequeue(JobStage::Queued, JobStage::Downloading, 100)
        .unwrap()
        .unwrap();
    assert_eq!(picked.id, high);
    assert_eq!(picked.stage, JobStage::Downloading);
    assert_eq!(picked.started_at, Some(100));
}

#[test]
fn test_dequeue_empty_stage_reports_none() {
    let mut queue = JobQueue::new();
    let r = queue.dequeue(JobStage::Queued, JobStage::Downloading, 5).unwrap();
    assert!(r.is_none());
}

#[test]
fn test_dequeue_refuses_off_graph_steps() {
    let mut queue = JobQueue::new();
    queue.enqueue(&new_job(1, 1, 1, 0), 10).unwrap();
    let r = queue.dequeue(JobStage::Queued, JobStage::Transcribed, 5);
    assert!(matches!(r, Err(QueueError::Conflict)));
}

#[test]
fn test_dequeue_filtered_honours_series() {
    let mut queue = JobQueue::new();
    queue.enqueue(&new_job(1, 100, 1, 0), 10).unwrap();
    queue.enqueue(&new_job(2, 200, 1, 0), 11).unwrap();

    let picked = queue
        .dequeue_filtered(JobStage::Queued, JobStage::Downloading, Some(200), 50)
        .unwrap()
        .unwrap();
    assert_eq!(picked.mal_id, 200);

    let none = queue
        .dequeue_filtered(JobStage::Queued, JobStage::Downloading, Some(300), 51)
        .unwrap();
    assert!(none.is_none());
}

#[test]
fn test_update_stage_walks_graph_only() {
    let mut queue = JobQueue::new();
    let id = queue.enqueue(&new_job(1, 1, 1, 0), 10).unwrap();

    assert_eq!(queue.update_stage(id, JobStage::Transcribed, 20), Err(QueueError::Conflict));
    assert_eq!(queue.update_stage(9999, JobStage::Downloading, 20), Err(QueueError::NotFound));

    queue.update_stage(id, JobStage::Downloading, 20).unwrap();
    queue.update_stage(id, JobStage::Downloaded, 21).unwrap();
    let job = queue.get_job(id).unwrap();
    assert_eq!(job.stage, JobStage::Downloaded);
}

#[test]
fn test_increment_retry_stops_at_limit() {
    let mut queue = JobQueue::with_max_retries(1);
    let id = queue.enqueue(&new_job(1, 1, 1, 0), 10).unwrap();
    queue.increment_retry(id, 20).unwrap();
    assert_eq!(queue.increment_retry(id, 21), Err(QueueError::Conflict));
    let job = queue.get_job(id).unwrap();
    assert_eq!(job.retry_count, 1);
    assert_eq!(job.max_retries, 1);
}

#[test]
fn test_fail_job_records_error() {
    let mut queue = JobQueue::new();
    let id = queue.enqueue(&new_job(1, 1, 1, 0), 10).unwrap();
    queue.update_stage(id, JobStage::Downloading, 20).unwrap();
    queue.fail_job(id, "tool exited 1", 30).unwrap();
    let job = queue.get_job(id).unwrap();
    assert_eq!(job.stage, JobStage::Failed);
    assert_eq!(job.error_message.as_deref(), Some("tool exited 1"));
    assert_eq!(job.completed_at, Some(30));
}

#[test]
fn test_retry_failed_resets_eligible_jobs() {
    let mut queue = JobQueue::with_max_retries(2);
    let a = queue.enqueue(&new_job(1, 1, 1, 0), 10).unwrap();
    let b = queue.enqueue(&new_job(2, 2, 1, 0), 11).unwrap();
    for id in [a, b] {
        queue.update_stage(id, JobStage::Downloading, 20).unwrap();
        queue.fail_job(id, "boom", 30).unwrap();
    }
    // Exhaust the retries of `b` so only `a` is eligible.
    queue.increment_retry(b, 31).unwrap();
    queue.increment_retry(b, 32).unwrap();

    let reset = queue.retry_failed(40);
    assert_eq!(reset, 1);
    assert_eq!(queue.get_job(a).unwrap().stage, JobStage::Queued);
    assert_eq!(queue.get_job(a).unwrap().error_message, None);
    assert_eq!(queue.get_job(b).unwrap().stage, JobStage::Failed);
}

#[test]
fn test_update_metadata_is_sparse() {
    let mut queue = JobQueue::new();
    let id = queue.enqueue(&new_job(1, 1, 1, 0), 10).unwrap();
    let mut meta = JobMetadata::default();
    meta.video_path = Some("videos/1/episodes/a.mp4".to_string());
    meta.video_size_bytes = Some(123);
    queue.update_metadata(id, &meta, 20).unwrap();

    let mut meta2 = JobMetadata::default();
    meta2.word_count = Some(42);
    queue.update_metadata(id, &meta2, 21).unwrap();

    let job = queue.get_job(id).unwrap();
    assert_eq!(job.video_path.as_deref(), Some("videos/1/episodes/a.mp4"));
    assert_eq!(job.video_size_bytes, Some(123));
    assert_eq!(job.word_count, Some(42));
    assert_eq!(job.transcript_path, None);
}

#[test]
fn test_mark_file_deleted_sets_flags() {
    let mut queue = JobQueue::new();
    let id = queue.enqueue(&new_job(1, 1, 1, 0), 10).unwrap();
    queue.mark_file_deleted(id, FileType::Video, 20).unwrap();
    let job = queue.get_job(id).unwrap();
    assert!(job.video_deleted);
    assert!(!job.audio_deleted);
    queue.mark_file_deleted(id, FileType::Audio, 21).unwrap();
    assert!(queue.get_job(id).unwrap().audio_deleted);
}

#[test]
fn test_get_jobs_by_stage_filters() {
    let mut queue = JobQueue::new();
    let a = queue.enqueue(&new_job(1, 1, 1, 0), 10).unwrap();
    queue.enqueue(&new_job(2, 2, 1, 0), 11).unwrap();
    queue.update_stage(a, JobStage::Downloading, 20).unwrap();

    let queued = queue.get_jobs_by_stage(JobStage::Queued);
    assert_eq!(queued.len(), 1);
    assert_eq!(queued[0].mal_id, 2);
    assert_eq!(queue.get_all_jobs().len(), 2);
}

#[test]
fn test_concurrent_dequeue_drains_without_duplicates() {
    let mut queue = JobQueue::new();
    for n in 0..100u32 {
        queue.enqueue(&new_job(n as i64 + 1, n + 1, 1, 0), 10 + n as i64).unwrap();
    }
    // Eight workers take turns dequeueing and finishing downloads.
    let mut seen = Vec::new();
    let mut clock = 1000i64;
    loop {
        let mut progressed = false;
        for _worker in 0..8 {
            clock += 1;
            match queue.dequeue(JobStage::Queued, JobStage::Downloading, clock).unwrap() {
                Some(job) => {
                    assert!(!seen.contains(&job.id), "job dequeued twice");
                    seen.push(job.id);
                    queue.update_stage(job.id, JobStage::Downloaded, clock).unwrap();
                    progressed = true;
                }
                None => {}
            }
        }
        if !progressed {
            break;
        }
    }
    let stats = queue.get_stats();
    assert_eq!(stats.downloaded, 100);
    assert_eq!(stats.queued, 0);
    assert_eq!(stats.downloading, 0);
    assert_eq!(seen.len(), 100);
}

#[test]
fn test_drained_queue_is_stable_across_restart() {
    let mut queue = JobQueue::new();
    queue.enqueue(&new_job(1, 1, 1, 0), 10).unwrap();
    let job = queue.dequeue(JobStage::Queued, JobStage::Downloading, 20).unwrap().unwrap();
    queue.update_stage(job.id, JobStage::Downloaded, 21).unwrap();
    assert!(queue.dequeue(JobStage::Queued, JobStage::Downloading, 22).unwrap().is_none());
    let before = queue.get_stats();

    // A restarted worker drains the same stage again: nothing changes.
    assert!(queue.dequeue(JobStage::Queued, JobStage::Downloading, 30).unwrap().is_none());
    let after = queue.get_stats();
    assert_eq!(before.queued, after.queued);
    assert_eq!(before.downloaded, after.downloaded);
    assert_eq!(before.total, after.total);
}

#[test]
fn test_listings_follow_display_order() {
    let mut queue = JobQueue::new();
    queue.enqueue(&new_job(1, 1, 1, 0), 10).unwrap();
    queue.enqueue(&new_job(2, 2, 1, 5), 30).unwrap();
    queue.enqueue(&new_job(3, 3, 1, 5), 20).unwrap();

    let all = queue.get_all_jobs();
    assert_eq!(all.len(), 3);
    assert_eq!(all[0].mal_id, 3);
    assert_eq!(all[1].mal_id, 2);
    assert_eq!(all[2].mal_id, 1);

    let queued = queue.get_jobs_by_stage(JobStage::Queued);
    assert_eq!(queued.len(), 3);
    assert_eq!(queued[0].mal_id, 3);
}

#[test]
fn test_get_stats_counts_by_stage() {
    let mut queue = JobQueue::new();
    let a = queue.enqueue(&new_job(1, 1, 1, 0), 10).unwrap();
    queue.enqueue(&new_job(2, 2, 1, 0), 11).unwrap();
    queue.enqueue(&new_job(3, 3, 1, 0), 12).unwrap();
    queue.update_stage(a, JobStage::Downloading, 20).unwrap();
    let stats = queue.get_stats();
    assert_eq!(stats.total, 3);
    assert_eq!(stats.queued, 2);
    assert_eq!(stats.downloading, 1);
    assert_eq!(stats.failed, 0);
}
