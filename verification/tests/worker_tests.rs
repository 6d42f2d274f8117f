use anime_pipeline::config::CleanupConfig;
use anime_pipeline::download::DownloadPlan;
use anime_pipeline::download::ani_cli_command;
use anime_pipeline::download::download_target;
use anime_pipeline::download::pick_new_video;
use anime_pipeline::download::plan_download;
use anime_pipeline::download::strip_episode_suffix;
use anime_pipeline::model::AnimeSelection;
use anime_pipeline::model::Confidence;
use anime_pipeline::model::FileType;
use anime_pipeline::model::JobMetadata;
use anime_pipeline::model::NewJob;
use anime_pipeline::model::SelectionRow;
use anime_pipeline::paths::DataPaths;
use anime_pipeline::queue::JobQueue;
use anime_pipeline::stage::JobStage;
use anime_pipeline::transcribe::CleanupAction;
use anime_pipeline::transcribe::TranscribePlan;
use anime_pipeline::transcribe::audio_target;
use anime_pipeline::transcribe::cleanup_plan;
use anime_pipeline::transcribe::ffmpeg_args;
use anime_pipeline::transcribe::plan_transcription;
use anime_pipeline::transcribe::transcript_target;
use anime_pipeline::transcribe::whisper_args;
use anime_pipeline::worker::WorkerResolution;
use anime_pipeline::worker::apply_worker_failure;
use anime_pipeline::worker::apply_worker_success;
use anime_pipeline::worker::settle;

fn seed_job(queue: &mut JobQueue, mal_id: u32) -> i64 {
    queue
        .enqueue(
            &NewJob {
                anime_id: mal_id as i64,
                mal_id,
                anime_title: "Series".to_string(),
                episode: 1,
                priority: 0,
            },
            10,
        )
        .unwrap()
}

fn cache_selection(queue: &mut JobQueue, mal_id: u32, confidence: Confidence) {
    queue.cache_selection(SelectionRow {
        mal_id,
        anime_title: "Series".to_string(),
        search_query: "Series".to_string(),
        selected_index: 1,
        selected_title: "Series (12 eps)".to_string(),
        confidence,
        reason: Some("matched".to_string()),
        mal_episodes: Some(12),
        selected_episodes: Some(12),
        episode_match: Some("exact".to_string()),
    });
}

/// Runs one download worker pass and one transcribe worker pass in dry-run
/// shape: the artifacts are empty, the stage machine is the real one.
fn drain_dry_run(queue: &mut JobQueue, paths: &DataPaths, artifact_bytes: u64) {
    let mut clock = 100i64;
    loop {
        clock += 1;
        let job = match queue.dequeue(JobStage::Queued, JobStage::Downloading, clock).unwrap() {
            Some(j) => j,
            None => break,
        };
        let selection = queue.get_selection(job.mal_id);
        match plan_download(&selection) {
            DownloadPlan::Run { search_title: _ } => {
                let target = download_target(paths, &job);
                let mut meta = JobMetadata::default();
                meta.video_path = Some(target);
                meta.video_size_bytes = Some(artifact_bytes);
                apply_worker_success(queue, job.id, JobStage::Downloaded, &meta, clock).unwrap();
            }
            DownloadPlan::MissingSelection => {
                queue
                    .fail_job(job.id, "No anime selection found. Run anime-selector first!", clock)
                    .unwrap();
            }
            DownloadPlan::NoCandidates => {
                queue.fail_job(job.id, "no candidates for this series", clock).unwrap();
            }
        }
    }
    let cleanup = CleanupConfig::default();
    loop {
        clock += 1;
        let job = match queue.dequeue(JobStage::Downloaded, JobStage::Transcribing, clock).unwrap()
        {
            Some(j) => j,
            None => break,
        };
        match plan_transcription(&job, true) {
            TranscribePlan::Run { video_path: _ } => {
                let mut meta = JobMetadata::default();
                meta.transcript_path = Some(transcript_target(paths, &job));
                meta.audio_size_bytes = Some(artifact_bytes);
                meta.transcript_size_bytes = Some(artifact_bytes);
                apply_worker_success(queue, job.id, JobStage::Transcribed, &meta, clock).unwrap();
                for action in cleanup_plan(&cleanup) {
                    match action {
                        CleanupAction::MarkVideoDeleted => {
                            queue.mark_file_deleted(job.id, FileType::Video, clock).unwrap();
                        }
                        CleanupAction::MarkAudioDeleted => {
                            queue.mark_file_deleted(job.id, FileType::Audio, clock).unwrap();
                        }
                        // Unlinking is the binary's file system work.
                        CleanupAction::UnlinkVideo => {}
                        CleanupAction::UnlinkAudio => {}
                    }
                }
            }
            _ => {
                queue.fail_job(job.id, "video not found", clock).unwrap();
            }
        }
    }
}

#[test]
fn test_happy_path_single_job() {
    let mut queue = JobQueue::new();
    let paths = DataPaths::new("data");
    let id = seed_job(&mut queue, 100);
    cache_selection(&mut queue, 100, Confidence::High);

    drain_dry_run(&mut queue, &paths, 0);

    let job = queue.get_job(id).unwrap();
    assert_eq!(job.stage, JobStage::Transcribed);
    assert!(job.video_deleted);
    assert!(job.audio_deleted);
    let transcript = job.transcript_path.unwrap();
    assert!(transcript.contains("transcripts/100/"));
}

#[test]
fn test_dry_run_matches_live_run_shape() {
    let paths = DataPaths::new("data");

    let mut dry = JobQueue::new();
    seed_job(&mut dry, 100);
    cache_selection(&mut dry, 100, Confidence::High);
    drain_dry_run(&mut dry, &paths, 0);

    let mut live = JobQueue::new();
    seed_job(&mut live, 100);
    cache_selection(&mut live, 100, Confidence::High);
    drain_dry_run(&mut live, &paths, 700_000_000);

    let d = dry.get_stats();
    let l = live.get_stats();
    assert_eq!(d.transcribed, l.transcribed);
    assert_eq!(d.failed, l.failed);
    assert_eq!(d.queued, l.queued);
    let dj = dry.get_all_jobs();
    let lj = live.get_all_jobs();
    assert_eq!(dj.len(), lj.len());
    for (a, b) in dj.iter().zip(lj.iter()) {
        assert_eq!(a.stage, b.stage);
        assert_eq!(a.video_deleted, b.video_deleted);
        assert_eq!(a.transcript_path, b.transcript_path);
    }
}

#[test]
fn test_retry_then_fail() {
    let mut queue = JobQueue::with_max_retries(2);
    let id = seed_job(&mut queue, 100);
    cache_selection(&mut queue, 100, Confidence::High);

    let mut clock = 100i64;
    loop {
        clock += 1;
        let job = match queue.dequeue(JobStage::Queued, JobStage::Downloading, clock).unwrap() {
            Some(j) => j,
            None => break,
        };
        // The download tool always exits 1.
        let resolution =
            apply_worker_failure(&mut queue, job.id, JobStage::Queued, "tool exited 1", clock)
                .unwrap();
        if resolution == WorkerResolution::Fail {
            break;
        }
    }

    let job = queue.get_job(id).unwrap();
    assert_eq!(job.stage, JobStage::Failed);
    assert_eq!(job.retry_count, 2);
    assert!(!job.error_message.unwrap().is_empty());
}

#[test]
fn test_missing_selection_fails_without_retry() {
    let mut queue = JobQueue::new();
    let paths = DataPaths::new("data");
    let id = seed_job(&mut queue, 200);
    // No selection is cached for series 200.
    drain_dry_run(&mut queue, &paths, 0);

    let job = queue.get_job(id).unwrap();
    assert_eq!(job.stage, JobStage::Failed);
    assert_eq!(job.retry_count, 0);
    let message = job.error_message.unwrap();
    assert!(message.contains("anime selection"));
    assert!(message.contains("Run anime-selector first"));
}

#[test]
fn test_no_candidates_fails_without_retry() {
    let mut queue = JobQueue::new();
    let paths = DataPaths::new("data");
    let id = seed_job(&mut queue, 300);
    cache_selection(&mut queue, 300, Confidence::NoCandidates);
    drain_dry_run(&mut queue, &paths, 0);

    let job = queue.get_job(id).unwrap();
    assert_eq!(job.stage, JobStage::Failed);
    assert_eq!(job.retry_count, 0);
}

#[test]
fn test_low_confidence_selections_listing() {
    let mut queue = JobQueue::new();
    cache_selection(&mut queue, 100, Confidence::High);
    cache_selection(&mut queue, 200, Confidence::Low);
    cache_selection(&mut queue, 300, Confidence::Low);
    let rows = queue.low_confidence_selections();
    assert_eq!(rows.len(), 2);
    assert_eq!(rows[0].mal_id, 200);
    assert_eq!(rows[1].mal_id, 300);
    // Overwriting a row changes what the review lists.
    cache_selection(&mut queue, 200, Confidence::High);
    assert_eq!(queue.low_confidence_selections().len(), 1);
}

#[test]
fn test_settle_follows_retry_policy() {
    let mut queue = JobQueue::with_max_retries(2);
    let id = seed_job(&mut queue, 100);
    let job = queue.get_job(id).unwrap();
    assert_eq!(settle(&job, true), WorkerResolution::Advance);
    assert_eq!(settle(&job, false), WorkerResolution::Retry);
    queue.increment_retry(id, 20).unwrap();
    queue.increment_retry(id, 21).unwrap();
    let exhausted = queue.get_job(id).unwrap();
    assert_eq!(settle(&exhausted, false), WorkerResolution::Fail);
    assert_eq!(settle(&exhausted, true), WorkerResolution::Advance);
}

#[test]
fn test_plan_download_strips_episode_suffix() {
    let selection = Some(AnimeSelection {
        selected_index: 1,
        selected_title: "Attack on Titan (25 eps)".to_string(),
        confidence: Confidence::High,
        reason: "matched".to_string(),
    });
    match plan_download(&selection) {
        DownloadPlan::Run { search_title } => assert_eq!(search_title, "Attack on Titan"),
        _ => panic!("expected a run decision"),
    }
}

#[test]
fn test_strip_episode_suffix_cases() {
    assert_eq!(strip_episode_suffix("Title (12 eps)"), "Title");
    assert_eq!(strip_episode_suffix("Title"), "Title");
    assert_eq!(strip_episode_suffix(" (x)"), "");
    assert_eq!(strip_episode_suffix("A (1) (2)"), "A");
}

#[test]
fn test_plan_transcription_requires_video_on_disk() {
    let mut queue = JobQueue::new();
    let id = seed_job(&mut queue, 100);
    let mut meta = JobMetadata::default();
    meta.video_path = Some("videos/100/episodes/a.mp4".to_string());
    queue.update_metadata(id, &meta, 20).unwrap();
    let job = queue.get_job(id).unwrap();

    match plan_transcription(&job, true) {
        TranscribePlan::Run { video_path } => {
            assert_eq!(video_path, "videos/100/episodes/a.mp4")
        }
        _ => panic!("expected a run decision"),
    }
    match plan_transcription(&job, false) {
        TranscribePlan::VideoGone { video_path } => {
            assert_eq!(video_path, "videos/100/episodes/a.mp4")
        }
        _ => panic!("expected the gone decision"),
    }

    let bare_id = seed_job(&mut queue, 101);
    let bare = queue.get_job(bare_id).unwrap();
    assert!(matches!(plan_transcription(&bare, true), TranscribePlan::MissingVideoPath));
}

#[test]
fn test_pick_new_video_diffs_listings() {
    let before = vec!["dir/old.mp4".to_string(), "dir/notes.txt".to_string()];
    let after = vec![
        "dir/old.mp4".to_string(),
        "dir/readme.txt".to_string(),
        "dir/fresh.mp4".to_string(),
    ];
    assert_eq!(pick_new_video(&before, &after), Some("dir/fresh.mp4".to_string()));
    assert_eq!(pick_new_video(&after, &after), None);
    let empty: Vec<String> = Vec::new();
    assert_eq!(pick_new_video(&empty, &before), Some("dir/old.mp4".to_string()));
}

#[test]
fn test_cleanup_plan_marks_before_unlinking() {
    let cleanup = CleanupConfig::default();
    let plan = cleanup_plan(&cleanup);
    assert_eq!(
        plan,
        vec![
            CleanupAction::MarkVideoDeleted,
            CleanupAction::UnlinkVideo,
            CleanupAction::MarkAudioDeleted,
            CleanupAction::UnlinkAudio,
        ]
    );

    let keep_all = CleanupConfig {
        delete_video_after_transcription: false,
        delete_audio_after_transcription: false,
        delete_transcript_after_tokenization: false,
        delete_tokens_after_analysis: false,
    };
    assert!(cleanup_plan(&keep_all).is_empty());
}

#[test]
fn test_tool_invocations() {
    assert_eq!(
        ani_cli_command("/data/videos/100/episodes", 7, "Attack on Titan"),
        "cd '/data/videos/100/episodes' && ani-cli -d -e 7 -S 1 'Attack on Titan'"
    );
    let ff = ffmpeg_args("in.mp4", "out.wav");
    assert_eq!(
        ff,
        vec!["-i", "in.mp4", "-vn", "-acodec", "pcm_s16le", "-ar", "16000", "-ac", "1", "-y", "out.wav"]
    );
    let wh = whisper_args("ep.wav", "base", "/data/transcripts/100");
    assert_eq!(
        wh,
        vec![
            "ep.wav",
            "--model",
            "base",
            "--language",
            "ja",
            "--output_dir",
            "/data/transcripts/100",
            "--output_format",
            "txt",
            "--verbose",
            "False"
        ]
    );
}

#[test]
fn test_artifact_targets() {
    let paths = DataPaths::new("/data");
    let mut queue = JobQueue::new();
    let id = seed_job(&mut queue, 100);
    let job = queue.get_job(id).unwrap();
    assert_eq!(audio_target(&paths, &job), "/data/audio/100/Series_ep001.wav");
    assert_eq!(
        transcript_target(&paths, &job),
        "/data/transcripts/100/Series_ep001.txt"
    );
    assert_eq!(
        download_target(&paths, &job),
        "/data/videos/100/episodes/Series_ep001.mp4"
    );
}
