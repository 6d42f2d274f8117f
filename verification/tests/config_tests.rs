use anime_pipeline::config::Config;
use anime_pipeline::logging::LogConfig;
use anime_pipeline::logging::env_filter_directive;
use anime_pipeline::logging::init_default;
use anime_pipeline::logging::init_for_component;

#[test]
fn test_default_config() {
    let config = Config::default();
    assert_eq!(config.data.root_dir, "data");
    assert_eq!(config.database.path, "jobs.db");
    assert_eq!(config.mal_scraper.rate_limit.requests_per_second_milli, 2000);
    assert_eq!(config.mal_scraper.cache.expiration_seconds, None);
}

#[test]
fn test_path_resolution() {
    let config = Config::default();

    let db_path = config.database_path();
    assert!(db_path.ends_with("data/jobs.db"));

    let log_dir = config.log_dir();
    assert!(log_dir.ends_with("data/logs"));

    let cache_dir = config.cache_dir();
    assert!(cache_dir.ends_with("data/cache"));
}

#[test]
fn test_absolute_paths_stay_absolute() {
    let mut config = Config::default();
    config.database.path = "/var/lib/jobs.db".to_string();
    assert_eq!(config.database_path(), "/var/lib/jobs.db");
    config.data.root_dir = "/srv/data".to_string();
    assert_eq!(config.log_dir(), "/srv/data/logs");
}

#[test]
fn test_default_disk_management() {
    let config = Config::default();
    let dm = &config.disk_management;
    assert_eq!(dm.hard_limit_gb, 250);
    assert_eq!(dm.pause_threshold_gb, 230);
    assert_eq!(dm.resume_threshold_gb, 200);
    assert!(dm.resume_threshold_gb < dm.pause_threshold_gb);
    assert_eq!(dm.max_concurrent_downloads, 5);
    assert_eq!(dm.max_concurrent_transcriptions, 2);
    assert!(dm.cleanup.delete_video_after_transcription);
    assert!(dm.cleanup.delete_audio_after_transcription);
    assert!(!dm.cleanup.delete_transcript_after_tokenization);
    assert!(!dm.cleanup.delete_tokens_after_analysis);
}

#[test]
fn test_logging_config() {
    let config = LogConfig::default();
    assert_eq!(config.component, "gda2025");
    assert_eq!(config.default_level, "info");
    assert!(config.console);
    assert!(config.file);
}

#[test]
fn test_component_logging_config() {
    let base = init_default();
    assert_eq!(base.component, "gda2025");
    assert_eq!(base.log_dir, "data/logs");

    let config = init_for_component("transcriber", "/data/logs");
    assert_eq!(config.component, "transcriber");
    assert_eq!(config.log_dir, "/data/logs");
    assert_eq!(config.default_level, "info");
}

#[test]
fn test_env_filter_directive() {
    assert_eq!(
        env_filter_directive("transcriber", "debug"),
        "transcriber=debug,shared=debug,mal_scraper=debug,hyper=warn,reqwest=warn,h2=warn"
    );
}
