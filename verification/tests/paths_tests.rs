use anime_pipeline::paths::DataPaths;
use anime_pipeline::paths::sanitize_filename;

#[test]
fn test_paths() {
    let paths = DataPaths::new("/data");

    assert_eq!(paths.video_file(5114, 1), "/data/videos/5114/episodes/ep001.mkv");

    assert_eq!(paths.transcript_json(5114, 1), "/data/transcripts/5114/ep001.json");

    assert_eq!(paths.jobs_db(), "/data/jobs.db");
}

#[test]
fn test_title_slug() {
    assert_eq!(
        DataPaths::title_to_slug("Fullmetal Alchemist: Brotherhood"),
        "fullmetal_alchemist_brotherhood"
    );

    assert_eq!(
        DataPaths::title_to_slug("\u{92fc}\u{306e}\u{932c}\u{91d1}\u{8853}\u{5e2b} FULLMETAL ALCHEMIST"),
        "fullmetal_alchemist"
    );
}

#[test]
fn downloader_test_sanitize_filename() {
    assert_eq!(
        sanitize_filename("Fullmetal Alchemist: Brotherhood"),
        "Fullmetal Alchemist_ Brotherhood"
    );
    assert_eq!(
        sanitize_filename("Attack on Titan: Season 2"),
        "Attack on Titan_ Season 2"
    );
    assert_eq!(sanitize_filename("Normal Title"), "Normal Title");
    assert_eq!(
        sanitize_filename("Title/with\\invalid:chars"),
        "Title_with_invalid_chars"
    );
}

#[test]
fn transcriber_test_sanitize_filename() {
    assert_eq!(
        sanitize_filename("Fullmetal Alchemist: Brotherhood"),
        "Fullmetal Alchemist_ Brotherhood"
    );
}

#[test]
fn test_more_paths() {
    let paths = DataPaths::new("/data");
    assert_eq!(paths.root(), "/data");
    assert_eq!(paths.video_dir(12), "/data/videos/12/episodes");
    assert_eq!(paths.audio_file(12, 34), "/data/audio/12/ep034.wav");
    assert_eq!(paths.transcript_txt(12, 345), "/data/transcripts/12/ep345.txt");
    assert_eq!(paths.tokens_json(12, 7), "/data/tokens/12/ep007_tokens.json");
    assert_eq!(paths.freq_csv(12, 7), "/data/tokens/12/ep007_freq.csv");
    assert_eq!(paths.zipf_params(12), "/data/analysis/per_series/12/zipf_params.json");
    assert_eq!(paths.statistics(12), "/data/analysis/per_series/12/statistics.json");
    assert_eq!(paths.anime_metadata(12), "/data/videos/12/metadata.json");
    assert_eq!(paths.logs_dir(), "/data/logs");
    assert_eq!(paths.log_file("transcriber"), "/data/logs/transcriber.log");
    assert_eq!(paths.aggregated_dir(), "/data/analysis/aggregated");
    assert_eq!(paths.cache_dir(), "/data/cache");
    assert_eq!(paths.mal_cache_dir(), "/data/cache/mal_cache");
    assert_eq!(paths.anime_cache_dir(), "/data/cache/mal_cache/anime");
    assert_eq!(
        paths.category_cache_dir("genres"),
        "/data/cache/mal_cache/categories/genres"
    );
}

#[test]
fn test_models_dir_is_beside_the_root() {
    let paths = DataPaths::new("/srv/data");
    assert_eq!(paths.models_dir(), "/srv/models");
    assert_eq!(paths.whisper_model("base"), "/srv/models/ggml-base.bin");

    let top = DataPaths::new("/data");
    assert_eq!(top.models_dir(), "/models");

    let relative = DataPaths::new("data");
    assert_eq!(relative.models_dir(), "models");
}

#[test]
fn test_lowercased_directories() {
    let paths = DataPaths::new("/data");
    assert_eq!(
        paths.genre_analysis_dir("Action"),
        "/data/analysis/aggregated/by_genre/action"
    );
    assert_eq!(
        paths.studio_analysis_dir("BONES"),
        "/data/analysis/aggregated/by_studio/bones"
    );
    assert_eq!(
        paths.category_cache_file("genres", "Slice of Life"),
        "/data/cache/mal_cache/categories/genres/slice of life_top50.json"
    );
    assert_eq!(
        paths.anime_cache_file(5114, "fullmetal_alchemist_brotherhood"),
        "/data/cache/mal_cache/anime/5114_fullmetal_alchemist_brotherhood.json"
    );
}

#[test]
fn test_sanitize_trims_whitespace() {
    assert_eq!(sanitize_filename("  padded name  "), "padded name");
    assert_eq!(sanitize_filename("***"), "___");
    assert_eq!(sanitize_filename(""), "");
}

#[test]
fn test_slug_keeps_at_most_three_words() {
    assert_eq!(DataPaths::title_to_slug("One Two Three Four Five"), "one_two_three");
    assert_eq!(DataPaths::title_to_slug(""), "");
    assert_eq!(DataPaths::title_to_slug("!!!"), "");
    assert_eq!(DataPaths::title_to_slug("A  B"), "a_b");
}

#[test]
fn test_dirs_to_create_layout() {
    let paths = DataPaths::new("/data");
    let dirs = paths.dirs_to_create();
    assert_eq!(dirs.len(), 14);
    assert_eq!(dirs[0], "/data/videos");
    assert_eq!(dirs[4], "/data/analysis/per_series");
    assert_eq!(dirs[7], "/data/cache/mal_cache/categories/genres");
    assert_eq!(dirs[11], "/data/cache/mal_cache/anime");
    assert_eq!(dirs[12], "/data/logs");
    assert_eq!(dirs[13], "/models");
}
