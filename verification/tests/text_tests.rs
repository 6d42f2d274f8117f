use anime_pipeline::model::Confidence;
use anime_pipeline::selector::SelectionOutcome;
use anime_pipeline::selector::SelectionStats;
use anime_pipeline::selector::full_select_command;
use anime_pipeline::selector::select_command;
use anime_pipeline::selector::selection_pick;
use anime_pipeline::selector::no_candidates_row;
use anime_pipeline::selector::shell_quote;
use anime_pipeline::selector::shell_quote_single;
use anime_pipeline::stage::JobStage;
use anime_pipeline::text::dec_string;
use anime_pipeline::transcript::clean_transcript;
use anime_pipeline::transcript::is_hallucination_line;

#[test]
fn test_hallucination_patterns() {
    assert!(is_hallucination_line("Thank you for watching!"));
    assert!(is_hallucination_line("PLEASE SUBSCRIBE"));
    assert!(is_hallucination_line("...like and subscribe..."));
    assert!(!is_hallucination_line("The battle begins"));
    assert!(!is_hallucination_line(""));
}

#[test]
fn test_clean_transcript_filters_and_dedups() {
    let raw = "Hello\nTHANK YOU FOR WATCHING\nWorld\nWorld\nEnd\n";
    assert_eq!(clean_transcript(raw), "Hello\nWorld\nEnd");

    let duplicated = "a\na\na\nb\na\n";
    assert_eq!(clean_transcript(duplicated), "a\nb\na");

    assert_eq!(clean_transcript(""), "");
    assert_eq!(clean_transcript("please subscribe\n"), "");
}

#[test]
fn test_clean_transcript_handles_crlf() {
    let raw = "line one\r\nline one\r\nline two\r\n";
    assert_eq!(clean_transcript(raw), "line one\nline two");
}

#[test]
fn test_shell_quoting() {
    assert_eq!(shell_quote("plain"), "\"plain\"");
    assert_eq!(shell_quote("a \"b\" $c `d` e\\f"), "\"a \\\"b\\\" \\$c \\`d\\` e\\\\f\"");
    assert_eq!(shell_quote_single("plain"), "'plain'");
    assert_eq!(shell_quote_single("it's"), "'it'\\''s'");
}

#[test]
fn test_select_command_shape() {
    let cmd = select_command("Death Note", "[\"Death Note\"]", Some(37), Some(2006), Some("TV"), "");
    assert_eq!(
        cmd,
        "scripts/select_anime.py --mal-title \"Death Note\" --candidates '[\"Death Note\"]' --episodes 37 --year 2006 --anime-type \"TV\""
    );
    let with_key = select_command("X", "[]", None, None, None, "k");
    assert!(with_key.ends_with(" --api-key \"k\""));
    let full = full_select_command("scripts/select_anime.py --mal-title \"X\"");
    assert!(full.starts_with("set +H && eval \"$(conda shell.zsh hook)\" && conda activate GDA2025 && python3 "));
}

#[test]
fn test_selection_pick_falls_back_to_first() {
    let candidates = vec!["A".to_string(), "B".to_string(), "C".to_string()];
    assert_eq!(selection_pick(&candidates, 2), "B");
    assert_eq!(selection_pick(&candidates, 0), "A");
    assert_eq!(selection_pick(&candidates, -1), "A");
    assert_eq!(selection_pick(&candidates, 4), "A");
}

#[test]
fn test_no_candidates_row_shape() {
    let row = no_candidates_row(200, "Obscure Series", Some(12));
    assert_eq!(row.mal_id, 200);
    assert_eq!(row.selected_index, -1);
    assert_eq!(row.selected_title, "N/A");
    assert_eq!(row.confidence, Confidence::NoCandidates);
    assert!(row.reason.unwrap().contains("No candidates"));
    assert_eq!(row.episode_match.as_deref(), Some("unknown"));
}

#[test]
fn test_selection_stats_tally() {
    let mut stats = SelectionStats::new();
    stats.record(SelectionOutcome::Cached);
    stats.record(SelectionOutcome::Selected(Confidence::High));
    stats.record(SelectionOutcome::Selected(Confidence::Low));
    stats.record(SelectionOutcome::Selected(Confidence::NoCandidates));
    stats.record(SelectionOutcome::Failed);
    assert_eq!(stats.total, 5);
    assert_eq!(stats.cached, 1);
    assert_eq!(stats.selected, 2);
    assert_eq!(stats.high_confidence, 1);
    assert_eq!(stats.medium_confidence, 0);
    assert_eq!(stats.low_confidence, 1);
    assert_eq!(stats.no_candidates, 1);
    assert_eq!(stats.errors, 1);
}

#[test]
fn test_stage_names_round_trip() {
    let stages = [
        JobStage::Queued,
        JobStage::Downloading,
        JobStage::Downloaded,
        JobStage::Transcribing,
        JobStage::Transcribed,
        JobStage::Tokenizing,
        JobStage::Tokenized,
        JobStage::Analyzing,
        JobStage::Complete,
        JobStage::Failed,
    ];
    for stage in stages {
        assert_eq!(JobStage::parse(stage.name()), Some(stage));
    }
    assert_eq!(JobStage::parse("nonsense"), None);
    assert_eq!(JobStage::parse("queued"), Some(JobStage::Queued));
    assert_eq!(JobStage::Failed.name(), "failed");
}

#[test]
fn test_confidence_labels_round_trip() {
    for c in [Confidence::High, Confidence::Medium, Confidence::Low, Confidence::NoCandidates] {
        assert_eq!(Confidence::parse(c.label()), Some(c));
    }
    assert_eq!(Confidence::parse("certain"), None);
}

#[test]
fn test_stage_machine_edges() {
    assert!(JobStage::allowed_transition(JobStage::Queued, JobStage::Downloading));
    assert!(JobStage::allowed_transition(JobStage::Downloading, JobStage::Queued));
    assert!(JobStage::allowed_transition(JobStage::Downloading, JobStage::Failed));
    assert!(JobStage::allowed_transition(JobStage::Failed, JobStage::Queued));
    assert!(!JobStage::allowed_transition(JobStage::Queued, JobStage::Transcribed));
    assert!(!JobStage::allowed_transition(JobStage::Complete, JobStage::Queued));
    assert!(JobStage::Complete.is_terminal());
    assert!(JobStage::Failed.is_terminal());
    assert!(!JobStage::Queued.is_terminal());
}

#[test]
fn test_decimal_rendering() {
    assert_eq!(dec_string(0), "0");
    assert_eq!(dec_string(5114), "5114");
    assert_eq!(dec_string(u64::MAX), "18446744073709551615");
}
