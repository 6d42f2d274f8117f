//! Data model of the pipeline: series, jobs, metadata updates and the title
//! selection cache.
//!
//! Timestamps are unix seconds, progress is stored in permille and scores in
//! hundredths, so that every field is a plain integer, string or flag that a
//! contract can speak about.

use vstd::prelude::*;

use crate::stage::JobStage;
use crate::stage::ProcessingStatus;

verus! {

broadcast use vstd::string::group_string_axioms;

/// Series metadata from the remote catalog.
#[derive(Debug)]
pub struct Anime {
    /// Store id; `None` before insertion.
    pub id: Option<i64>,
    /// External catalog id.
    pub mal_id: u32,
    pub title: String,
    pub title_english: Option<String>,
    pub title_japanese: Option<String>,
    pub title_synonyms: Vec<String>,
    pub anime_type: Option<String>,
    pub episodes_total: Option<u32>,
    pub status: Option<String>,
    /// Air dates as (year, month, day).
    pub aired_from: Option<(i32, u32, u32)>,
    pub aired_to: Option<(i32, u32, u32)>,
    pub season: Option<String>,
    pub year: Option<i32>,
    pub genres: Vec<String>,
    pub explicit_genres: Vec<String>,
    pub themes: Vec<String>,
    pub demographics: Vec<String>,
    pub studios: Vec<String>,
    /// Catalog score in hundredths (a score of 8.75 is 875).
    pub score_hundredths: Option<u32>,
    pub scored_by: Option<u32>,
    pub rank: Option<u32>,
    pub popularity: Option<u32>,
    pub source: Option<String>,
    pub rating: Option<String>,
    pub duration_minutes: Option<u32>,
    pub episodes_processed: u32,
    pub processing_status: ProcessingStatus,
    /// Unix seconds.
    pub fetched_at: i64,
    pub updated_at: i64,
}

/// The unit of per-episode work advancing through the stage machine.
#[derive(Debug)]
pub struct Job {
    pub id: i64,
    pub anime_id: i64,
    pub anime_title: String,
    pub anime_title_english: Option<String>,
    pub mal_id: u32,
    pub episode: u32,
    pub season: Option<i32>,
    pub year: Option<i32>,
    pub stage: JobStage,
    /// Progress through the current stage, in permille (0 ..= 1000).
    pub progress_permille: u32,
    /// Unix seconds.
    pub created_at: i64,
    pub updated_at: i64,
    pub started_at: Option<i64>,
    pub completed_at: Option<i64>,
    pub error_message: Option<String>,
    pub retry_count: u32,
    pub max_retries: u32,
    pub video_path: Option<String>,
    pub transcript_path: Option<String>,
    pub tokens_path: Option<String>,
    pub analysis_path: Option<String>,
    pub duration_seconds: Option<u32>,
    pub video_size_bytes: Option<u64>,
    pub audio_size_bytes: Option<u64>,
    pub transcript_size_bytes: Option<u64>,
    pub tokens_size_bytes: Option<u64>,
    pub word_count: Option<u32>,
    pub token_count: Option<u32>,
    pub video_deleted: bool,
    pub audio_deleted: bool,
    pub priority: i32,
    pub depends_on: Option<i64>,
}

/// A job to be enqueued.
#[derive(Debug)]
pub struct NewJob {
    pub anime_id: i64,
    pub mal_id: u32,
    pub anime_title: String,
    pub episode: u32,
    pub priority: i32,
}

/// Artifact kind for cleanup tracking.
#[derive(Debug, Clone, Copy, PartialEq, Eq, Structural)]
pub enum FileType {
    Video,
    Audio,
}

/// A sparse job metadata update: only the fields that are present are
/// written.
#[derive(Debug)]
pub struct JobMetadata {
    pub video_size_bytes: Option<u64>,
    pub audio_size_bytes: Option<u64>,
    pub transcript_size_bytes: Option<u64>,
    pub tokens_size_bytes: Option<u64>,
    pub duration_seconds: Option<u32>,
    pub word_count: Option<u32>,
    pub token_count: Option<u32>,
    pub video_path: Option<String>,
    pub transcript_path: Option<String>,
    pub tokens_path: Option<String>,
}

impl Default for JobMetadata {
    /// A metadata update that writes nothing.
    fn default() -> (r: Self)
        ensures
            r.video_size_bytes is None,
            r.audio_size_bytes is None,
            r.transcript_size_bytes is None,
            r.tokens_size_bytes is None,
            r.duration_seconds is None,
            r.word_count is None,
            r.token_count is None,
            r.video_path is None,
            r.transcript_path is None,
            r.tokens_path is None,
    {
        JobMetadata {
            video_size_bytes: None,
            audio_size_bytes: None,
            transcript_size_bytes: None,
            tokens_size_bytes: None,
            duration_seconds: None,
            word_count: None,
            token_count: None,
            video_path: None,
            transcript_path: None,
            tokens_path: None,
        }
    }
}

/// Confidence label of a cached title selection.
#[derive(Debug, Clone, Copy, PartialEq, Eq, Structural)]
pub enum Confidence {
    High,
    Medium,
    Low,
    NoCandidates,
}

/// A cached title selection for one series.
#[derive(Debug)]
pub struct AnimeSelection {
    /// 1-based index into the candidate list; -1 when there were no
    /// candidates.
    pub selected_index: i32,
    pub selected_title: String,
    pub confidence: Confidence,
    pub reason: String,
}

/// One row of the title selection cache.
#[derive(Debug)]
pub struct SelectionRow {
    pub mal_id: u32,
    pub anime_title: String,
    pub search_query: String,
    pub selected_index: i32,
    pub selected_title: String,
    pub confidence: Confidence,
    pub reason: Option<String>,
    pub mal_episodes: Option<i32>,
    pub selected_episodes: Option<i32>,
    pub episode_match: Option<String>,
}

/// Counts of jobs by stage.
#[derive(Debug, Clone, Copy)]
pub struct JobStats {
    pub total: usize,
    pub queued: usize,
    pub downloading: usize,
    pub downloaded: usize,
    pub transcribing: usize,
    pub transcribed: usize,
    pub tokenizing: usize,
    pub tokenized: usize,
    pub analyzing: usize,
    pub complete: usize,
    pub failed: usize,
}

/// Clones an optional string, keeping its characters.
pub fn clone_opt_string(o: &Option<String>) -> (r: Option<String>)
    ensures
        r == *o,
{
    match o {
        Some(s) => Some(s.clone()),
        None => None,
    }
}

/// Clones a vector of strings, keeping every element.
pub fn clone_string_vec(v: &Vec<String>) -> (r: Vec<String>)
    ensures
        r@ == v@,
{
    let mut out: Vec<String> = Vec::new();
    let mut i: usize = 0;
    while i < v.len()
        invariant
            i <= v@.len(),
            out@ == v@.subrange(0, i as int),
        decreases v@.len() - i,
    {
        out.push(v[i].clone());
        i = i + 1;
        proof {
            assert(out@ =~= v@.subrange(0, i as int));
        }
    }
    proof {
        assert(out@ =~= v@);
    }
    out
}

impl Clone for Job {
    /// An exact copy of the record.
    fn clone(&self) -> (r: Self)
        ensures
            r == *self,
    {
        Job {
            id: self.id,
            anime_id: self.anime_id,
            anime_title: self.anime_title.clone(),
            anime_title_english: clone_opt_string(&self.anime_title_english),
            mal_id: self.mal_id,
            episode: self.episode,
            season: self.season,
            year: self.year,
            stage: self.stage,
            progress_permille: self.progress_permille,
            created_at: self.created_at,
            updated_at: self.updated_at,
            started_at: self.started_at,
            completed_at: self.completed_at,
            error_message: clone_opt_string(&self.error_message),
            retry_count: self.retry_count,
            max_retries: self.max_retries,
            video_path: clone_opt_string(&self.video_path),
            transcript_path: clone_opt_string(&self.transcript_path),
            tokens_path: clone_opt_string(&self.tokens_path),
            analysis_path: clone_opt_string(&self.analysis_path),
            duration_seconds: self.duration_seconds,
            video_size_bytes: self.video_size_bytes,
            audio_size_bytes: self.audio_size_bytes,
            transcript_size_bytes: self.transcript_size_bytes,
            tokens_size_bytes: self.tokens_size_bytes,
            word_count: self.word_count,
            token_count: self.token_count,
            video_deleted: self.video_deleted,
            audio_deleted: self.audio_deleted,
            priority: self.priority,
            depends_on: self.depends_on,
        }
    }
}

impl Clone for NewJob {
    /// An exact copy.
    fn clone(&self) -> (r: Self)
        ensures
            r == *self,
    {
        NewJob {
            anime_id: self.anime_id,
            mal_id: self.mal_id,
            anime_title: self.anime_title.clone(),
            episode: self.episode,
            priority: self.priority,
        }
    }
}

impl Clone for AnimeSelection {
    /// An exact copy.
    fn clone(&self) -> (r: Self)
        ensures
            r == *self,
    {
        AnimeSelection {
            selected_index: self.selected_index,
            selected_title: self.selected_title.clone(),
            confidence: self.confidence,
            reason: self.reason.clone(),
        }
    }
}

impl Clone for SelectionRow {
    /// An exact copy.
    fn clone(&self) -> (r: Self)
        ensures
            r == *self,
    {
        SelectionRow {
            mal_id: self.mal_id,
            anime_title: self.anime_title.clone(),
            search_query: self.search_query.clone(),
            selected_index: self.selected_index,
            selected_title: self.selected_title.clone(),
            confidence: self.confidence,
            reason: clone_opt_string(&self.reason),
            mal_episodes: self.mal_episodes,
            selected_episodes: self.selected_episodes,
            episode_match: clone_opt_string(&self.episode_match),
        }
    }
}

/// Two series records that agree on every field, comparing the string lists
/// by their contents.
pub open spec fn same_anime(a: Anime, b: Anime) -> bool {
    &&& a.id == b.id
    &&& a.mal_id == b.mal_id
    &&& a.title == b.title
    &&& a.title_english == b.title_english
    &&& a.title_japanese == b.title_japanese
    &&& a.title_synonyms@ == b.title_synonyms@
    &&& a.anime_type == b.anime_type
    &&& a.episodes_total == b.episodes_total
    &&& a.status == b.status
    &&& a.aired_from == b.aired_from
    &&& a.aired_to == b.aired_to
    &&& a.season == b.season
    &&& a.year == b.year
    &&& a.genres@ == b.genres@
    &&& a.explicit_genres@ == b.explicit_genres@
    &&& a.themes@ == b.themes@
    &&& a.demographics@ == b.demographics@
    &&& a.studios@ == b.studios@
    &&& a.score_hundredths == b.score_hundredths
    &&& a.scored_by == b.scored_by
    &&& a.rank == b.rank
    &&& a.popularity == b.popularity
    &&& a.source == b.source
    &&& a.rating == b.rating
    &&& a.duration_minutes == b.duration_minutes
    &&& a.episodes_processed == b.episodes_processed
    &&& a.processing_status == b.processing_status
    &&& a.fetched_at == b.fetched_at
    &&& a.updated_at == b.updated_at
}

impl Clone for Anime {
    /// A copy of the record that agrees on every field.
    fn clone(&self) -> (r: Self)
        ensures
            same_anime(r, *self),
    {
        Anime {
            id: self.id,
            mal_id: self.mal_id,
            title: self.title.clone(),
            title_english: clone_opt_string(&self.title_english),
            title_japanese: clone_opt_string(&self.title_japanese),
            title_synonyms: clone_string_vec(&self.title_synonyms),
            anime_type: clone_opt_string(&self.anime_type),
            episodes_total: self.episodes_total,
            status: clone_opt_string(&self.status),
            aired_from: self.aired_from,
            aired_to: self.aired_to,
            season: clone_opt_string(&self.season),
            year: self.year,
            genres: clone_string_vec(&self.genres),
            explicit_genres: clone_string_vec(&self.explicit_genres),
            themes: clone_string_vec(&self.themes),
            demographics: clone_string_vec(&self.demographics),
            studios: clone_string_vec(&self.studios),
            score_hundredths: self.score_hundredths,
            scored_by: self.scored_by,
            rank: self.rank,
            popularity: self.popularity,
            source: clone_opt_string(&self.source),
            rating: clone_opt_string(&self.rating),
            duration_minutes: self.duration_minutes,
            episodes_processed: self.episodes_processed,
            processing_status: self.processing_status,
            fetched_at: self.fetched_at,
            updated_at: self.updated_at,
        }
    }
}

impl Confidence {
    /// The cache label of this confidence.
    pub fn label(self) -> (r: &'static str)
        ensures
            self == Confidence::High ==> r@ == "high"@,
            self == Confidence::Medium ==> r@ == "medium"@,
            self == Confidence::Low ==> r@ == "low"@,
            self == Confidence::NoCandidates ==> r@ == "no_candidates"@,
    {
        match self {
            Confidence::High => "high",
            Confidence::Medium => "medium",
            Confidence::Low => "low",
            Confidence::NoCandidates => "no_candidates",
        }
    }

    /// The confidence a cache label denotes, if any.
    pub open spec fn spec_parse(s: Seq<char>) -> Option<Confidence> {
        if s == "high"@ {
            Some(Confidence::High)
        } else if s == "medium"@ {
            Some(Confidence::Medium)
        } else if s == "low"@ {
            Some(Confidence::Low)
        } else if s == "no_candidates"@ {
            Some(Confidence::NoCandidates)
        } else {
            None
        }
    }

    /// The confidence a cache label denotes, if any.
    pub fn parse(s: &str) -> (r: Option<Confidence>)
        ensures
            r == Confidence::spec_parse(s@),
    {
        if crate::text::str_eq(s, "high") {
            Some(Confidence::High)
        } else if crate::text::str_eq(s, "medium") {
            Some(Confidence::Medium)
        } else if crate::text::str_eq(s, "low") {
            Some(Confidence::Low)
        } else if crate::text::str_eq(s, "no_candidates") {
            Some(Confidence::NoCandidates)
        } else {
            None
        }
    }
}

impl ProcessingStatus {
    /// The textual name of this status.
    pub fn name(self) -> (r: &'static str)
        ensures
            self == ProcessingStatus::Pending ==> r@ == "pending"@,
            self == ProcessingStatus::Processing ==> r@ == "processing"@,
            self == ProcessingStatus::Completed ==> r@ == "completed"@,
            self == ProcessingStatus::Failed ==> r@ == "failed"@,
    {
        match self {
            ProcessingStatus::Pending => "pending",
            ProcessingStatus::Processing => "processing",
            ProcessingStatus::Completed => "completed",
            ProcessingStatus::Failed => "failed",
        }
    }

    /// The status a name denotes, if any.
    pub open spec fn spec_parse(s: Seq<char>) -> Option<ProcessingStatus> {
        if s == "pending"@ {
            Some(ProcessingStatus::Pending)
        } else if s == "processing"@ {
            Some(ProcessingStatus::Processing)
        } else if s == "completed"@ {
            Some(ProcessingStatus::Completed)
        } else if s == "failed"@ {
            Some(ProcessingStatus::Failed)
        } else {
            None
        }
    }

    /// The status a name denotes, if any.
    pub fn parse(s: &str) -> (r: Option<ProcessingStatus>)
        ensures
            r == ProcessingStatus::spec_parse(s@),
    {
        if crate::text::str_eq(s, "pending") {
            Some(ProcessingStatus::Pending)
        } else if crate::text::str_eq(s, "processing") {
            Some(ProcessingStatus::Processing)
        } else if crate::text::str_eq(s, "completed") {
            Some(ProcessingStatus::Completed)
        } else if crate::text::str_eq(s, "failed") {
            Some(ProcessingStatus::Failed)
        } else {
            None
        }
    }
}

impl JobStage {
    /// The textual name of this stage, as the store records it.
    pub fn name(self) -> (r: &'static str)
        ensures
            self == JobStage::Queued ==> r@ == "queued"@,
            self == JobStage::Downloading ==> r@ == "downloading"@,
            self == JobStage::Downloaded ==> r@ == "downloaded"@,
            self == JobStage::Transcribing ==> r@ == "transcribing"@,
            self == JobStage::Transcribed ==> r@ == "transcribed"@,
            self == JobStage::Tokenizing ==> r@ == "tokenizing"@,
            self == JobStage::Tokenized ==> r@ == "tokenized"@,
            self == JobStage::Analyzing ==> r@ == "analyzing"@,
            self == JobStage::Complete ==> r@ == "complete"@,
            self == JobStage::Failed ==> r@ == "failed"@,
    {
        match self {
            JobStage::Queued => "queued",
            JobStage::Downloading => "downloading",
            JobStage::Downloaded => "downloaded",
            JobStage::Transcribing => "transcribing",
            JobStage::Transcribed => "transcribed",
            JobStage::Tokenizing => "tokenizing",
            JobStage::Tokenized => "tokenized",
            JobStage::Analyzing => "analyzing",
            JobStage::Complete => "complete",
            JobStage::Failed => "failed",
        }
    }

    /// The stage a name denotes, if any.
    pub open spec fn spec_parse(s: Seq<char>) -> Option<JobStage> {
        if s == "queued"@ {
            Some(JobStage::Queued)
        } else if s == "downloading"@ {
            Some(JobStage::Downloading)
        } else if s == "downloaded"@ {
            Some(JobStage::Downloaded)
        } else if s == "transcribing"@ {
            Some(JobStage::Transcribing)
        } else if s == "transcribed"@ {
            Some(JobStage::Transcribed)
        } else if s == "tokenizing"@ {
            Some(JobStage::Tokenizing)
        } else if s == "tokenized"@ {
            Some(JobStage::Tokenized)
        } else if s == "analyzing"@ {
            Some(JobStage::Analyzing)
        } else if s == "complete"@ {
            Some(JobStage::Complete)
        } else if s == "failed"@ {
            Some(JobStage::Failed)
        } else {
            None
        }
    }

    /// The stage a name denotes, if any.
    pub fn parse(s: &str) -> (r: Option<JobStage>)
        ensures
            r == JobStage::spec_parse(s@),
    {
        if crate::text::str_eq(s, "queued") {
            Some(JobStage::Queued)
        } else if crate::text::str_eq(s, "downloading") {
            Some(JobStage::Downloading)
        } else if crate::text::str_eq(s, "downloaded") {
            Some(JobStage::Downloaded)
        } else if crate::text::str_eq(s, "transcribing") {
            Some(JobStage::Transcribing)
        } else if crate::text::str_eq(s, "transcribed") {
            Some(JobStage::Transcribed)
        } else if crate::text::str_eq(s, "tokenizing") {
            Some(JobStage::Tokenizing)
        } else if crate::text::str_eq(s, "tokenized") {
            Some(JobStage::Tokenized)
        } else if crate::text::str_eq(s, "analyzing") {
            Some(JobStage::Analyzing)
        } else if crate::text::str_eq(s, "complete") {
            Some(JobStage::Complete)
        } else if crate::text::str_eq(s, "failed") {
            Some(JobStage::Failed)
        } else {
            None
        }
    }
}

} // verus!
