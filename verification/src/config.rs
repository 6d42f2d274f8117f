//! Configuration of the pipeline, with defaults and path resolution.
//!
//! The file format is TOML; the surrounding binary parses the file and
//! hands the values in as this plain structure. Relative paths resolve
//! under the data root.

use vstd::prelude::*;
use vstd::string::StringExecFns;

use crate::paths::under_root;

verus! {

broadcast use vstd::string::group_string_axioms;

/// Data directory settings.
#[derive(Debug)]
pub struct DataConfig {
    /// Root of the managed data tree.
    pub root_dir: String,
}

/// Database settings.
#[derive(Debug)]
pub struct DatabaseConfig {
    /// Database file; a relative path resolves under the data root.
    pub path: String,
}

/// Logging settings.
#[derive(Debug)]
pub struct LoggingConfig {
    /// Log directory; a relative path resolves under the data root.
    pub log_dir: String,
    /// Default log level name.
    pub default_level: String,
    pub console: bool,
    pub file: bool,
    pub json_format: bool,
}

/// Rate limiting settings of the catalog scraper.
#[derive(Debug, Clone, Copy, PartialEq, Eq, Structural)]
pub struct RateLimitConfig {
    /// Requests per second, in thousandths (2000 is two per second).
    pub requests_per_second_milli: u64,
    pub requests_per_minute: u32,
}

/// Response cache settings of the catalog scraper.
#[derive(Debug)]
pub struct CacheConfig {
    pub enabled: bool,
    /// Cache directory; a relative path resolves under the data root.
    pub cache_dir: String,
    /// Cache expiry in seconds; `None` keeps entries forever.
    pub expiration_seconds: Option<u64>,
}

/// Catalog scraper settings.
#[derive(Debug)]
pub struct MalScraperConfig {
    pub base_url: String,
    pub rate_limit: RateLimitConfig,
    pub cache: CacheConfig,
    /// Categories below this size are skipped.
    pub min_category_items: usize,
    pub max_retries: u32,
    pub retry_delay_ms: u64,
}

/// Which artifacts are deleted once the next stage has consumed them.
#[derive(Debug, Clone, Copy, PartialEq, Eq, Structural)]
pub struct CleanupConfig {
    pub delete_video_after_transcription: bool,
    pub delete_audio_after_transcription: bool,
    pub delete_transcript_after_tokenization: bool,
    pub delete_tokens_after_analysis: bool,
}

/// Disk pressure settings.
#[derive(Debug, Clone, Copy, PartialEq, Eq, Structural)]
pub struct DiskManagementConfig {
    /// Informational cap, in GB.
    pub hard_limit_gb: u64,
    /// New downloads pause when usage reaches this many GB.
    pub pause_threshold_gb: u64,
    /// Paused downloads resume at or below this many GB; must lie strictly
    /// below the pause threshold.
    pub resume_threshold_gb: u64,
    pub check_interval_seconds: u64,
    /// How long a disk usage reading stays fresh.
    pub cache_duration_seconds: u64,
    pub max_concurrent_downloads: usize,
    pub max_concurrent_transcriptions: usize,
    pub cleanup: CleanupConfig,
}

/// Credentials of the title-selection helper.
#[derive(Debug)]
pub struct AnthropicConfig {
    pub api_key: String,
}

/// The whole configuration.
#[derive(Debug)]
pub struct Config {
    pub data: DataConfig,
    pub database: DatabaseConfig,
    pub logging: LoggingConfig,
    pub mal_scraper: MalScraperConfig,
    pub disk_management: DiskManagementConfig,
    pub anthropic: AnthropicConfig,
}

impl Default for CleanupConfig {
    /// Video and audio are reclaimed after transcription; transcripts and
    /// tokens are kept.
    fn default() -> (r: Self)
        ensures
            r.delete_video_after_transcription,
            r.delete_audio_after_transcription,
            !r.delete_transcript_after_tokenization,
            !r.delete_tokens_after_analysis,
    {
        CleanupConfig {
            delete_video_after_transcription: true,
            delete_audio_after_transcription: true,
            delete_transcript_after_tokenization: false,
            delete_tokens_after_analysis: false,
        }
    }
}

impl Default for DiskManagementConfig {
    /// 250 GB cap, pause at 230 GB, resume at 200 GB, five-second usage
    /// cache, five downloads and two transcriptions at a time.
    fn default() -> (r: Self)
        ensures
            r.hard_limit_gb == 250,
            r.pause_threshold_gb == 230,
            r.resume_threshold_gb == 200,
            r.check_interval_seconds == 30,
            r.cache_duration_seconds == 5,
            r.max_concurrent_downloads == 5,
            r.max_concurrent_transcriptions == 2,
            r.cleanup == (CleanupConfig {
                delete_video_after_transcription: true,
                delete_audio_after_transcription: true,
                delete_transcript_after_tokenization: false,
                delete_tokens_after_analysis: false,
            }),
    {
        DiskManagementConfig {
            hard_limit_gb: 250,
            pause_threshold_gb: 230,
            resume_threshold_gb: 200,
            check_interval_seconds: 30,
            cache_duration_seconds: 5,
            max_concurrent_downloads: 5,
            max_concurrent_transcriptions: 2,
            cleanup: CleanupConfig::default(),
        }
    }
}

impl Default for AnthropicConfig {
    /// No key; the selection helper reads its own environment.
    fn default() -> (r: Self)
        ensures
            r.api_key@.len() == 0,
    {
        AnthropicConfig { api_key: String::new() }
    }
}

impl Default for Config {
    /// The configuration used when no file is given: data under `data/`,
    /// the database at `jobs.db`, logs under `logs`, console and file
    /// logging at level `info`, and the catalog scraper at two requests per
    /// second.
    fn default() -> (r: Self)
        ensures
            r.data.root_dir@ == "data"@,
            r.database.path@ == "jobs.db"@,
            r.logging.log_dir@ == "logs"@,
            r.logging.default_level@ == "info"@,
            r.logging.console,
            r.logging.file,
            !r.logging.json_format,
            r.mal_scraper.base_url@ == "https://api.jikan.moe/v4"@,
            r.mal_scraper.rate_limit.requests_per_second_milli == 2000,
            r.mal_scraper.rate_limit.requests_per_minute == 50,
            r.mal_scraper.cache.enabled,
            r.mal_scraper.cache.cache_dir@ == "cache"@,
            r.mal_scraper.cache.expiration_seconds is None,
            r.mal_scraper.min_category_items == 50,
            r.mal_scraper.max_retries == 3,
            r.mal_scraper.retry_delay_ms == 1000,
            r.disk_management == (DiskManagementConfig {
                hard_limit_gb: 250,
                pause_threshold_gb: 230,
                resume_threshold_gb: 200,
                check_interval_seconds: 30,
                cache_duration_seconds: 5,
                max_concurrent_downloads: 5,
                max_concurrent_transcriptions: 2,
                cleanup: CleanupConfig {
                    delete_video_after_transcription: true,
                    delete_audio_after_transcription: true,
                    delete_transcript_after_tokenization: false,
                    delete_tokens_after_analysis: false,
                },
            }),
            r.anthropic.api_key@.len() == 0,
    {
        Config {
            data: DataConfig { root_dir: <String as StringExecFns>::from_str("data") },
            database: DatabaseConfig { path: <String as StringExecFns>::from_str("jobs.db") },
            logging: LoggingConfig {
                log_dir: <String as StringExecFns>::from_str("logs"),
                default_level: <String as StringExecFns>::from_str("info"),
                console: true,
                file: true,
                json_format: false,
            },
            mal_scraper: MalScraperConfig {
                base_url: <String as StringExecFns>::from_str("https://api.jikan.moe/v4"),
                rate_limit: RateLimitConfig {
                    requests_per_second_milli: 2000,
                    requests_per_minute: 50,
                },
                cache: CacheConfig {
                    enabled: true,
                    cache_dir: <String as StringExecFns>::from_str("cache"),
                    expiration_seconds: None,
                },
                min_category_items: 50,
                max_retries: 3,
                retry_delay_ms: 1000,
            },
            disk_management: DiskManagementConfig::default(),
            anthropic: AnthropicConfig::default(),
        }
    }
}

/// A path is absolute when it starts with a separator.
pub open spec fn is_absolute_path(s: Seq<char>) -> bool {
    s.len() > 0 && s[0] == '/'
}

/// The given path, or when it is relative, the path under the data root.
pub open spec fn resolved_under(root: Seq<char>, p: Seq<char>) -> Seq<char> {
    if is_absolute_path(p) {
        p
    } else {
        under_root(root, p)
    }
}

fn resolve_under(root: &String, p: &String) -> (r: String)
    ensures
        r@ == resolved_under(root@, p@),
{
    let pc = crate::text::chars_vec(p.as_str());
    if pc.len() > 0 && pc[0] == '/' {
        p.clone()
    } else {
        let mut s = crate::paths::dir_prefix(root);
        s.append(p.as_str());
        s
    }
}

impl Config {
    /// The data root directory.
    pub fn data_dir(&self) -> (r: String)
        ensures
            r@ == self.data.root_dir@,
    {
        self.data.root_dir.clone()
    }

    /// The database file: the configured path, resolved under the data root
    /// when relative.
    pub fn database_path(&self) -> (r: String)
        ensures
            r@ == resolved_under(self.data.root_dir@, self.database.path@),
    {
        resolve_under(&self.data.root_dir, &self.database.path)
    }

    /// The log directory: the configured path, resolved under the data root
    /// when relative.
    pub fn log_dir(&self) -> (r: String)
        ensures
            r@ == resolved_under(self.data.root_dir@, self.logging.log_dir@),
    {
        resolve_under(&self.data.root_dir, &self.logging.log_dir)
    }

    /// The scraper cache directory: the configured path, resolved under the
    /// data root when relative.
    pub fn cache_dir(&self) -> (r: String)
        ensures
            r@ == resolved_under(self.data.root_dir@, self.mal_scraper.cache.cache_dir@),
    {
        resolve_under(&self.data.root_dir, &self.mal_scraper.cache.cache_dir)
    }
}

/// Gigabytes as bytes, saturating at `u64::MAX`.
pub fn gb_to_bytes(gb: u64) -> (r: u64)
    ensures
        r as int == vstd::math::min(gb as int * 1_000_000_000, u64::MAX as int),
{
    if gb > u64::MAX / 1_000_000_000 {
        proof {
            assert(gb as int * 1_000_000_000 > u64::MAX as int) by (nonlinear_arith)
                requires
                    gb > u64::MAX / 1_000_000_000,
            ;
        }
        u64::MAX
    } else {
        proof {
            assert(gb as int * 1_000_000_000 <= u64::MAX as int) by (nonlinear_arith)
                requires
                    gb <= u64::MAX / 1_000_000_000,
            ;
        }
        gb * 1_000_000_000
    }
}

} // verus!
