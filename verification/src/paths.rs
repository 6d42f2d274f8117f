//! File path layout of the managed data tree.
//!
//! Every artifact of the pipeline lives at a fixed place under one data root;
//! the contracts below state the exact path strings, so that the workers, the
//! cleanup pass and the tests all agree on where a file belongs.

use vstd::prelude::*;
use vstd::string::StringExecFns;

use crate::text::chars_vec;
use crate::text::dec_digits;
use crate::text::is_ascii_alnum;
use crate::text::is_ascii_alnum_exec;
use crate::text::is_space;
use crate::text::is_space_exec;
use crate::text::join_underscore;
use crate::text::lemma_filter_take_step;
use crate::text::join_underscore_exec;
use crate::text::lower_chars;
use crate::text::lower_chars_exec;
use crate::text::lower_of;
use crate::text::lowercase;
use crate::text::pad3_digits;
use crate::text::push_char;
use crate::text::push_dec;
use crate::text::push_pad3;
use crate::text::split_ws;
use crate::text::split_ws_exec;
use crate::text::string_of_chars;
use crate::text::trim_chars;
use crate::text::trim_ws;

verus! {

/// The root string as a directory prefix: a separator is appended unless the
/// root is empty or already ends with one.
pub open spec fn root_prefix(root: Seq<char>) -> Seq<char> {
    if root.len() == 0 {
        root
    } else if root.last() == '/' {
        root
    } else {
        root.push('/')
    }
}

/// A path `rest` placed under the directory `root`.
pub open spec fn under_root(root: Seq<char>, rest: Seq<char>) -> Seq<char> {
    root_prefix(root) + rest
}

/// The path with its final `/`-separated component removed: the directory
/// itself for the filesystem root, the empty path for a bare name.
pub open spec fn parent_dir(s: Seq<char>) -> Seq<char>
    decreases s.len(),
{
    if s.len() == 0 {
        s
    } else if s.last() != '/' {
        parent_dir(s.drop_last())
    } else if s.len() == 1 {
        s
    } else {
        s.drop_last()
    }
}

proof fn lemma_parent_dir_strip(s: Seq<char>, i: int)
    requires
        0 <= i <= s.len(),
        forall|k: int| i <= k < s.len() ==> #[trigger] s[k] != '/',
    ensures
        parent_dir(s) == parent_dir(s.subrange(0, i)),
    decreases s.len() - i,
{
    if i < s.len() {
        let t = s.drop_last();
        assert(t =~= s.subrange(0, s.len() - 1));
        lemma_parent_dir_strip(t, i);
        assert(t.subrange(0, i) =~= s.subrange(0, i));
    } else {
        assert(s.subrange(0, i) =~= s);
    }
}

/// Replaced by `_` in file names: `/ \ : * ? " < > |`.
pub open spec fn is_path_special(c: char) -> bool {
    c == '/' || c == '\\' || c == ':' || c == '*' || c == '?' || c == '"' || c == '<' || c == '>'
        || c == '|'
}

pub open spec fn sanitize_char(c: char) -> char {
    if is_path_special(c) {
        '_'
    } else {
        c
    }
}

/// The file-system-safe form of a name: path-special characters replaced by
/// `_`, surrounding whitespace trimmed.
pub open spec fn spec_sanitize_filename(s: Seq<char>) -> Seq<char> {
    trim_ws(s.map_values(|c: char| sanitize_char(c)))
}

/// Sanitizes a name for use as a file name: the characters
/// `/ \ : * ? " < > |` become `_`, and surrounding whitespace is trimmed.
pub fn sanitize_filename(name: &str) -> (r: String)
    ensures
        r@ == spec_sanitize_filename(name@),
{
    let v = chars_vec(name);
    let mut mapped: Vec<char> = Vec::new();
    let mut i: usize = 0;
    while i < v.len()
        invariant
            i <= v@.len(),
            mapped@ == v@.subrange(0, i as int).map_values(|c: char| sanitize_char(c)),
        decreases v@.len() - i,
    {
        let c = v[i];
        let mc = if c == '/' || c == '\\' || c == ':' || c == '*' || c == '?' || c == '"' || c
            == '<' || c == '>' || c == '|' {
            '_'
        } else {
            c
        };
        mapped.push(mc);
        i = i + 1;
        proof {
            assert(mapped@ =~= v@.subrange(0, i as int).map_values(|c: char| sanitize_char(c)));
        }
    }
    proof {
        assert(v@.subrange(0, v@.len() as int) =~= v@);
    }
    let trimmed = trim_chars(&mapped);
    string_of_chars(&trimmed)
}

/// Characters kept by the slug: ASCII letters and digits, and whitespace as
/// word separators.
pub open spec fn slug_keep(c: char) -> bool {
    is_ascii_alnum(c) || is_space(c)
}

/// At most the first three words of `ws`.
pub open spec fn first_words(ws: Seq<Seq<char>>) -> Seq<Seq<char>> {
    if ws.len() <= 3 {
        ws
    } else {
        ws.take(3)
    }
}

/// The slug of a title: drop everything but ASCII alphanumerics and
/// whitespace, keep at most the first three words, join them with `_`,
/// lowercased.
pub open spec fn spec_title_slug(s: Seq<char>) -> Seq<char> {
    lower_chars(join_underscore(first_words(split_ws(s.filter(|c: char| slug_keep(c))))))
}

/// File path manager for the managed data tree.
#[derive(Debug)]
pub struct DataPaths {
    root: String,
}

impl View for DataPaths {
    type V = Seq<char>;

    closed spec fn view(&self) -> Seq<char> {
        self.root@
    }
}

impl Clone for DataPaths {
    /// A path manager over the same root.
    fn clone(&self) -> (r: Self)
        ensures
            r@ == self@,
    {
        DataPaths { root: self.root.clone() }
    }
}

/// `base` as a directory prefix, with a separator appended unless the base is
/// empty or already ends with one.
pub fn dir_prefix(base: &String) -> (r: String)
    ensures
        r@ == root_prefix(base@),
{
    let v = chars_vec(base.as_str());
    let mut s = base.clone();
    if v.len() > 0 && v[v.len() - 1] != '/' {
        push_char(&mut s, '/');
    }
    s
}

impl DataPaths {
    /// A path manager rooted at the given directory.
    pub fn new(root: &str) -> (r: DataPaths)
        ensures
            r@ == root@,
    {
        DataPaths { root: String::from_str(root) }
    }

    /// The root data directory.
    pub fn root(&self) -> (r: &str)
        ensures
            r@ == self@,
    {
        self.root.as_str()
    }

    fn rooted(&self) -> (r: String)
        ensures
            r@ == root_prefix(self@),
    {
        dir_prefix(&self.root)
    }

    /// Video directory of a series: `videos/<id>/episodes`.
    pub fn video_dir(&self, anime_id: u32) -> (r: String)
        ensures
            r@ == under_root(self@, "videos/"@ + dec_digits(anime_id as nat) + "/episodes"@),
    {
        let mut s = self.rooted();
        s.append("videos/");
        push_dec(&mut s, anime_id as u64);
        s.append("/episodes");
        proof {
            assert(s@ =~= under_root(
                self@,
                "videos/"@ + dec_digits(anime_id as nat) + "/episodes"@,
            ));
        }
        s
    }

    /// Video file of an episode: `videos/<id>/episodes/ep<NNN>.mkv`.
    pub fn video_file(&self, anime_id: u32, episode: u32) -> (r: String)
        ensures
            r@ == under_root(
                self@,
                "videos/"@ + dec_digits(anime_id as nat) + "/episodes/ep"@ + pad3_digits(
                    episode as nat,
                ) + ".mkv"@,
            ),
    {
        let mut s = self.rooted();
        s.append("videos/");
        push_dec(&mut s, anime_id as u64);
        s.append("/episodes/ep");
        push_pad3(&mut s, episode as u64);
        s.append(".mkv");
        proof {
            assert(s@ =~= under_root(
                self@,
                "videos/"@ + dec_digits(anime_id as nat) + "/episodes/ep"@ + pad3_digits(
                    episode as nat,
                ) + ".mkv"@,
            ));
        }
        s
    }

    /// Audio directory of a series: `audio/<id>`.
    pub fn audio_dir(&self, anime_id: u32) -> (r: String)
        ensures
            r@ == under_root(self@, "audio/"@ + dec_digits(anime_id as nat)),
    {
        let mut s = self.rooted();
        s.append("audio/");
        push_dec(&mut s, anime_id as u64);
        proof {
            assert(s@ =~= under_root(self@, "audio/"@ + dec_digits(anime_id as nat)));
        }
        s
    }

    /// Audio file of an episode: `audio/<id>/ep<NNN>.wav`.
    pub fn audio_file(&self, anime_id: u32, episode: u32) -> (r: String)
        ensures
            r@ == under_root(
                self@,
                "audio/"@ + dec_digits(anime_id as nat) + "/ep"@ + pad3_digits(episode as nat)
                    + ".wav"@,
            ),
    {
        let mut s = self.rooted();
        s.append("audio/");
        push_dec(&mut s, anime_id as u64);
        s.append("/ep");
        push_pad3(&mut s, episode as u64);
        s.append(".wav");
        proof {
            assert(s@ =~= under_root(
                self@,
                "audio/"@ + dec_digits(anime_id as nat) + "/ep"@ + pad3_digits(episode as nat)
                    + ".wav"@,
            ));
        }
        s
    }

    /// Transcript directory of a series: `transcripts/<id>`.
    pub fn transcript_dir(&self, anime_id: u32) -> (r: String)
        ensures
            r@ == under_root(self@, "transcripts/"@ + dec_digits(anime_id as nat)),
    {
        let mut s = self.rooted();
        s.append("transcripts/");
        push_dec(&mut s, anime_id as u64);
        proof {
            assert(s@ =~= under_root(self@, "transcripts/"@ + dec_digits(anime_id as nat)));
        }
        s
    }

    /// Plain-text transcript of an episode: `transcripts/<id>/ep<NNN>.txt`.
    pub fn transcript_txt(&self, anime_id: u32, episode: u32) -> (r: String)
        ensures
            r@ == under_root(
                self@,
                "transcripts/"@ + dec_digits(anime_id as nat) + "/ep"@ + pad3_digits(episode as nat)
                    + ".txt"@,
            ),
    {
        let mut s = self.rooted();
        s.append("transcripts/");
        push_dec(&mut s, anime_id as u64);
        s.append("/ep");
        push_pad3(&mut s, episode as u64);
        s.append(".txt");
        proof {
            assert(s@ =~= under_root(
                self@,
                "transcripts/"@ + dec_digits(anime_id as nat) + "/ep"@ + pad3_digits(episode as nat)
                    + ".txt"@,
            ));
        }
        s
    }

    /// Timestamped transcript of an episode: `transcripts/<id>/ep<NNN>.json`.
    pub fn transcript_json(&self, anime_id: u32, episode: u32) -> (r: String)
        ensures
            r@ == under_root(
                self@,
                "transcripts/"@ + dec_digits(anime_id as nat) + "/ep"@ + pad3_digits(episode as nat)
                    + ".json"@,
            ),
    {
        let mut s = self.rooted();
        s.append("transcripts/");
        push_dec(&mut s, anime_id as u64);
        s.append("/ep");
        push_pad3(&mut s, episode as u64);
        s.append(".json");
        proof {
            assert(s@ =~= under_root(
                self@,
                "transcripts/"@ + dec_digits(anime_id as nat) + "/ep"@ + pad3_digits(episode as nat)
                    + ".json"@,
            ));
        }
        s
    }

    /// Token directory of a series: `tokens/<id>`.
    pub fn tokens_dir(&self, anime_id: u32) -> (r: String)
        ensures
            r@ == under_root(self@, "tokens/"@ + dec_digits(anime_id as nat)),
    {
        let mut s = self.rooted();
        s.append("tokens/");
        push_dec(&mut s, anime_id as u64);
        proof {
            assert(s@ =~= under_root(self@, "tokens/"@ + dec_digits(anime_id as nat)));
        }
        s
    }

    /// Tokenization output of an episode: `tokens/<id>/ep<NNN>_tokens.json`.
    pub fn tokens_json(&self, anime_id: u32, episode: u32) -> (r: String)
        ensures
            r@ == under_root(
                self@,
                "tokens/"@ + dec_digits(anime_id as nat) + "/ep"@ + pad3_digits(episode as nat)
                    + "_tokens.json"@,
            ),
    {
        let mut s = self.rooted();
        s.append("tokens/");
        push_dec(&mut s, anime_id as u64);
        s.append("/ep");
        push_pad3(&mut s, episode as u64);
        s.append("_tokens.json");
        proof {
            assert(s@ =~= under_root(
                self@,
                "tokens/"@ + dec_digits(anime_id as nat) + "/ep"@ + pad3_digits(episode as nat)
                    + "_tokens.json"@,
            ));
        }
        s
    }

    /// Word-frequency table of an episode: `tokens/<id>/ep<NNN>_freq.csv`.
    pub fn freq_csv(&self, anime_id: u32, episode: u32) -> (r: String)
        ensures
            r@ == under_root(
                self@,
                "tokens/"@ + dec_digits(anime_id as nat) + "/ep"@ + pad3_digits(episode as nat)
                    + "_freq.csv"@,
            ),
    {
        let mut s = self.rooted();
        s.append("tokens/");
        push_dec(&mut s, anime_id as u64);
        s.append("/ep");
        push_pad3(&mut s, episode as u64);
        s.append("_freq.csv");
        proof {
            assert(s@ =~= under_root(
                self@,
                "tokens/"@ + dec_digits(anime_id as nat) + "/ep"@ + pad3_digits(episode as nat)
                    + "_freq.csv"@,
            ));
        }
        s
    }

    /// Analysis directory of a series: `analysis/per_series/<id>`.
    pub fn analysis_dir(&self, anime_id: u32) -> (r: String)
        ensures
            r@ == under_root(self@, "analysis/per_series/"@ + dec_digits(anime_id as nat)),
    {
        let mut s = self.rooted();
        s.append("analysis/per_series/");
        push_dec(&mut s, anime_id as u64);
        proof {
            assert(s@ =~= under_root(self@, "analysis/per_series/"@ + dec_digits(anime_id as nat)));
        }
        s
    }

    /// Zipf fit parameters of a series.
    pub fn zipf_params(&self, anime_id: u32) -> (r: String)
        ensures
            r@ == under_root(
                self@,
                "analysis/per_series/"@ + dec_digits(anime_id as nat) + "/zipf_params.json"@,
            ),
    {
        let mut s = self.analysis_dir(anime_id);
        s.append("/zipf_params.json");
        proof {
            assert(s@ =~= under_root(
                self@,
                "analysis/per_series/"@ + dec_digits(anime_id as nat) + "/zipf_params.json"@,
            ));
        }
        s
    }

    /// Zipf plot of a series.
    pub fn zipf_plot(&self, anime_id: u32) -> (r: String)
        ensures
            r@ == under_root(
                self@,
                "analysis/per_series/"@ + dec_digits(anime_id as nat) + "/zipf_plot.html"@,
            ),
    {
        let mut s = self.analysis_dir(anime_id);
        s.append("/zipf_plot.html");
        proof {
            assert(s@ =~= under_root(
                self@,
                "analysis/per_series/"@ + dec_digits(anime_id as nat) + "/zipf_plot.html"@,
            ));
        }
        s
    }

    /// Statistics summary of a series.
    pub fn statistics(&self, anime_id: u32) -> (r: String)
        ensures
            r@ == under_root(
                self@,
                "analysis/per_series/"@ + dec_digits(anime_id as nat) + "/statistics.json"@,
            ),
    {
        let mut s = self.analysis_dir(anime_id);
        s.append("/statistics.json");
        proof {
            assert(s@ =~= under_root(
                self@,
                "analysis/per_series/"@ + dec_digits(anime_id as nat) + "/statistics.json"@,
            ));
        }
        s
    }

    /// Series metadata file: `videos/<id>/metadata.json`.
    pub fn anime_metadata(&self, anime_id: u32) -> (r: String)
        ensures
            r@ == under_root(
                self@,
                "videos/"@ + dec_digits(anime_id as nat) + "/metadata.json"@,
            ),
    {
        let mut s = self.rooted();
        s.append("videos/");
        push_dec(&mut s, anime_id as u64);
        s.append("/metadata.json");
        proof {
            assert(s@ =~= under_root(
                self@,
                "videos/"@ + dec_digits(anime_id as nat) + "/metadata.json"@,
            ));
        }
        s
    }

    /// Cache directory: `cache`.
    pub fn cache_dir(&self) -> (r: String)
        ensures
            r@ == under_root(self@, "cache"@),
    {
        let mut s = self.rooted();
        s.append("cache");
        s
    }

    /// Catalog cache directory: `cache/mal_cache`.
    pub fn mal_cache_dir(&self) -> (r: String)
        ensures
            r@ == under_root(self@, "cache/mal_cache"@),
    {
        let mut s = self.rooted();
        s.append("cache/mal_cache");
        s
    }

    /// Category cache directory: `cache/mal_cache/categories/<type>`.
    pub fn category_cache_dir(&self, category_type: &str) -> (r: String)
        ensures
            r@ == under_root(self@, "cache/mal_cache/categories/"@ + category_type@),
    {
        let mut s = self.rooted();
        s.append("cache/mal_cache/categories/");
        s.append(category_type);
        proof {
            assert(s@ =~= under_root(self@, "cache/mal_cache/categories/"@ + category_type@));
        }
        s
    }

    /// Series cache directory: `cache/mal_cache/anime`.
    pub fn anime_cache_dir(&self) -> (r: String)
        ensures
            r@ == under_root(self@, "cache/mal_cache/anime"@),
    {
        let mut s = self.rooted();
        s.append("cache/mal_cache/anime");
        s
    }

    /// Cached category listing:
    /// `cache/mal_cache/categories/<type>/<name lowercased>_top50.json`.
    pub fn category_cache_file(&self, category_type: &str, category_name: &str) -> (r: String)
        ensures
            r@ == under_root(
                self@,
                "cache/mal_cache/categories/"@ + category_type@ + "/"@ + lower_of(category_name@)
                    + "_top50.json"@,
            ),
    {
        let mut s = self.category_cache_dir(category_type);
        s.append("/");
        let lowered = lowercase(category_name);
        s.append(lowered.as_str());
        s.append("_top50.json");
        proof {
            assert(s@ =~= under_root(
                self@,
                "cache/mal_cache/categories/"@ + category_type@ + "/"@ + lower_of(category_name@)
                    + "_top50.json"@,
            ));
        }
        s
    }

    /// Cached series metadata: `cache/mal_cache/anime/<id>_<slug>.json`.
    pub fn anime_cache_file(&self, mal_id: u32, title_slug: &str) -> (r: String)
        ensures
            r@ == under_root(
                self@,
                "cache/mal_cache/anime/"@ + dec_digits(mal_id as nat) + "_"@ + title_slug@
                    + ".json"@,
            ),
    {
        let mut s = self.rooted();
        s.append("cache/mal_cache/anime/");
        push_dec(&mut s, mal_id as u64);
        s.append("_");
        s.append(title_slug);
        s.append(".json");
        proof {
            assert(s@ =~= under_root(
                self@,
                "cache/mal_cache/anime/"@ + dec_digits(mal_id as nat) + "_"@ + title_slug@
                    + ".json"@,
            ));
        }
        s
    }

    /// The job database file: `jobs.db`.
    pub fn jobs_db(&self) -> (r: String)
        ensures
            r@ == under_root(self@, "jobs.db"@),
    {
        let mut s = self.rooted();
        s.append("jobs.db");
        s
    }

    /// Log directory: `logs`.
    pub fn logs_dir(&self) -> (r: String)
        ensures
            r@ == under_root(self@, "logs"@),
    {
        let mut s = self.rooted();
        s.append("logs");
        s
    }

    /// Log file of a component: `logs/<component>.log`.
    pub fn log_file(&self, component: &str) -> (r: String)
        ensures
            r@ == under_root(self@, "logs/"@ + component@ + ".log"@),
    {
        let mut s = self.rooted();
        s.append("logs/");
        s.append(component);
        s.append(".log");
        proof {
            assert(s@ =~= under_root(self@, "logs/"@ + component@ + ".log"@));
        }
        s
    }

    /// Model directory, beside the data root: `<parent of root>/models`.
    pub fn models_dir(&self) -> (r: String)
        ensures
            r@ == under_root(parent_dir(self@), "models"@),
    {
        let parent = self.parent_of_root();
        let mut s = dir_prefix(&parent);
        s.append("models");
        s
    }

    /// A speech-model file: `<parent of root>/models/ggml-<name>.bin`.
    pub fn whisper_model(&self, model_name: &str) -> (r: String)
        ensures
            r@ == under_root(
                parent_dir(self@),
                "models/ggml-"@ + model_name@ + ".bin"@,
            ),
    {
        let parent = self.parent_of_root();
        let mut s = dir_prefix(&parent);
        s.append("models/ggml-");
        s.append(model_name);
        s.append(".bin");
        proof {
            assert(s@ =~= under_root(
                parent_dir(self@),
                "models/ggml-"@ + model_name@ + ".bin"@,
            ));
        }
        s
    }

    fn parent_of_root(&self) -> (r: String)
        ensures
            r@ == parent_dir(self@),
    {
        let v = chars_vec(self.root.as_str());
        let mut i: usize = v.len();
        while i > 0 && v[i - 1] != '/'
            invariant
                i <= v@.len(),
                forall|k: int| i <= k < v@.len() ==> #[trigger] v@[k] != '/',
            decreases i,
        {
            i = i - 1;
        }
        proof {
            lemma_parent_dir_strip(v@, i as int);
        }
        if i == 0 {
            proof {
                assert(v@.subrange(0, 0) =~= Seq::<char>::empty());
            }
            String::new()
        } else if i == 1 {
            proof {
                assert(v@.subrange(0, 1) =~= seq!['/']);
                assert(parent_dir(seq!['/']) == seq!['/']);
                reveal_strlit("/");
                assert("/"@ =~= seq!['/']);
            }
            String::from_str("/")
        } else {
            let mut out: Vec<char> = Vec::new();
            let mut k: usize = 0;
            while k < i - 1
                invariant
                    i <= v@.len(),
                    k <= i - 1,
                    i >= 2,
                    out@ == v@.subrange(0, k as int),
                decreases i - k,
            {
                out.push(v[k]);
                k = k + 1;
                proof {
                    assert(out@ =~= v@.subrange(0, k as int));
                }
            }
            proof {
                assert(v@.subrange(0, i as int).drop_last() =~= v@.subrange(0, i - 1));
                assert(v@.subrange(0, i as int).last() == v@[i - 1]);
            }
            string_of_chars(&out)
        }
    }

    /// Aggregated analysis directory: `analysis/aggregated`.
    pub fn aggregated_dir(&self) -> (r: String)
        ensures
            r@ == under_root(self@, "analysis/aggregated"@),
    {
        let mut s = self.rooted();
        s.append("analysis/aggregated");
        s
    }

    /// Genre-level analysis directory:
    /// `analysis/aggregated/by_genre/<genre lowercased>`.
    pub fn genre_analysis_dir(&self, genre: &str) -> (r: String)
        ensures
            r@ == under_root(self@, "analysis/aggregated/by_genre/"@ + lower_of(genre@)),
    {
        let mut s = self.rooted();
        s.append("analysis/aggregated/by_genre/");
        let lowered = lowercase(genre);
        s.append(lowered.as_str());
        proof {
            assert(s@ =~= under_root(self@, "analysis/aggregated/by_genre/"@ + lower_of(genre@)));
        }
        s
    }

    /// Studio-level analysis directory:
    /// `analysis/aggregated/by_studio/<studio lowercased>`.
    pub fn studio_analysis_dir(&self, studio: &str) -> (r: String)
        ensures
            r@ == under_root(self@, "analysis/aggregated/by_studio/"@ + lower_of(studio@)),
    {
        let mut s = self.rooted();
        s.append("analysis/aggregated/by_studio/");
        let lowered = lowercase(studio);
        s.append(lowered.as_str());
        proof {
            assert(s@ =~= under_root(self@, "analysis/aggregated/by_studio/"@ + lower_of(studio@)));
        }
        s
    }

    /// The slug form of an anime title, used in cache file names.
    pub fn title_to_slug(title: &str) -> (r: String)
        ensures
            r@ == spec_title_slug(title@),
    {
        let v = chars_vec(title);
        let mut kept: Vec<char> = Vec::new();
        let mut i: usize = 0;
        while i < v.len()
            invariant
                i <= v@.len(),
                kept@ == v@.subrange(0, i as int).filter(|c: char| slug_keep(c)),
            decreases v@.len() - i,
        {
            let c = v[i];
            if is_ascii_alnum_exec(c) || is_space_exec(c) {
                kept.push(c);
            }
            proof {
                lemma_filter_take_step(v@, |ch: char| slug_keep(ch), i as int);
            }
            i = i + 1;
        }
        proof {
            assert(v@.subrange(0, v@.len() as int) =~= v@);
        }
        let mut words = split_ws_exec(&kept);
        proof {
            assert(words.deep_view() =~= split_ws(kept@));
        }
        if words.len() > 3 {
            let ghost before = words.deep_view();
            words.truncate(3);
            proof {
                assert(words.deep_view() =~~= before.take(3));
            }
        }
        let joined = join_underscore_exec(&words);
        let lowered = lower_chars_exec(&joined);
        string_of_chars(&lowered)
    }

    /// The directories that `create_dirs` (in the surrounding binary) must
    /// create, in order.
    pub fn dirs_to_create(&self) -> (r: Vec<String>)
        ensures
            r@.len() == 14,
            r@[0]@ == under_root(self@, "videos"@),
            r@[1]@ == under_root(self@, "audio"@),
            r@[2]@ == under_root(self@, "transcripts"@),
            r@[3]@ == under_root(self@, "tokens"@),
            r@[4]@ == under_root(self@, "analysis/per_series"@),
            r@[5]@ == under_root(self@, "analysis/aggregated/by_genre"@),
            r@[6]@ == under_root(self@, "analysis/aggregated/by_studio"@),
            r@[7]@ == under_root(self@, "cache/mal_cache/categories/genres"@),
            r@[8]@ == under_root(self@, "cache/mal_cache/categories/themes"@),
            r@[9]@ == under_root(self@, "cache/mal_cache/categories/demographics"@),
            r@[10]@ == under_root(self@, "cache/mal_cache/categories/studios"@),
            r@[11]@ == under_root(self@, "cache/mal_cache/anime"@),
            r@[12]@ == under_root(self@, "logs"@),
            r@[13]@ == under_root(parent_dir(self@), "models"@),
    {
        let mut dirs: Vec<String> = Vec::new();
        let mut s = self.rooted();
        s.append("videos");
        dirs.push(s);
        let mut s = self.rooted();
        s.append("audio");
        dirs.push(s);
        let mut s = self.rooted();
        s.append("transcripts");
        dirs.push(s);
        let mut s = self.rooted();
        s.append("tokens");
        dirs.push(s);
        let mut s = self.rooted();
        s.append("analysis/per_series");
        dirs.push(s);
        let mut s = self.rooted();
        s.append("analysis/aggregated/by_genre");
        dirs.push(s);
        let mut s = self.rooted();
        s.append("analysis/aggregated/by_studio");
        dirs.push(s);
        let mut s = self.rooted();
        s.append("cache/mal_cache/categories/genres");
        dirs.push(s);
        let mut s = self.rooted();
        s.append("cache/mal_cache/categories/themes");
        dirs.push(s);
        let mut s = self.rooted();
        s.append("cache/mal_cache/categories/demographics");
        dirs.push(s);
        let mut s = self.rooted();
        s.append("cache/mal_cache/categories/studios");
        dirs.push(s);
        let mut s = self.rooted();
        s.append("cache/mal_cache/anime");
        dirs.push(s);
        dirs.push(self.logs_dir());
        dirs.push(self.models_dir());
        dirs
    }
}

} // verus!
