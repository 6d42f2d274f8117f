//! Download worker decisions: the selection requirement, the search title, the
//! expected output file and the discovery of what the tool produced.
//!
//! The download tool itself is a subprocess run by the surrounding binary;
//! everything it is given and everything read back from the file system is
//! computed and checked here.

use vstd::prelude::*;
use vstd::string::StringExecFns;

use crate::model::AnimeSelection;
use crate::model::Confidence;
use crate::model::Job;
use crate::paths::DataPaths;
use crate::paths::spec_sanitize_filename;
use crate::paths::sanitize_filename;
use crate::paths::under_root;
use crate::text::chars_vec;
use crate::text::dec_digits;
use crate::text::pad3_digits;
use crate::text::push_dec;
use crate::text::push_pad3;
use crate::text::str_eq;
use crate::text::string_of_chars;

verus! {

broadcast use vstd::string::group_string_axioms;

/// The index where the first `" ("` begins, or the length when none occurs.
pub open spec fn paren_suffix_start(s: Seq<char>) -> int
    decreases s.len(),
{
    if s.len() < 2 {
        s.len() as int
    } else if s[0] == ' ' && s[1] == '(' {
        0
    } else {
        1 + paren_suffix_start(s.drop_first())
    }
}

/// The title up to (excluding) the first `" ("`: a catalog title stripped of
/// a trailing episode-count annotation.
pub open spec fn strip_paren_suffix(s: Seq<char>) -> Seq<char> {
    s.take(paren_suffix_start(s))
}

proof fn lemma_paren_suffix_from_index(s: Seq<char>, i: int)
    requires
        0 <= i <= s.len(),
        forall|k: int| 0 <= k < i ==> !(#[trigger] s[k] == ' ' && k + 1 < s.len() && s[k + 1] == '('),
        i + 2 <= s.len() ==> s[i] == ' ' && s[i + 1] == '(',
        i + 2 > s.len() ==> i == s.len(),
    ensures
        paren_suffix_start(s) == i,
    decreases i,
{
    if s.len() < 2 {
        assert(i == s.len());
    } else if i == 0 {
        assert(s[0] == ' ' && s[1] == '(');
    } else {
        let t = s.drop_first();
        assert forall|k: int|
            0 <= k < i - 1 implies !(#[trigger] t[k] == ' ' && k + 1 < t.len() && t[k + 1] == '(') by {
            assert(t[k] == s[k + 1]);
            if k + 1 < t.len() {
                assert(t[k + 1] == s[k + 2]);
            }
            assert(!(s[k + 1] == ' ' && k + 2 < s.len() && s[k + 2] == '('));
        }
        if i - 1 + 2 <= t.len() {
            assert(t[i - 1] == s[i]);
            assert(t[i] == s[i + 1]);
        }
        lemma_paren_suffix_from_index(t, i - 1);
        assert(!(s[0] == ' ' && 1 < s.len() && s[1] == '('));
        assert(!(s[0] == ' ' && s[1] == '('));
    }
}

/// The title with a trailing `" (...)"` annotation removed: everything up to
/// the first `" ("`.
pub fn strip_episode_suffix(title: &str) -> (r: String)
    ensures
        r@ == strip_paren_suffix(title@),
{
    let v = chars_vec(title);
    let n = v.len();
    let mut i: usize = 0;
    while i < n && !(v[i] == ' ' && i + 1 < n && v[i + 1] == '(')
        invariant
            n == v@.len(),
            i <= n,
            forall|k: int|
                0 <= k < i ==> !(#[trigger] v@[k] == ' ' && k + 1 < n && v@[k + 1] == '('),
        decreases n - i,
    {
        i = i + 1;
    }
    proof {
        if i < n {
            assert(v@[i as int] == ' ' && i + 1 < n && v@[i as int + 1] == '(');
            lemma_paren_suffix_from_index(v@, i as int);
        } else {
            lemma_paren_suffix_from_index(v@, n as int);
        }
    }
    let mut out: Vec<char> = Vec::new();
    let mut k: usize = 0;
    while k < i
        invariant
            i <= v@.len(),
            k <= i,
            out@ == v@.subrange(0, k as int),
        decreases i - k,
    {
        out.push(v[k]);
        k = k + 1;
        proof {
            assert(out@ =~= v@.subrange(0, k as int));
        }
    }
    proof {
        assert(out@ =~= strip_paren_suffix(v@));
    }
    string_of_chars(&out)
}

/// What the download worker decides before running the tool.
#[derive(Debug)]
pub enum DownloadPlan {
    /// No selection is cached for the series: fail the job without retry.
    MissingSelection,
    /// The cached selection found no candidates: fail without retry.
    NoCandidates,
    /// Run the tool, searching for this title.
    Run { search_title: String },
}

/// The download decision: a job may only move into downloading work when a title
/// selection is cached for its series and that selection has candidates; the
/// tool then searches for the selected title, stripped of any trailing
/// `" (...)"` annotation.
pub fn plan_download(selection: &Option<AnimeSelection>) -> (r: DownloadPlan)
    ensures
        match selection {
            None => r is MissingSelection,
            Some(sel) => if sel.confidence == Confidence::NoCandidates {
                r is NoCandidates
            } else {
                r matches DownloadPlan::Run { search_title } && search_title@
                    == strip_paren_suffix(sel.selected_title@)
            },
        },
{
    match selection {
        None => DownloadPlan::MissingSelection,
        Some(sel) => {
            if sel.confidence == Confidence::NoCandidates {
                DownloadPlan::NoCandidates
            } else {
                DownloadPlan::Run { search_title: strip_episode_suffix(sel.selected_title.as_str()) }
            }
        },
    }
}

/// The canonical output file of a download:
/// `videos/<catalog id>/episodes/<sanitized title>_ep<NNN>.mp4`.
pub fn download_target(paths: &DataPaths, job: &Job) -> (r: String)
    ensures
        r@ == under_root(
            paths@,
            "videos/"@ + dec_digits(job.mal_id as nat) + "/episodes/"@ + spec_sanitize_filename(
                job.anime_title@,
            ) + "_ep"@ + pad3_digits(job.episode as nat) + ".mp4"@,
        ),
{
    let mut s = paths.video_dir(job.mal_id);
    s.append("/");
    let safe = sanitize_filename(job.anime_title.as_str());
    s.append(safe.as_str());
    s.append("_ep");
    push_pad3(&mut s, job.episode as u64);
    s.append(".mp4");
    proof {
        reveal_strlit("/episodes");
        reveal_strlit("/");
        reveal_strlit("/episodes/");
        assert("/episodes"@ + "/"@ =~= "/episodes/"@);
        assert(s@ =~= under_root(
            paths@,
            "videos/"@ + dec_digits(job.mal_id as nat) + "/episodes/"@ + spec_sanitize_filename(
                job.anime_title@,
            ) + "_ep"@ + pad3_digits(job.episode as nat) + ".mp4"@,
        ));
    }
    s
}

/// Whether `s` ends with `suffix`.
pub open spec fn ends_with_seq(s: Seq<char>, suffix: Seq<char>) -> bool {
    s.len() >= suffix.len() && s.subrange(s.len() - suffix.len(), s.len() as int) == suffix
}

fn ends_with_mp4(s: &str) -> (r: bool)
    ensures
        r == ends_with_seq(s@, ".mp4"@),
{
    proof {
        reveal_strlit(".mp4");
    }
    let v = chars_vec(s);
    let n = v.len();
    if n < 4 {
        return false;
    }
    let r = v[n - 4] == '.' && v[n - 3] == 'm' && v[n - 2] == 'p' && v[n - 1] == '4';
    proof {
        if r {
            assert(v@.subrange(n - 4, n as int) =~= ".mp4"@);
        } else {
            if v@.subrange(n - 4, n as int) == ".mp4"@ {
                assert(v@[n - 4] == ".mp4"@[0]);
                assert(v@[n - 3] == ".mp4"@[1]);
                assert(v@[n - 2] == ".mp4"@[2]);
                assert(v@[n - 1] == ".mp4"@[3]);
            }
        }
    }
    r
}

/// Whether some element of `dir` holds exactly the characters of `p`.
pub open spec fn listing_contains(dir: Seq<Seq<char>>, p: Seq<char>) -> bool {
    exists|k: int| 0 <= k < dir.len() && #[trigger] dir[k] == p
}

/// A path is the tool's new output: a `.mp4` file that was not present
/// before the invocation.
pub open spec fn is_new_video(p: Seq<char>, before: Seq<Seq<char>>) -> bool {
    ends_with_seq(p, ".mp4"@) && !listing_contains(before, p)
}

/// Finds the file the download tool created, by diffing the directory
/// listing from before the invocation against the one after: the first
/// `.mp4` entry that was not there before.
pub fn pick_new_video(before: &Vec<String>, after: &Vec<String>) -> (r: Option<String>)
    ensures
        match r {
            Some(p) => exists|i: int|
                0 <= i < after.deep_view().len() && p@ == after.deep_view()[i] && is_new_video(
                    #[trigger] after.deep_view()[i],
                    before.deep_view(),
                ) && forall|j: int|
                    0 <= j < i ==> !is_new_video(#[trigger] after.deep_view()[j], before.deep_view()),
            None => forall|i: int|
                0 <= i < after.deep_view().len() ==> !is_new_video(
                    #[trigger] after.deep_view()[i],
                    before.deep_view(),
                ),
        },
{
    let n = after.len();
    let mut i: usize = 0;
    while i < n
        invariant
            n == after@.len(),
            i <= n,
            forall|j: int|
                0 <= j < i ==> !is_new_video(#[trigger] after.deep_view()[j], before.deep_view()),
        decreases n - i,
    {
        let cand = &after[i];
        proof {
            assert(after.deep_view()[i as int] =~= cand@);
        }
        if ends_with_mp4(cand.as_str()) {
            let mut seen = false;
            let m = before.len();
            let mut k: usize = 0;
            while k < m
                invariant
                    m == before@.len(),
                    k <= m,
                    seen ==> listing_contains(before.deep_view(), cand@),
                    !seen ==> forall|q: int|
                        0 <= q < k ==> #[trigger] before.deep_view()[q] != cand@,
                decreases m - k,
            {
                proof {
                    assert(before.deep_view()[k as int] =~= before@[k as int]@);
                }
                if str_eq(before[k].as_str(), cand.as_str()) {
                    seen = true;
                }
                k = k + 1;
            }
            if !seen {
                proof {
                    assert(is_new_video(after.deep_view()[i as int], before.deep_view()));
                }
                return Some(cand.clone());
            }
        }
        proof {
            assert(!is_new_video(after.deep_view()[i as int], before.deep_view()));
        }
        i = i + 1;
    }
    None
}

/// The shell command that runs the download tool in the output directory:
/// `cd '<dir>' && ani-cli -d -e <episode> -S 1 '<title>'`.
pub fn ani_cli_command(output_dir: &str, episode: u32, search_title: &str) -> (r: String)
    ensures
        r@ == "cd '"@ + output_dir@ + "' && ani-cli -d -e "@ + dec_digits(episode as nat)
            + " -S 1 '"@ + search_title@ + "'"@,
{
    let mut s = <String as StringExecFns>::from_str("cd '");
    s.append(output_dir);
    s.append("' && ani-cli -d -e ");
    push_dec(&mut s, episode as u64);
    s.append(" -S 1 '");
    s.append(search_title);
    s.append("'");
    proof {
        assert(s@ =~= "cd '"@ + output_dir@ + "' && ani-cli -d -e "@ + dec_digits(episode as nat)
            + " -S 1 '"@ + search_title@ + "'"@);
    }
    s
}

} // verus!
