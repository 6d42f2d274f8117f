//! Title selection decisions: command construction for the selection
//! helper, candidate picking, cache rows and session statistics.
//!
//! The helper itself is a subprocess run by the surrounding binary, which
//! parses its JSON answer into plain values and hands them in.

use vstd::prelude::*;
use vstd::string::StringExecFns;

use crate::model::Confidence;
use crate::model::SelectionRow;
use crate::text::dec_signed;
use crate::text::push_dec_signed;

verus! {

broadcast use vstd::string::group_string_axioms;

/// The parsed answer of the selection helper.
#[derive(Debug)]
pub struct SelectionResult {
    /// 1-based index into the candidate list.
    pub index: i32,
    pub confidence: Confidence,
    pub reason: String,
    pub mal_episodes: Option<i32>,
    pub selected_episodes: Option<i32>,
    pub episode_match: Option<String>,
}

/// Totals of one selection session.
#[derive(Debug, Clone, Copy, PartialEq, Eq, Structural)]
pub struct SelectionStats {
    pub total: usize,
    pub cached: usize,
    pub selected: usize,
    pub high_confidence: usize,
    pub medium_confidence: usize,
    pub low_confidence: usize,
    pub no_candidates: usize,
    pub errors: usize,
}

/// What happened to one series during selection.
#[derive(Debug, Clone, Copy, PartialEq, Eq, Structural)]
pub enum SelectionOutcome {
    /// A cached selection already existed.
    Cached,
    /// A fresh selection with this confidence was made.
    Selected(Confidence),
    /// The helper failed.
    Failed,
}

impl SelectionStats {
    /// Every sub-count is bounded by the total.
    pub open spec fn wf(&self) -> bool {
        &&& self.cached <= self.total
        &&& self.selected <= self.total
        &&& self.high_confidence <= self.total
        &&& self.medium_confidence <= self.total
        &&& self.low_confidence <= self.total
        &&& self.no_candidates <= self.total
        &&& self.errors <= self.total
    }

    /// All totals at zero.
    pub fn new() -> (r: SelectionStats)
        ensures
            r.wf(),
            r.total == 0,
            r.cached == 0,
            r.selected == 0,
            r.high_confidence == 0,
            r.medium_confidence == 0,
            r.low_confidence == 0,
            r.no_candidates == 0,
            r.errors == 0,
    {
        SelectionStats {
            total: 0,
            cached: 0,
            selected: 0,
            high_confidence: 0,
            medium_confidence: 0,
            low_confidence: 0,
            no_candidates: 0,
            errors: 0,
        }
    }

    /// Tallies the outcome of one series: the total always grows by one,
    /// and exactly the matching sub-counts grow with it.
    pub fn record(&mut self, outcome: SelectionOutcome)
        requires
            old(self).wf(),
            old(self).total < usize::MAX,
        ensures
            final(self).wf(),
            final(self).total == old(self).total + 1,
            final(self).cached == old(self).cached + (if outcome == SelectionOutcome::Cached {
                1int
            } else {
                0int
            }),
            final(self).errors == old(self).errors + (if outcome == SelectionOutcome::Failed {
                1int
            } else {
                0int
            }),
            final(self).no_candidates == old(self).no_candidates + (if outcome
                == SelectionOutcome::Selected(Confidence::NoCandidates) {
                1int
            } else {
                0int
            }),
            final(self).selected == old(self).selected + (match outcome {
                SelectionOutcome::Selected(c) => if c == Confidence::NoCandidates {
                    0int
                } else {
                    1int
                },
                _ => 0int,
            }),
            final(self).high_confidence == old(self).high_confidence + (if outcome
                == SelectionOutcome::Selected(Confidence::High) {
                1int
            } else {
                0int
            }),
            final(self).medium_confidence == old(self).medium_confidence + (if outcome
                == SelectionOutcome::Selected(Confidence::Medium) {
                1int
            } else {
                0int
            }),
            final(self).low_confidence == old(self).low_confidence + (if outcome
                == SelectionOutcome::Selected(Confidence::Low) {
                1int
            } else {
                0int
            }),
    {
        self.total = self.total + 1;
        match outcome {
            SelectionOutcome::Cached => {
                self.cached = self.cached + 1;
            },
            SelectionOutcome::Failed => {
                self.errors = self.errors + 1;
            },
            SelectionOutcome::Selected(c) => {
                match c {
                    Confidence::NoCandidates => {
                        self.no_candidates = self.no_candidates + 1;
                    },
                    Confidence::High => {
                        self.selected = self.selected + 1;
                        self.high_confidence = self.high_confidence + 1;
                    },
                    Confidence::Medium => {
                        self.selected = self.selected + 1;
                        self.medium_confidence = self.medium_confidence + 1;
                    },
                    Confidence::Low => {
                        self.selected = self.selected + 1;
                        self.low_confidence = self.low_confidence + 1;
                    },
                }
            },
        }
    }
}

/// Shell-special under double quotes: backslash, double quote, dollar,
/// backtick.
pub open spec fn dq_special(c: char) -> bool {
    c == '\\' || c == '"' || c == '$' || c == '`'
}

/// The double-quote escape of a string, character by character.
pub open spec fn dq_escaped(s: Seq<char>) -> Seq<char>
    decreases s.len(),
{
    if s.len() == 0 {
        Seq::empty()
    } else {
        dq_escaped(s.drop_last()) + (if dq_special(s.last()) {
            seq!['\\', s.last()]
        } else {
            seq![s.last()]
        })
    }
}

/// A string quoted for use inside a shell command, with double quotes:
/// backslash, quote, dollar and backtick escaped.
pub open spec fn spec_shell_quote(s: Seq<char>) -> Seq<char> {
    seq!['"'] + dq_escaped(s) + seq!['"']
}

proof fn lemma_dq_escaped_take_step(s: Seq<char>, i: int)
    requires
        0 <= i < s.len(),
    ensures
        dq_escaped(s.subrange(0, i + 1)) == dq_escaped(s.subrange(0, i)) + (if dq_special(s[i]) {
            seq!['\\', s[i]]
        } else {
            seq![s[i]]
        }),
{
    let t = s.subrange(0, i + 1);
    assert(t.drop_last() =~= s.subrange(0, i));
    assert(t.last() == s[i]);
}

/// Quotes an argument for interpolation into a shell command line, using
/// double quotes.
pub fn shell_quote(s: &str) -> (r: String)
    ensures
        r@ == spec_shell_quote(s@),
{
    let v = crate::text::chars_vec(s);
    let mut out: Vec<char> = Vec::new();
    out.push('"');
    let mut i: usize = 0;
    proof {
        assert(v@.subrange(0, 0) =~= Seq::<char>::empty());
        assert(out@ =~= seq!['"'] + dq_escaped(v@.subrange(0, 0)));
    }
    while i < v.len()
        invariant
            i <= v@.len(),
            out@ == seq!['"'] + dq_escaped(v@.subrange(0, i as int)),
        decreases v@.len() - i,
    {
        proof {
            lemma_dq_escaped_take_step(v@, i as int);
        }
        let c = v[i];
        if c == '\\' || c == '"' || c == '$' || c == '`' {
            out.push('\\');
        }
        out.push(c);
        i = i + 1;
        proof {
            assert(out@ =~= seq!['"'] + dq_escaped(v@.subrange(0, i as int)));
        }
    }
    out.push('"');
    proof {
        assert(v@.subrange(0, v@.len() as int) =~= v@);
        assert(out@ =~= spec_shell_quote(v@));
    }
    crate::text::string_of_chars(&out)
}

/// The single-quote escape: each `'` becomes `'\''`.
pub open spec fn sq_escaped(s: Seq<char>) -> Seq<char>
    decreases s.len(),
{
    if s.len() == 0 {
        Seq::empty()
    } else {
        sq_escaped(s.drop_last()) + (if s.last() == '\'' {
            seq!['\'', '\\', '\'', '\'']
        } else {
            seq![s.last()]
        })
    }
}

/// A string quoted for the shell with single quotes, which suppress all
/// expansion.
pub open spec fn spec_shell_quote_single(s: Seq<char>) -> Seq<char> {
    seq!['\''] + sq_escaped(s) + seq!['\'']
}

proof fn lemma_sq_escaped_take_step(s: Seq<char>, i: int)
    requires
        0 <= i < s.len(),
    ensures
        sq_escaped(s.subrange(0, i + 1)) == sq_escaped(s.subrange(0, i)) + (if s[i] == '\'' {
            seq!['\'', '\\', '\'', '\'']
        } else {
            seq![s[i]]
        }),
{
    let t = s.subrange(0, i + 1);
    assert(t.drop_last() =~= s.subrange(0, i));
    assert(t.last() == s[i]);
}

/// Quotes an argument for the shell using single quotes.
pub fn shell_quote_single(s: &str) -> (r: String)
    ensures
        r@ == spec_shell_quote_single(s@),
{
    let v = crate::text::chars_vec(s);
    let mut out: Vec<char> = Vec::new();
    out.push('\'');
    let mut i: usize = 0;
    proof {
        assert(v@.subrange(0, 0) =~= Seq::<char>::empty());
        assert(out@ =~= seq!['\''] + sq_escaped(v@.subrange(0, 0)));
    }
    while i < v.len()
        invariant
            i <= v@.len(),
            out@ == seq!['\''] + sq_escaped(v@.subrange(0, i as int)),
        decreases v@.len() - i,
    {
        proof {
            lemma_sq_escaped_take_step(v@, i as int);
        }
        let c = v[i];
        if c == '\'' {
            out.push('\'');
            out.push('\\');
            out.push('\'');
            out.push('\'');
        } else {
            out.push(c);
        }
        i = i + 1;
        proof {
            assert(out@ =~= seq!['\''] + sq_escaped(v@.subrange(0, i as int)));
        }
    }
    out.push('\'');
    proof {
        assert(v@.subrange(0, v@.len() as int) =~= v@);
        assert(out@ =~= spec_shell_quote_single(v@));
    }
    crate::text::string_of_chars(&out)
}

/// The helper invocation for one series: the script with the catalog title
/// and the candidate list, followed by whichever hints are known.
pub fn select_command(
    title: &str,
    candidates_json: &str,
    episodes: Option<i32>,
    year: Option<i32>,
    anime_type: Option<&str>,
    api_key: &str,
) -> (r: String)
    ensures
        r@ == "scripts/select_anime.py --mal-title "@ + spec_shell_quote(title@)
            + " --candidates "@ + spec_shell_quote_single(candidates_json@) + (match episodes {
            Some(e) => " --episodes "@ + dec_signed(e as int),
            None => Seq::<char>::empty(),
        }) + (match year {
            Some(y) => " --year "@ + dec_signed(y as int),
            None => Seq::<char>::empty(),
        }) + (match anime_type {
            Some(t) => " --anime-type "@ + spec_shell_quote(t@),
            None => Seq::<char>::empty(),
        }) + (if api_key@.len() > 0 {
            " --api-key "@ + spec_shell_quote(api_key@)
        } else {
            Seq::<char>::empty()
        }),
{
    let mut s = <String as StringExecFns>::from_str("scripts/select_anime.py --mal-title ");
    let qt = shell_quote(title);
    s.append(qt.as_str());
    s.append(" --candidates ");
    let qc = shell_quote_single(candidates_json);
    s.append(qc.as_str());
    if let Some(e) = episodes {
        s.append(" --episodes ");
        push_dec_signed(&mut s, e as i64);
    }
    if let Some(y) = year {
        s.append(" --year ");
        push_dec_signed(&mut s, y as i64);
    }
    if let Some(t) = anime_type {
        s.append(" --anime-type ");
        let qa = shell_quote(t);
        s.append(qa.as_str());
    }
    let key_chars = crate::text::chars_vec(api_key);
    if key_chars.len() > 0 {
        s.append(" --api-key ");
        let qk = shell_quote(api_key);
        s.append(qk.as_str());
    }
    proof {
        assert(s@ =~= "scripts/select_anime.py --mal-title "@ + spec_shell_quote(title@)
            + " --candidates "@ + spec_shell_quote_single(candidates_json@) + (match episodes {
            Some(e) => " --episodes "@ + dec_signed(e as int),
            None => Seq::<char>::empty(),
        }) + (match year {
            Some(y) => " --year "@ + dec_signed(y as int),
            None => Seq::<char>::empty(),
        }) + (match anime_type {
            Some(t) => " --anime-type "@ + spec_shell_quote(t@),
            None => Seq::<char>::empty(),
        }) + (if api_key@.len() > 0 {
            " --api-key "@ + spec_shell_quote(api_key@)
        } else {
            Seq::<char>::empty()
        }));
    }
    s
}

/// The full shell line the binary runs: history expansion off, the helper's
/// interpreter environment activated, then the helper invocation.
pub fn full_select_command(python_cmd: &str) -> (r: String)
    ensures
        r@ == "set +H && eval \"$(conda shell.zsh hook)\" && conda activate GDA2025 && python3 "@
            + python_cmd@,
{
    let mut s = <String as StringExecFns>::from_str(
        "set +H && eval \"$(conda shell.zsh hook)\" && conda activate GDA2025 && python3 ",
    );
    s.append(python_cmd);
    s
}

/// The candidate a 1-based index picks; anything out of range falls back to
/// the first candidate.
pub fn selection_pick(candidates: &Vec<String>, index: i32) -> (r: String)
    requires
        candidates@.len() > 0,
    ensures
        r@ == (if 1 <= index && index as int <= candidates@.len() {
            candidates@[index - 1]@
        } else {
            candidates@[0]@
        }),
{
    if 1 <= index && (index as usize) <= candidates.len() {
        candidates[(index as usize) - 1].clone()
    } else {
        candidates[0].clone()
    }
}

/// The cache row recorded when the candidate service returned nothing for a
/// series: a `-1` index, `no_candidates` confidence and an explanatory
/// reason.
pub fn no_candidates_row(mal_id: u32, title: &str, episodes: Option<i32>) -> (r: SelectionRow)
    ensures
        r.mal_id == mal_id,
        r.anime_title@ == title@,
        r.search_query@ == title@,
        r.selected_index == -1,
        r.selected_title@ == "N/A"@,
        r.confidence == Confidence::NoCandidates,
        (r.reason matches Some(m) && m@
            == "No candidates found from AllAnime (likely adult content or not available)"@),
        r.mal_episodes == episodes,
        r.selected_episodes is None,
        (r.episode_match matches Some(m) && m@ == "unknown"@),
{
    SelectionRow {
        mal_id,
        anime_title: <String as StringExecFns>::from_str(title),
        search_query: <String as StringExecFns>::from_str(title),
        selected_index: -1,
        selected_title: <String as StringExecFns>::from_str("N/A"),
        confidence: Confidence::NoCandidates,
        reason: Some(
            <String as StringExecFns>::from_str(
                "No candidates found from AllAnime (likely adult content or not available)",
            ),
        ),
        mal_episodes: episodes,
        selected_episodes: None,
        episode_match: Some(<String as StringExecFns>::from_str("unknown")),
    }
}

/// The cache row for a fresh selection made by the helper.
pub fn selection_row_from_result(
    mal_id: u32,
    title: &str,
    selected_title: &str,
    result: &SelectionResult,
) -> (r: SelectionRow)
    ensures
        r.mal_id == mal_id,
        r.anime_title@ == title@,
        r.search_query@ == title@,
        r.selected_index == result.index,
        r.selected_title@ == selected_title@,
        r.confidence == result.confidence,
        (r.reason matches Some(m) && m@ == result.reason@),
        r.mal_episodes == result.mal_episodes,
        r.selected_episodes == result.selected_episodes,
        (match result.episode_match {
            Some(m) => r.episode_match matches Some(x) && x@ == m@,
            None => r.episode_match is None,
        }),
{
    SelectionRow {
        mal_id,
        anime_title: <String as StringExecFns>::from_str(title),
        search_query: <String as StringExecFns>::from_str(title),
        selected_index: result.index,
        selected_title: <String as StringExecFns>::from_str(selected_title),
        confidence: result.confidence,
        reason: Some(result.reason.clone()),
        mal_episodes: result.mal_episodes,
        selected_episodes: result.selected_episodes,
        episode_match: crate::model::clone_opt_string(&result.episode_match),
    }
}

} // verus!
