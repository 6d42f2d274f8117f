//! The hallucination filter for transcripts.
//!
//! Speech models emit boilerplate lines that never belong to the dialogue;
//! the filter drops every line matching one of a fixed case-insensitive
//! pattern set and collapses consecutive duplicate lines.

use vstd::prelude::*;

use crate::text::chars_vec;
use crate::text::contains_chars;
use crate::text::contains_seq;
use crate::text::lemma_filter_take_step;
use crate::text::lower_chars;
use crate::text::lower_chars_exec;
use crate::text::push_char;
use crate::text::string_of_chars;

verus! {

/// Whether a line matches one of the fixed boilerplate patterns,
/// case-insensitively (ASCII case).
pub open spec fn is_hallucination(line: Seq<char>) -> bool {
    ||| contains_seq(lower_chars(line), "thank you for watching"@)
    ||| contains_seq(lower_chars(line), "please subscribe"@)
    ||| contains_seq(lower_chars(line), "like and subscribe"@)
}

/// Whether a transcript line matches one of the fixed boilerplate patterns.
pub fn is_hallucination_line(line: &str) -> (r: bool)
    ensures
        r == is_hallucination(line@),
{
    let v = chars_vec(line);
    let lowered = lower_chars_exec(&v);
    let p1 = chars_vec("thank you for watching");
    let p2 = chars_vec("please subscribe");
    let p3 = chars_vec("like and subscribe");
    contains_chars(&lowered, &p1) || contains_chars(&lowered, &p2) || contains_chars(&lowered, &p3)
}

/// The lines that survive the filter.
pub open spec fn retain_lines(lines: Seq<Seq<char>>) -> Seq<Seq<char>> {
    lines.filter(|l: Seq<char>| !is_hallucination(l))
}

/// Consecutive duplicate lines collapsed to one.
pub open spec fn dedup_consecutive(lines: Seq<Seq<char>>) -> Seq<Seq<char>>
    decreases lines.len(),
{
    if lines.len() <= 1 {
        lines
    } else if lines.last() == lines[lines.len() - 2] {
        dedup_consecutive(lines.drop_last())
    } else {
        dedup_consecutive(lines.drop_last()).push(lines.last())
    }
}

proof fn lemma_dedup_take_step(lines: Seq<Seq<char>>, i: int)
    requires
        0 <= i < lines.len(),
    ensures
        dedup_consecutive(lines.subrange(0, i + 1)) == if i >= 1 && lines[i] == lines[i - 1] {
            dedup_consecutive(lines.subrange(0, i))
        } else {
            dedup_consecutive(lines.subrange(0, i)).push(lines[i])
        },
{
    let t = lines.subrange(0, i + 1);
    assert(t.drop_last() =~= lines.subrange(0, i));
    assert(t.last() == lines[i]);
    if i == 0 {
        assert(dedup_consecutive(t) == t);
        assert(t =~= lines.subrange(0, 0).push(lines[0]));
    }
}

/// The number of characters up to the first newline.
pub open spec fn leading_line(s: Seq<char>) -> nat
    decreases s.len(),
{
    if s.len() == 0 || s[0] == '\n' {
        0
    } else {
        1 + leading_line(s.drop_first())
    }
}

proof fn lemma_leading_line(s: Seq<char>)
    ensures
        leading_line(s) <= s.len(),
        forall|k: int| 0 <= k < leading_line(s) ==> #[trigger] s[k] != '\n',
        leading_line(s) < s.len() ==> s[leading_line(s) as int] == '\n',
    decreases s.len(),
{
    if s.len() == 0 || s[0] == '\n' {
    } else {
        lemma_leading_line(s.drop_first());
        assert forall|k: int| 0 <= k < leading_line(s) implies #[trigger] s[k] != '\n' by {
            if k > 0 {
                assert(s.drop_first()[k - 1] == s[k]);
            }
        }
    }
}

proof fn lemma_leading_line_from_index(s: Seq<char>, i: int)
    requires
        0 <= i <= s.len(),
        forall|k: int| 0 <= k < i ==> #[trigger] s[k] != '\n',
        i < s.len() ==> s[i] == '\n',
    ensures
        leading_line(s) == i,
{
    lemma_leading_line(s);
}

/// The pieces of `s` between newline separators: one more piece than there
/// are separators.
pub open spec fn split_nl(s: Seq<char>) -> Seq<Seq<char>>
    decreases s.len(),
    via split_nl_decreases
{
    if leading_line(s) == s.len() {
        seq![s]
    } else {
        seq![s.subrange(0, leading_line(s) as int)] + split_nl(
            s.subrange(leading_line(s) as int + 1, s.len() as int),
        )
    }
}

#[via_fn]
proof fn split_nl_decreases(s: Seq<char>) {
    lemma_leading_line(s);
}

#[verifier::inline]
pub open spec fn strip_cr(l: Seq<char>) -> Seq<char> {
    if l.len() > 0 && l.last() == '\r' {
        l.drop_last()
    } else {
        l
    }
}

/// The lines of `s`: split at `\n`, each line's trailing `\r` removed, and
/// no final empty line when `s` ends with a newline.
pub open spec fn lines_of(s: Seq<char>) -> Seq<Seq<char>> {
    if s.len() == 0 {
        Seq::empty()
    } else {
        let body = if s.last() == '\n' {
            s.drop_last()
        } else {
            s
        };
        split_nl(body).map_values(|l: Seq<char>| strip_cr(l))
    }
}

/// Lines joined with single newlines.
pub open spec fn join_nl(lines: Seq<Seq<char>>) -> Seq<char>
    decreases lines.len(),
{
    if lines.len() == 0 {
        Seq::empty()
    } else if lines.len() == 1 {
        lines[0]
    } else {
        join_nl(lines.drop_last()) + seq!['\n'] + lines.last()
    }
}

/// The cleaned transcript: hallucinated lines dropped, consecutive
/// duplicates collapsed, lines joined with newlines.
pub open spec fn spec_clean_transcript(s: Seq<char>) -> Seq<char> {
    join_nl(dedup_consecutive(retain_lines(lines_of(s))))
}

proof fn lemma_split_nl_step(s: Seq<char>, p: int, q: int)
    requires
        0 <= p <= q <= s.len(),
        forall|k: int| p <= k < q ==> #[trigger] s[k] != '\n',
        q < s.len() ==> s[q] == '\n',
    ensures
        q < s.len() ==> split_nl(s.subrange(p, s.len() as int)) == seq![s.subrange(p, q)]
            + split_nl(s.subrange(q + 1, s.len() as int)),
        q == s.len() ==> split_nl(s.subrange(p, s.len() as int)) == seq![s.subrange(p, q)],
{
    let t = s.subrange(p, s.len() as int);
    assert forall|k: int| 0 <= k < q - p implies #[trigger] t[k] != '\n' by {
        assert(t[k] == s[p + k]);
    }
    if q - p < t.len() {
        assert(t[q - p] == s[q]);
    }
    lemma_leading_line_from_index(t, q - p);
    assert(t.subrange(0, q - p) =~= s.subrange(p, q));
    if q < s.len() {
        assert(t.subrange(q - p + 1, t.len() as int) =~= s.subrange(q + 1, s.len() as int));
    } else {
        assert(t =~= s.subrange(p, q));
    }
}

/// Splits `v` at newline characters.
fn split_nl_exec(v: &Vec<char>) -> (r: Vec<Vec<char>>)
    ensures
        r.deep_view() == split_nl(v@),
{
    let n = v.len();
    let mut pieces: Vec<Vec<char>> = Vec::new();
    let mut pos: usize = 0;
    let mut cur: Vec<char> = Vec::new();
    let mut start: usize = 0;
    proof {
        assert(v@.subrange(0, n as int) =~= v@);
    }
    while pos < n
        invariant
            n == v@.len(),
            start <= pos <= n,
            forall|k: int| start <= k < pos ==> #[trigger] v@[k] != '\n',
            cur@ == v@.subrange(start as int, pos as int),
            split_nl(v@) == pieces.deep_view() + split_nl(v@.subrange(start as int, n as int)),
        decreases n - pos,
    {
        if v[pos] == '\n' {
            proof {
                lemma_split_nl_step(v@, start as int, pos as int);
            }
            let ghost old_pieces = pieces.deep_view();
            pieces.push(cur);
            proof {
                assert(pieces.deep_view() =~~= old_pieces.push(
                    v@.subrange(start as int, pos as int),
                ));
                assert(pieces.deep_view() + split_nl(v@.subrange(pos + 1, n as int)) =~~= old_pieces
                    + (seq![v@.subrange(start as int, pos as int)] + split_nl(
                    v@.subrange(pos + 1, n as int),
                )));
            }
            cur = Vec::new();
            start = pos + 1;
        } else {
            cur.push(v[pos]);
            proof {
                assert(cur@ =~= v@.subrange(start as int, pos + 1));
            }
        }
        pos = pos + 1;
    }
    proof {
        lemma_split_nl_step(v@, start as int, n as int);
    }
    let ghost old_pieces = pieces.deep_view();
    pieces.push(cur);
    proof {
        assert(pieces.deep_view() =~~= old_pieces.push(v@.subrange(start as int, n as int)));
        assert(pieces.deep_view() =~~= old_pieces + seq![v@.subrange(start as int, n as int)]);
    }
    pieces
}

fn chars_eq(a: &Vec<char>, b: &Vec<char>) -> (r: bool)
    ensures
        r == (a@ == b@),
{
    if a.len() != b.len() {
        proof {
            assert(a@ != b@);
        }
        return false;
    }
    let mut i: usize = 0;
    while i < a.len()
        invariant
            a@.len() == b@.len(),
            i <= a@.len(),
            forall|k: int| 0 <= k < i ==> a@[k] == b@[k],
        decreases a@.len() - i,
    {
        if a[i] != b[i] {
            return false;
        }
        i = i + 1;
    }
    proof {
        assert(a@ =~= b@);
    }
    true
}

fn is_hallucination_chars(line: &Vec<char>) -> (r: bool)
    ensures
        r == is_hallucination(line@),
{
    let lowered = lower_chars_exec(line);
    let p1 = chars_vec("thank you for watching");
    let p2 = chars_vec("please subscribe");
    let p3 = chars_vec("like and subscribe");
    contains_chars(&lowered, &p1) || contains_chars(&lowered, &p2) || contains_chars(&lowered, &p3)
}

/// Applies the hallucination filter to a whole transcript: lines matching
/// the boilerplate patterns are dropped, consecutive duplicate lines are
/// collapsed, and the survivors are joined with newlines.
pub fn clean_transcript(content: &str) -> (r: String)
    ensures
        r@ == spec_clean_transcript(content@),
{
    let v = chars_vec(content);
    let n = v.len();
    if n == 0 {
        proof {
            assert(retain_lines(Seq::<Seq<char>>::empty()) =~= Seq::<Seq<char>>::empty());
        }
        return String::new();
    }
    let mut body = v;
    if body[n - 1] == '\n' {
        let ghost whole = body@;
        let _ = body.pop();
        proof {
            assert(body@ =~= whole.drop_last());
        }
    }
    let pieces = split_nl_exec(&body);
    let mut lines: Vec<Vec<char>> = Vec::new();
    let mut i: usize = 0;
    while i < pieces.len()
        invariant
            i <= pieces@.len(),
            lines.deep_view() == pieces.deep_view().subrange(0, i as int).map_values(
                |l: Seq<char>| strip_cr(l),
            ),
        decreases pieces@.len() - i,
    {
        let piece = &pieces[i];
        let mut stripped: Vec<char> = Vec::new();
        let plen = piece.len();
        let upto = if plen > 0 && piece[plen - 1] == '\r' {
            plen - 1
        } else {
            plen
        };
        let mut k: usize = 0;
        while k < upto
            invariant
                upto <= piece@.len(),
                k <= upto,
                stripped@ == piece@.subrange(0, k as int),
            decreases upto - k,
        {
            stripped.push(piece[k]);
            k = k + 1;
            proof {
                assert(stripped@ =~= piece@.subrange(0, k as int));
            }
        }
        proof {
            assert(pieces.deep_view()[i as int] =~= piece@);
            if piece@.len() > 0 && piece@.last() == '\r' {
                assert(stripped@ =~= strip_cr(pieces.deep_view()[i as int]));
            } else {
                assert(stripped@ =~= strip_cr(pieces.deep_view()[i as int]));
            }
        }
        let ghost old_lines = lines.deep_view();
        let ghost gstripped = stripped@;
        lines.push(stripped);
        proof {
            assert(lines.deep_view() =~~= old_lines.push(gstripped));
            assert(pieces.deep_view().subrange(0, i + 1).map_values(|l: Seq<char>| strip_cr(l))
                =~= pieces.deep_view().subrange(0, i as int).map_values(
                |l: Seq<char>| strip_cr(l),
            ).push(strip_cr(pieces.deep_view()[i as int])));
            assert(lines.deep_view() =~~= pieces.deep_view().subrange(0, i + 1).map_values(
                |l: Seq<char>| strip_cr(l),
            ));
        }
        i = i + 1;
    }
    proof {
        assert(pieces.deep_view().subrange(0, pieces.deep_view().len() as int) =~= pieces.deep_view());
        assert(lines.deep_view() =~~= lines_of(content@));
    }
    let mut kept: Vec<Vec<char>> = Vec::new();
    let mut i2: usize = 0;
    proof {
        assert(lines.deep_view().subrange(0, 0) =~= Seq::<Seq<char>>::empty());
        assert(retain_lines(Seq::<Seq<char>>::empty()) =~= Seq::<Seq<char>>::empty());
    }
    while i2 < lines.len()
        invariant
            i2 <= lines@.len(),
            kept.deep_view() == lines.deep_view().subrange(0, i2 as int).filter(
                |l: Seq<char>| !is_hallucination(l),
            ),
        decreases lines@.len() - i2,
    {
        proof {
            lemma_filter_take_step(
                lines.deep_view(),
                |l: Seq<char>| !is_hallucination(l),
                i2 as int,
            );
            assert(lines.deep_view()[i2 as int] =~= lines@[i2 as int]@);
        }
        if !is_hallucination_chars(&lines[i2]) {
            let ghost old_kept = kept.deep_view();
            let line = &lines[i2];
            kept.push(line.clone());
            proof {
                assert(kept.deep_view() =~~= old_kept.push(lines.deep_view()[i2 as int]));
            }
        }
        i2 = i2 + 1;
    }
    proof {
        assert(lines.deep_view().subrange(0, lines.deep_view().len() as int) =~= lines.deep_view());
        assert(kept.deep_view() =~~= retain_lines(lines_of(content@)));
    }
    let mut deduped: Vec<Vec<char>> = Vec::new();
    let mut i3: usize = 0;
    proof {
        assert(kept.deep_view().subrange(0, 0) =~= Seq::<Seq<char>>::empty());
    }
    while i3 < kept.len()
        invariant
            i3 <= kept@.len(),
            deduped.deep_view() == dedup_consecutive(kept.deep_view().subrange(0, i3 as int)),
        decreases kept@.len() - i3,
    {
        proof {
            lemma_dedup_take_step(kept.deep_view(), i3 as int);
            assert(kept.deep_view()[i3 as int] =~= kept@[i3 as int]@);
            if i3 >= 1 {
                assert(kept.deep_view()[i3 - 1] =~= kept@[i3 - 1]@);
            }
        }
        let dup = if i3 >= 1 {
            chars_eq(&kept[i3], &kept[i3 - 1])
        } else {
            false
        };
        if !dup {
            let ghost old_d = deduped.deep_view();
            let line = &kept[i3];
            deduped.push(line.clone());
            proof {
                assert(deduped.deep_view() =~~= old_d.push(kept.deep_view()[i3 as int]));
            }
        }
        i3 = i3 + 1;
    }
    proof {
        assert(kept.deep_view().subrange(0, kept.deep_view().len() as int) =~= kept.deep_view());
    }
    let mut out: Vec<char> = Vec::new();
    let mut i4: usize = 0;
    while i4 < deduped.len()
        invariant
            i4 <= deduped@.len(),
            out@ == join_nl(deduped.deep_view().take(i4 as int)),
        decreases deduped@.len() - i4,
    {
        if i4 > 0 {
            out.push('\n');
        }
        let line = &deduped[i4];
        let mut k: usize = 0;
        while k < line.len()
            invariant
                i4 < deduped@.len(),
                k <= line@.len(),
                line@ == deduped@[i4 as int]@,
                out@ == join_nl(deduped.deep_view().take(i4 as int)) + (if i4 > 0 {
                    seq!['\n']
                } else {
                    Seq::<char>::empty()
                }) + line@.subrange(0, k as int),
            decreases line@.len() - k,
        {
            out.push(line[k]);
            k = k + 1;
            proof {
                assert(out@ =~= join_nl(deduped.deep_view().take(i4 as int)) + (if i4 > 0 {
                    seq!['\n']
                } else {
                    Seq::<char>::empty()
                }) + line@.subrange(0, k as int));
            }
        }
        proof {
            let full = deduped.deep_view();
            assert(full.take(i4 + 1).drop_last() =~= full.take(i4 as int));
            assert(full.take(i4 + 1).last() =~= line@);
            assert(line@.subrange(0, line@.len() as int) =~= line@);
            assert(out@ =~= join_nl(full.take(i4 + 1)));
        }
        i4 = i4 + 1;
    }
    proof {
        assert(deduped.deep_view().take(deduped.deep_view().len() as int) =~= deduped.deep_view());
    }
    string_of_chars(&out)
}

} // verus!
