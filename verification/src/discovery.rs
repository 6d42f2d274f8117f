//! Category discovery and series conversion for the catalog scraper.
//!
//! The network calls live in the surrounding binary; this module decides
//! which categories qualify, when to fetch another page, how listing pages
//! merge into a unique id set, and how raw catalog details become a series
//! record.

use vstd::prelude::*;
use vstd::string::StringExecFns;

use crate::apitypes::AnimeDetails;
use crate::apitypes::CategoryItem;
use crate::apitypes::MalEntity;
use crate::apitypes::ProducerItem;
use crate::apitypes::ProducerTitle;
use crate::model::Anime;
use crate::model::clone_opt_string;
use crate::model::clone_string_vec;
use crate::stage::ProcessingStatus;
use crate::text::chars_vec;
use crate::text::dec_digits;
use crate::text::dec_string;
use crate::text::lemma_filter_take_step;
use crate::text::split_ws;
use crate::text::split_ws_exec;
use crate::text::str_eq;

verus! {

broadcast use vstd::string::group_string_axioms;

/// Kinds of catalog categories.
#[derive(Debug, Clone, Copy, PartialEq, Eq, Structural)]
pub enum CategoryType {
    Genre,
    ExplicitGenre,
    Theme,
    Demographic,
    Studio,
}

impl CategoryType {
    /// The directory name of this category kind.
    pub fn as_str(&self) -> (r: &'static str)
        ensures
            *self == CategoryType::Genre ==> r@ == "genre"@,
            *self == CategoryType::ExplicitGenre ==> r@ == "explicit_genre"@,
            *self == CategoryType::Theme ==> r@ == "theme"@,
            *self == CategoryType::Demographic ==> r@ == "demographic"@,
            *self == CategoryType::Studio ==> r@ == "studio"@,
    {
        match self {
            CategoryType::Genre => "genre",
            CategoryType::ExplicitGenre => "explicit_genre",
            CategoryType::Theme => "theme",
            CategoryType::Demographic => "demographic",
            CategoryType::Studio => "studio",
        }
    }
}

/// A category large enough to scrape.
#[derive(Debug)]
pub struct Category {
    pub category_type: CategoryType,
    pub mal_id: u32,
    pub name: String,
    pub count: u32,
}

/// A listing item is big enough to keep.
pub open spec fn item_qualifies(it: CategoryItem, min_items: usize) -> bool {
    it.count >= min_items as u32
}

/// The produced categories mirror the qualifying items, in order, with the
/// given kind.
pub open spec fn cats_match(src: Seq<CategoryItem>, ctype: CategoryType, out: Seq<Category>) -> bool {
    &&& out.len() == src.len()
    &&& forall|i: int|
        0 <= i < src.len() ==> {
            &&& (#[trigger] out[i]).category_type == ctype
            &&& out[i].mal_id == src[i].mal_id
            &&& out[i].name@ == src[i].name@
            &&& out[i].count == src[i].count
        }
}

/// The categories of one listing that meet the minimum size, each tagged
/// with its kind.
pub fn categories_from_items(
    items: &Vec<CategoryItem>,
    category_type: CategoryType,
    min_items: usize,
) -> (r: Vec<Category>)
    ensures
        cats_match(
            items@.filter(|it: CategoryItem| item_qualifies(it, min_items)),
            category_type,
            r@,
        ),
{
    let n = items.len();
    let mut out: Vec<Category> = Vec::new();
    let mut i: usize = 0;
    proof {
        assert(items@.subrange(0, 0) =~= Seq::<CategoryItem>::empty());
        assert(Seq::<CategoryItem>::empty().filter(|it: CategoryItem| item_qualifies(it, min_items))
            =~= Seq::<CategoryItem>::empty());
    }
    while i < n
        invariant
            n == items@.len(),
            i <= n,
            cats_match(
                items@.subrange(0, i as int).filter(
                    |it: CategoryItem| item_qualifies(it, min_items),
                ),
                category_type,
                out@,
            ),
        decreases n - i,
    {
        proof {
            lemma_filter_take_step(
                items@,
                |it: CategoryItem| item_qualifies(it, min_items),
                i as int,
            );
        }
        let item = &items[i];
        if item.count >= min_items as u32 {
            out.push(
                Category {
                    category_type,
                    mal_id: item.mal_id,
                    name: item.name.clone(),
                    count: item.count,
                },
            );
        }
        i = i + 1;
    }
    proof {
        assert(items@.subrange(0, n as int) =~= items@);
    }
    out
}

/// The index of the first title labelled `Default`, or the number of titles
/// when none is.
pub open spec fn default_title_index(titles: Seq<ProducerTitle>) -> int
    decreases titles.len(),
{
    if titles.len() == 0 {
        0
    } else if titles[0].title_type@ == "Default"@ {
        0
    } else {
        1 + default_title_index(titles.drop_first())
    }
}

proof fn lemma_default_title_from_index(titles: Seq<ProducerTitle>, i: int)
    requires
        0 <= i <= titles.len(),
        forall|k: int| 0 <= k < i ==> (#[trigger] titles[k]).title_type@ != "Default"@,
        i < titles.len() ==> titles[i].title_type@ == "Default"@,
    ensures
        default_title_index(titles) == i,
    decreases i,
{
    if i > 0 {
        let t = titles.drop_first();
        assert forall|k: int| 0 <= k < i - 1 implies (#[trigger] t[k]).title_type@ != "Default"@ by {
            assert(t[k] == titles[k + 1]);
        }
        if i - 1 < t.len() {
            assert(t[i - 1] == titles[i]);
        }
        lemma_default_title_from_index(t, i - 1);
    }
}

/// The display name of a producer: its `Default` title, else its first
/// title, else `Studio <id>`.
pub open spec fn spec_studio_name(p: ProducerItem) -> Seq<char> {
    let d = default_title_index(p.titles@);
    if d < p.titles@.len() {
        p.titles@[d].title@
    } else if p.titles@.len() > 0 {
        p.titles@[0].title@
    } else {
        "Studio "@ + dec_digits(p.mal_id as nat)
    }
}

/// The display name of a producer.
pub fn studio_name(p: &ProducerItem) -> (r: String)
    ensures
        r@ == spec_studio_name(*p),
{
    let n = p.titles.len();
    let mut i: usize = 0;
    while i < n
        invariant
            n == p.titles@.len(),
            i <= n,
            forall|k: int| 0 <= k < i ==> (#[trigger] p.titles@[k]).title_type@ != "Default"@,
        decreases n - i,
    {
        if str_eq(p.titles[i].title_type.as_str(), "Default") {
            proof {
                lemma_default_title_from_index(p.titles@, i as int);
            }
            return p.titles[i].title.clone();
        }
        i = i + 1;
    }
    proof {
        lemma_default_title_from_index(p.titles@, n as int);
    }
    if p.titles.len() > 0 {
        p.titles[0].title.clone()
    } else {
        let mut s = <String as StringExecFns>::from_str("Studio ");
        crate::text::push_dec(&mut s, p.mal_id as u64);
        s
    }
}

/// The produced studio categories mirror the qualifying producers, in
/// order.
pub open spec fn studio_cats_match(src: Seq<ProducerItem>, out: Seq<Category>) -> bool {
    &&& out.len() == src.len()
    &&& forall|i: int|
        0 <= i < src.len() ==> {
            &&& (#[trigger] out[i]).category_type == CategoryType::Studio
            &&& out[i].mal_id == src[i].mal_id
            &&& out[i].name@ == spec_studio_name(src[i])
            &&& out[i].count == src[i].count
        }
}

/// A producer listing page is big enough to keep.
pub open spec fn producer_qualifies(p: ProducerItem, min_items: usize) -> bool {
    p.count >= min_items as u32
}

/// The studios of one producer page that meet the minimum size.
pub fn studios_from_items(items: &Vec<ProducerItem>, min_items: usize) -> (r: Vec<Category>)
    ensures
        studio_cats_match(
            items@.filter(|p: ProducerItem| producer_qualifies(p, min_items)),
            r@,
        ),
{
    let n = items.len();
    let mut out: Vec<Category> = Vec::new();
    let mut i: usize = 0;
    proof {
        assert(items@.subrange(0, 0) =~= Seq::<ProducerItem>::empty());
        assert(Seq::<ProducerItem>::empty().filter(
            |p: ProducerItem| producer_qualifies(p, min_items),
        ) =~= Seq::<ProducerItem>::empty());
    }
    while i < n
        invariant
            n == items@.len(),
            i <= n,
            studio_cats_match(
                items@.subrange(0, i as int).filter(
                    |p: ProducerItem| producer_qualifies(p, min_items),
                ),
                out@,
            ),
        decreases n - i,
    {
        proof {
            lemma_filter_take_step(
                items@,
                |p: ProducerItem| producer_qualifies(p, min_items),
                i as int,
            );
        }
        let item = &items[i];
        if item.count >= min_items as u32 {
            let name = studio_name(item);
            out.push(
                Category {
                    category_type: CategoryType::Studio,
                    mal_id: item.mal_id,
                    name,
                    count: item.count,
                },
            );
        }
        i = i + 1;
    }
    proof {
        assert(items@.subrange(0, n as int) =~= items@);
    }
    out
}

/// Whether the scraper fetches the next producer page: more pages exist and
/// the ten-page cap is not reached.
pub fn more_producer_pages(page: u32, has_next_page: bool) -> (r: bool)
    ensures
        r == (has_next_page && page < 10),
{
    has_next_page && page < 10
}

/// Whether the scraper fetches the next top-anime page: the current page
/// had entries and the ten-page cap is not reached.
pub fn more_top_pages(page: u32, page_had_entries: bool) -> (r: bool)
    ensures
        r == (page_had_entries && page < 10),
{
    page_had_entries && page < 10
}

/// The genre listing endpoint.
pub fn genres_endpoint() -> (r: String)
    ensures
        r@ == "/genres/anime"@,
{
    <String as StringExecFns>::from_str("/genres/anime")
}

/// The explicit-genre listing endpoint.
pub fn explicit_genres_endpoint() -> (r: String)
    ensures
        r@ == "/genres/anime?filter=explicit_genres"@,
{
    <String as StringExecFns>::from_str("/genres/anime?filter=explicit_genres")
}

/// The theme listing endpoint.
pub fn themes_endpoint() -> (r: String)
    ensures
        r@ == "/genres/anime?filter=themes"@,
{
    <String as StringExecFns>::from_str("/genres/anime?filter=themes")
}

/// The demographic listing endpoint.
pub fn demographics_endpoint() -> (r: String)
    ensures
        r@ == "/genres/anime?filter=demographics"@,
{
    <String as StringExecFns>::from_str("/genres/anime?filter=demographics")
}

/// One page of the producer listing.
pub fn producers_endpoint(page: u32) -> (r: String)
    ensures
        r@ == "/producers?page="@ + dec_digits(page as nat),
{
    let mut s = <String as StringExecFns>::from_str("/producers?page=");
    crate::text::push_dec(&mut s, page as u64);
    s
}

/// One page of the most popular series of a genre, theme or demographic.
pub fn top_anime_by_genre_endpoint(genre_id: u32, page: u32) -> (r: String)
    ensures
        r@ == "/top/anime?filter=bypopularity&genre="@ + dec_digits(genre_id as nat) + "&page="@
            + dec_digits(page as nat),
{
    let mut s = <String as StringExecFns>::from_str("/top/anime?filter=bypopularity&genre=");
    crate::text::push_dec(&mut s, genre_id as u64);
    s.append("&page=");
    crate::text::push_dec(&mut s, page as u64);
    proof {
        assert(s@ =~= "/top/anime?filter=bypopularity&genre="@ + dec_digits(genre_id as nat)
            + "&page="@ + dec_digits(page as nat));
    }
    s
}

/// One page of a producer's series, largest audience first.
pub fn anime_by_producer_endpoint(producer_id: u32, page: u32) -> (r: String)
    ensures
        r@ == "/anime?producer="@ + dec_digits(producer_id as nat) + "&page="@ + dec_digits(
            page as nat,
        ) + "&order_by=members&sort=desc"@,
{
    let mut s = <String as StringExecFns>::from_str("/anime?producer=");
    crate::text::push_dec(&mut s, producer_id as u64);
    s.append("&page=");
    crate::text::push_dec(&mut s, page as u64);
    s.append("&order_by=members&sort=desc");
    proof {
        assert(s@ =~= "/anime?producer="@ + dec_digits(producer_id as nat) + "&page="@
            + dec_digits(page as nat) + "&order_by=members&sort=desc"@);
    }
    s
}

/// The full details of one series.
pub fn anime_details_endpoint(mal_id: u32) -> (r: String)
    ensures
        r@ == "/anime/"@ + dec_digits(mal_id as nat),
{
    let mut s = <String as StringExecFns>::from_str("/anime/");
    crate::text::push_dec(&mut s, mal_id as u64);
    s
}

/// `acc` extended with each element of `xs` that it does not already hold,
/// in order of first appearance.
pub open spec fn add_unique(acc: Seq<u32>, xs: Seq<u32>) -> Seq<u32>
    decreases xs.len(),
{
    if xs.len() == 0 {
        acc
    } else if acc.contains(xs[0]) {
        add_unique(acc, xs.drop_first())
    } else {
        add_unique(acc.push(xs[0]), xs.drop_first())
    }
}

/// No value occurs twice.
pub open spec fn nodup(s: Seq<u32>) -> bool {
    forall|p: int, q: int| 0 <= p < q < s.len() ==> s[p] != s[q]
}

/// Law: merging keeps ids unique. Whatever page arrives, adding its ids to
/// a duplicate-free accumulation leaves it duplicate-free.
pub proof fn lemma_add_unique_nodup(acc: Seq<u32>, xs: Seq<u32>)
    requires
        nodup(acc),
    ensures
        nodup(add_unique(acc, xs)),
    decreases xs.len(),
{
    if xs.len() > 0 {
        if acc.contains(xs[0]) {
            lemma_add_unique_nodup(acc, xs.drop_first());
        } else {
            let acc2 = acc.push(xs[0]);
            assert forall|p: int, q: int| 0 <= p < q < acc2.len() implies acc2[p] != acc2[q] by {
                if q < acc.len() {
                    assert(acc[p] != acc[q]);
                } else {
                    if acc2[p] == xs[0] {
                        assert(acc.contains(xs[0]));
                    }
                }
            }
            lemma_add_unique_nodup(acc2, xs.drop_first());
        }
    }
}

fn vec_contains_u32(v: &Vec<u32>, x: u32) -> (r: bool)
    ensures
        r == v@.contains(x),
{
    let mut i: usize = 0;
    while i < v.len()
        invariant
            i <= v@.len(),
            forall|k: int| 0 <= k < i ==> v@[k] != x,
        decreases v@.len() - i,
    {
        if v[i] == x {
            assert(v@[i as int] == x);
            return true;
        }
        i = i + 1;
    }
    proof {
        if v@.contains(x) {
            let w = choose|k: int| 0 <= k < v@.len() && v@[k] == x;
            assert(v@[w] != x);
        }
    }
    false
}

/// Adds the ids of one listing page to the accumulated set, keeping each id
/// once, in order of first appearance.
pub fn merge_ids(acc: &mut Vec<u32>, page_ids: &Vec<u32>)
    ensures
        final(acc)@ == add_unique(old(acc)@, page_ids@),
{
    let n = page_ids.len();
    let mut i: usize = 0;
    proof {
        assert(page_ids@.subrange(0, n as int) =~= page_ids@);
    }
    while i < n
        invariant
            n == page_ids@.len(),
            i <= n,
            add_unique(old(acc)@, page_ids@) == add_unique(
                acc@,
                page_ids@.subrange(i as int, n as int),
            ),
        decreases n - i,
    {
        let ghost rest = page_ids@.subrange(i as int, n as int);
        let x = page_ids[i];
        proof {
            assert(rest[0] == x);
            assert(rest.drop_first() =~= page_ids@.subrange(i + 1, n as int));
        }
        if !vec_contains_u32(acc, x) {
            acc.push(x);
        }
        i = i + 1;
    }
    proof {
        assert(page_ids@.subrange(n as int, n as int) =~= Seq::<u32>::empty());
    }
}

/// What `chrono::NaiveDate::parse_from_str` with the `%Y-%m-%d` format
/// yields, as (year, month, day); a function of the string alone.
pub uninterp spec fn parsed_date(s: Seq<char>) -> Option<(i32, u32, u32)>;

/// Relies on `chrono::NaiveDate::parse_from_str` with the `%Y-%m-%d`
/// format, and on the `Datelike` accessors `year`, `month` and `day`: a
/// parsed value is a valid calendar date, its month in `1..=12` and its day
/// in `1..=31`.
#[verifier::external_body]
fn parse_air_date(s: &str) -> (r: Option<(i32, u32, u32)>)
    ensures
        r == parsed_date(s@),
        r matches Some(d) ==> 1 <= d.1 <= 12 && 1 <= d.2 <= 31,
{
    match chrono::NaiveDate::parse_from_str(s, "%Y-%m-%d") {
        Ok(d) => Some(
            (chrono::Datelike::year(&d), chrono::Datelike::month(&d), chrono::Datelike::day(&d)),
        ),
        Err(_) => None,
    }
}

/// A decimal digit.
pub open spec fn is_digit(c: char) -> bool {
    '0' <= c && c <= '9'
}

/// The value of a digit character.
pub open spec fn digit_val(c: char) -> nat {
    ((c as int) - ('0' as int)) as nat
}

/// The value of a digit string.
pub open spec fn dec_val(s: Seq<char>) -> nat
    decreases s.len(),
{
    if s.len() == 0 {
        0
    } else {
        dec_val(s.drop_last()) * 10 + digit_val(s.last())
    }
}

proof fn lemma_dec_val_take_step(s: Seq<char>, i: int)
    requires
        0 <= i < s.len(),
    ensures
        dec_val(s.subrange(0, i + 1)) == dec_val(s.subrange(0, i)) * 10 + digit_val(s[i]),
{
    let t = s.subrange(0, i + 1);
    assert(t.drop_last() =~= s.subrange(0, i));
    assert(t.last() == s[i]);
}

proof fn lemma_dec_val_prefix_le(s: Seq<char>, i: int)
    requires
        0 <= i <= s.len(),
    ensures
        dec_val(s.subrange(0, i)) <= dec_val(s),
    decreases s.len() - i,
{
    if i < s.len() {
        lemma_dec_val_take_step(s, i);
        lemma_dec_val_prefix_le(s, i + 1);
        assert(dec_val(s.subrange(0, i)) <= dec_val(s.subrange(0, i)) * 10 + digit_val(s[i]))
            by (nonlinear_arith);
    } else {
        assert(s.subrange(0, i) =~= s);
    }
}

/// Whether every character is a digit.
pub open spec fn all_digits(s: Seq<char>) -> bool {
    forall|i: int| 0 <= i < s.len() ==> is_digit(#[trigger] s[i])
}

/// A string parsed as `u32`: an optional `+` sign, then digits, whose value
/// fits.
pub open spec fn spec_parse_u32(s: Seq<char>) -> Option<u32> {
    let digits = if s.len() > 0 && s[0] == '+' {
        s.drop_first()
    } else {
        s
    };
    if digits.len() > 0 && all_digits(digits) && dec_val(digits) <= u32::MAX {
        Some(dec_val(digits) as u32)
    } else {
        None
    }
}

fn parse_u32_digits(v: &Vec<char>) -> (r: Option<u32>)
    ensures
        r == spec_parse_u32(v@),
{
    let n = v.len();
    let start: usize = if n > 0 && v[0] == '+' {
        1
    } else {
        0
    };
    let ghost digits = if v@.len() > 0 && v@[0] == '+' {
        v@.drop_first()
    } else {
        v@
    };
    proof {
        assert(digits =~= v@.subrange(start as int, n as int));
    }
    if start == n {
        return None;
    }
    let mut val: u32 = 0;
    let mut i: usize = start;
    proof {
        assert(v@.subrange(start as int, start as int) =~= Seq::<char>::empty());
        assert(digits.subrange(0, 0) =~= Seq::<char>::empty());
    }
    while i < n
        invariant
            start <= i <= n,
            n == v@.len(),
            start <= 1,
            (start == 1) <==> (v@.len() > 0 && v@[0] == '+'),
            digits == (if v@.len() > 0 && v@[0] == '+' {
                v@.drop_first()
            } else {
                v@
            }),
            digits == v@.subrange(start as int, n as int),
            all_digits(digits.subrange(0, i - start)),
            val == dec_val(digits.subrange(0, i - start)),
        decreases n - i,
    {
        let c = v[i];
        if !(c >= '0' && c <= '9') {
            proof {
                assert(digits[i - start] == v@[i as int]);
                assert(!all_digits(digits));
            }
            return None;
        }
        let d: u32 = (c as u32) - 48;
        proof {
            lemma_dec_val_take_step(digits, i - start);
            assert(digits[i - start] == v@[i as int]);
        }
        if val > (u32::MAX - d) / 10 {
            proof {
                assert(dec_val(digits.subrange(0, i - start + 1)) > u32::MAX) by (nonlinear_arith)
                    requires
                        dec_val(digits.subrange(0, i - start + 1)) == dec_val(
                            digits.subrange(0, i - start),
                        ) * 10 + digit_val(digits[i - start]),
                        dec_val(digits.subrange(0, i - start)) > (u32::MAX - digit_val(
                            digits[i - start],
                        )) / 10,
                        digit_val(digits[i - start]) <= 9,
                ;
                lemma_dec_val_prefix_le(digits, i - start + 1);
            }
            return None;
        }
        proof {
            assert(val * 10 + d <= u32::MAX) by (nonlinear_arith)
                requires
                    val <= (u32::MAX - d) / 10,
                    d <= 9,
            ;
        }
        val = val * 10 + d;
        i = i + 1;
    }
    proof {
        assert(digits.subrange(0, n - start) =~= digits);
    }
    Some(val)
}

/// The first whitespace-separated token of the string, parsed as `u32`:
/// how a duration such as a per-episode minute count is read.
pub fn parse_leading_u32(s: &str) -> (r: Option<u32>)
    ensures
        r == (if split_ws(s@).len() > 0 {
            spec_parse_u32(split_ws(s@)[0])
        } else {
            None::<u32>
        }),
{
    let v = chars_vec(s);
    let words = split_ws_exec(&v);
    if words.len() == 0 {
        return None;
    }
    proof {
        assert(words.deep_view()[0] =~= words@[0]@);
    }
    parse_u32_digits(&words[0])
}

/// Names of the listed catalog entities, in order.
pub fn entity_names(entities: &Vec<MalEntity>) -> (r: Vec<String>)
    ensures
        r@.len() == entities@.len(),
        forall|i: int| 0 <= i < r@.len() ==> (#[trigger] r@[i])@ == entities@[i].name@,
{
    let n = entities.len();
    let mut out: Vec<String> = Vec::new();
    let mut i: usize = 0;
    while i < n
        invariant
            n == entities@.len(),
            i <= n,
            out@.len() == i,
            forall|k: int| 0 <= k < i ==> (#[trigger] out@[k])@ == entities@[k].name@,
        decreases n - i,
    {
        out.push(entities[i].name.clone());
        i = i + 1;
    }
    out
}

/// Two optional strings with the same contents.
pub open spec fn opt_str_like(a: Option<String>, b: Option<String>) -> bool {
    match (a, b) {
        (Option::None, Option::None) => true,
        (Option::Some(x), Option::Some(y)) => x@ == y@,
        _ => false,
    }
}

/// The string lists agree element-wise.
pub open spec fn names_like(out: Seq<String>, src: Seq<MalEntity>) -> bool {
    out.len() == src.len() && forall|i: int|
        0 <= i < out.len() ==> (#[trigger] out[i])@ == src[i].name@
}

/// Converts full catalog details into a fresh series record: air dates
/// parsed from their `YYYY-MM-DD` form, the per-episode duration read from
/// the leading number of its text, classification lists reduced to names,
/// and processing state initialized to pending at time `now`.
pub fn anime_from_details(details: &AnimeDetails, now: i64) -> (r: Anime)
    ensures
        r.id is None,
        r.mal_id == details.mal_id,
        r.title@ == details.title@,
        opt_str_like(r.title_english, details.title_english),
        opt_str_like(r.title_japanese, details.title_japanese),
        r.title_synonyms@ == details.title_synonyms@,
        opt_str_like(r.anime_type, details.anime_type),
        r.episodes_total == details.episodes,
        opt_str_like(r.status, details.status),
        r.aired_from == (match details.aired.from {
            Some(s) => parsed_date(s@),
            None => None::<(i32, u32, u32)>,
        }),
        r.aired_to == (match details.aired.to {
            Some(s) => parsed_date(s@),
            None => None::<(i32, u32, u32)>,
        }),
        opt_str_like(r.season, details.season),
        r.year == (match details.year {
            Some(y) => Some(y as i32),
            None => None::<i32>,
        }),
        names_like(r.genres@, details.genres@),
        names_like(r.explicit_genres@, details.explicit_genres@),
        names_like(r.themes@, details.themes@),
        names_like(r.demographics@, details.demographics@),
        names_like(r.studios@, details.studios@),
        r.score_hundredths == details.score_hundredths,
        r.scored_by == details.scored_by,
        r.rank == details.rank,
        r.popularity == details.popularity,
        opt_str_like(r.source, details.source),
        opt_str_like(r.rating, details.rating),
        r.duration_minutes == (match details.duration {
            Some(d) => if split_ws(d@).len() > 0 {
                spec_parse_u32(split_ws(d@)[0])
            } else {
                None::<u32>
            },
            None => None::<u32>,
        }),
        r.episodes_processed == 0,
        r.processing_status == ProcessingStatus::Pending,
        r.fetched_at == now,
        r.updated_at == now,
{
    let aired_from = match &details.aired.from {
        Some(s) => parse_air_date(s.as_str()),
        None => None,
    };
    let aired_to = match &details.aired.to {
        Some(s) => parse_air_date(s.as_str()),
        None => None,
    };
    let duration_minutes = match &details.duration {
        Some(d) => parse_leading_u32(d.as_str()),
        None => None,
    };
    let year = match details.year {
        Some(y) => Some(y as i32),
        None => None,
    };
    Anime {
        id: None,
        mal_id: details.mal_id,
        title: details.title.clone(),
        title_english: clone_opt_string(&details.title_english),
        title_japanese: clone_opt_string(&details.title_japanese),
        title_synonyms: clone_string_vec(&details.title_synonyms),
        anime_type: clone_opt_string(&details.anime_type),
        episodes_total: details.episodes,
        status: clone_opt_string(&details.status),
        aired_from,
        aired_to,
        season: clone_opt_string(&details.season),
        year,
        genres: entity_names(&details.genres),
        explicit_genres: entity_names(&details.explicit_genres),
        themes: entity_names(&details.themes),
        demographics: entity_names(&details.demographics),
        studios: entity_names(&details.studios),
        score_hundredths: details.score_hundredths,
        scored_by: details.scored_by,
        rank: details.rank,
        popularity: details.popularity,
        source: clone_opt_string(&details.source),
        rating: clone_opt_string(&details.rating),
        duration_minutes,
        episodes_processed: 0,
        processing_status: ProcessingStatus::Pending,
        fetched_at: now,
        updated_at: now,
    }
}

} // verus!
