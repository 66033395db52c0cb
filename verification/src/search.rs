//! Filtering of a paper list by a search query over titles, authors,
//! abstracts, years and tags.
use vstd::prelude::*;
use crate::collections::KeyMap;
use crate::decimal::{dec_int, i64_to_string};
use crate::paper::Paper;
use crate::sorting::opt_text;
use crate::text::{
    contains_sub, occurs_at, str_chars, str_contains, str_lowercase_mapping, str_to_lowercase,
    string_from_chars, trim, trim_chars, trim_str,
};

verus! {

/// Whether `q` (already lower-cased) starts with `p`.
pub open spec fn starts(q: Seq<char>, p: Seq<char>) -> bool {
    p.len() <= q.len() && q.take(p.len() as int) == p
}

/// How a query is read: lower-cased and trimmed; a leading `#` or `tag:`
/// restricts the search to tags and the rest (trimmed again) is the term.
pub open spec fn search_mode(query: Seq<char>) -> (bool, Seq<char>) {
    let ql = str_lowercase_mapping(trim(query));
    if starts(ql, seq!['#']) {
        (true, trim(ql.skip(1)))
    } else if starts(ql, seq!['t', 'a', 'g', ':']) {
        (true, trim(ql.skip(4)))
    } else {
        (false, ql)
    }
}

/// Whether the lower-cased text contains the term.
pub open spec fn lower_has(s: Seq<char>, term: Seq<char>) -> bool {
    contains_sub(str_lowercase_mapping(s), term)
}

/// Whether one of the paper's tags contains the term.
pub open spec fn tag_hit(tags: Map<u128, Vec<String>>, pid: u128, term: Seq<char>) -> bool {
    tags.contains_key(pid) && exists|i: int|
        0 <= i < tags[pid]@.len() && #[trigger] lower_has(tags[pid]@[i]@, term)
}

/// The decimal text of an optional year (empty when unknown).
pub open spec fn year_text(y: Option<i64>) -> Seq<char> {
    match y {
        Some(v) => dec_int(v as int),
        None => Seq::empty(),
    }
}

/// Whether a paper matches: by tag only, or by tag, title, authors,
/// abstract or year.
pub open spec fn paper_hit(p: Paper, tags: Map<u128, Vec<String>>, tag_only: bool, term: Seq<char>) -> bool {
    if tag_only {
        tag_hit(tags, p.id, term)
    } else {
        ||| tag_hit(tags, p.id, term)
        ||| lower_has(opt_text(p.title), term)
        ||| lower_has(opt_text(p.authors), term)
        ||| lower_has(opt_text(p.abstract_text), term)
        ||| contains_sub(year_text(p.year), term)
    }
}

/// The matching papers, in their order.
pub open spec fn filtered(base: Seq<Paper>, tags: Map<u128, Vec<String>>, tag_only: bool, term: Seq<char>) -> Seq<Paper>
    decreases base.len(),
{
    if base.len() == 0 {
        Seq::empty()
    } else {
        let rest = filtered(base.drop_last(), tags, tag_only, term);
        if paper_hit(base.last(), tags, tag_only, term) {
            rest.push(base.last())
        } else {
            rest
        }
    }
}

/// The papers a query shows: all of them for a blank query, else the
/// matching ones in their order.
pub open spec fn search_result(base: Seq<Paper>, tags: Map<u128, Vec<String>>, query: Seq<char>) -> Seq<Paper> {
    if trim(query).len() == 0 {
        base
    } else {
        let (tag_only, term) = search_mode(query);
        filtered(base, tags, tag_only, term)
    }
}

fn starts_exec(q: &Vec<char>, p: &Vec<char>) -> (b: bool)
    ensures
        b == starts(q@, p@),
{
    if p.len() > q.len() {
        return false;
    }
    let mut i: usize = 0;
    while i < p.len()
        invariant
            p@.len() <= q@.len(),
            i <= p@.len(),
            forall|j: int| 0 <= j < i ==> q@[j] == p@[j],
        decreases p@.len() - i,
    {
        if q[i] != p[i] {
            assert(q@.take(p@.len() as int)[i as int] != p@[i as int]);
            return false;
        }
        i = i + 1;
    }
    assert(q@.take(p@.len() as int) =~= p@);
    true
}

fn skip_chars(v: &Vec<char>, k: usize) -> (r: Vec<char>)
    requires
        k <= v@.len(),
    ensures
        r@ == v@.skip(k as int),
{
    let mut r: Vec<char> = Vec::new();
    let mut i = k;
    while i < v.len()
        invariant
            k <= i <= v@.len(),
            r@ == v@.subrange(k as int, i as int),
        decreases v@.len() - i,
    {
        r.push(v[i]);
        i = i + 1;
        assert(r@ =~= v@.subrange(k as int, i as int));
    }
    assert(v@.subrange(k as int, v@.len() as int) =~= v@.skip(k as int));
    r
}

/// Reads a query into its tag-only flag and lower-cased search term.
pub fn read_query(query: &str) -> (r: (bool, String))
    ensures
        r.0 == search_mode(query@).0,
        r.1@ == search_mode(query@).1,
{
    let t = trim_str(query);
    let low = str_to_lowercase(t.as_str());
    let ql = str_chars(low.as_str());
    let hash: Vec<char> = vec!['#'];
    let tag: Vec<char> = vec!['t', 'a', 'g', ':'];
    proof {
        assert(hash@ =~= seq!['#']);
        assert(tag@ =~= seq!['t', 'a', 'g', ':']);
    }
    if starts_exec(&ql, &hash) {
        let rest = skip_chars(&ql, 1);
        let term = trim_chars(&rest);
        (true, string_from_chars(term.as_slice()))
    } else if starts_exec(&ql, &tag) {
        let rest = skip_chars(&ql, 4);
        let term = trim_chars(&rest);
        (true, string_from_chars(term.as_slice()))
    } else {
        (false, low)
    }
}

/// Whether the lower-cased text contains the term.
fn lower_has_exec(s: &str, term: &str) -> (b: bool)
    ensures
        b == lower_has(s@, term@),
{
    let low = str_to_lowercase(s);
    str_contains(low.as_str(), term)
}

fn opt_lower_has(s: &Option<String>, term: &str) -> (b: bool)
    ensures
        b == lower_has(opt_text(*s), term@),
{
    match s {
        Some(v) => lower_has_exec(v.as_str(), term),
        None => {
            proof {
                reveal_strlit("");
                assert(""@ =~= Seq::<char>::empty());
            }
            lower_has_exec("", term)
        },
    }
}

/// Whether one of the paper's tags contains the term.
pub fn tag_hit_exec(tags: &KeyMap<u128, Vec<String>>, pid: u128, term: &str) -> (b: bool)
    ensures
        b == tag_hit(tags@, pid, term@),
{
    match tags.get(&pid) {
        None => false,
        Some(list) => {
            let mut i: usize = 0;
            while i < list.len()
                invariant
                    i <= list@.len(),
                    tags@.contains_key(pid),
                    *list == tags@[pid],
                    forall|j: int| 0 <= j < i ==> !lower_has(list@[j]@, term@),
                decreases list@.len() - i,
            {
                if lower_has_exec(list[i].as_str(), term) {
                    return true;
                }
                i = i + 1;
            }
            false
        },
    }
}

/// Whether a paper matches the term.
pub fn paper_hit_exec(p: &Paper, tags: &KeyMap<u128, Vec<String>>, tag_only: bool, term: &str) -> (b: bool)
    ensures
        b == paper_hit(*p, tags@, tag_only, term@),
{
    let by_tag = tag_hit_exec(tags, p.id, term);
    if tag_only {
        return by_tag;
    }
    if by_tag || opt_lower_has(&p.title, term) || opt_lower_has(&p.authors, term) || opt_lower_has(
        &p.abstract_text,
        term,
    ) {
        return true;
    }
    match p.year {
        Some(y) => {
            let ys = i64_to_string(y);
            str_contains(ys.as_str(), term)
        },
        None => {
            proof {
                reveal_strlit("");
                assert(""@ =~= Seq::<char>::empty());
            }
            str_contains("", term)
        },
    }
}

/// The papers of `base` that a search query shows, in their order.
pub fn search_papers(base: &Vec<Paper>, tags: &KeyMap<u128, Vec<String>>, query: &str) -> (r: Vec<Paper>)
    ensures
        r@ == search_result(base@, tags@, query@),
{
    let t = trim_str(query);
    let tc = str_chars(t.as_str());
    if tc.len() == 0 {
        return crate::paper::clone_papers(base);
    }
    let (tag_only, term) = read_query(query);
    let mut out: Vec<Paper> = Vec::new();
    let mut i: usize = 0;
    while i < base.len()
        invariant
            i <= base@.len(),
            out@ == filtered(base@.take(i as int), tags@, tag_only, term@),
        decreases base@.len() - i,
    {
        proof {
            assert(base@.take(i + 1).drop_last() =~= base@.take(i as int));
        }
        if paper_hit_exec(&base[i], tags, tag_only, term.as_str()) {
            out.push(base[i].clone());
        }
        i = i + 1;
    }
    assert(base@.take(base@.len() as int) =~= base@);
    out
}

proof fn lemma_filtered_has(base: Seq<Paper>, tags: Map<u128, Vec<String>>, tag_only: bool, term: Seq<char>, p: Paper)
    requires
        base.contains(p),
    ensures
        filtered(base, tags, tag_only, term).contains(p) <==> paper_hit(p, tags, tag_only, term),
    decreases base.len(),
{
    let rest = filtered(base.drop_last(), tags, tag_only, term);
    if base.last() == p {
        if paper_hit(p, tags, tag_only, term) {
            assert(rest.push(p)[rest.len() as int] == p);
        } else if base.drop_last().contains(p) {
            lemma_filtered_has(base.drop_last(), tags, tag_only, term, p);
        } else {
            lemma_filtered_only_from(base.drop_last(), tags, tag_only, term, p);
        }
    } else {
        let k = choose|k: int| 0 <= k < base.len() && base[k] == p;
        assert(base.drop_last()[k] == p);
        lemma_filtered_has(base.drop_last(), tags, tag_only, term, p);
        if rest.contains(p) {
            let m = choose|m: int| 0 <= m < rest.len() && rest[m] == p;
            assert(rest.push(base.last())[m] == p);
        }
        if paper_hit(base.last(), tags, tag_only, term) && rest.push(base.last()).contains(p) {
            let m = choose|m: int| 0 <= m < rest.len() + 1 && rest.push(base.last())[m] == p;
            assert(m < rest.len());
            assert(rest[m] == p);
        }
    }
}

proof fn lemma_filtered_only_from(base: Seq<Paper>, tags: Map<u128, Vec<String>>, tag_only: bool, term: Seq<char>, p: Paper)
    requires
        !base.contains(p),
    ensures
        !filtered(base, tags, tag_only, term).contains(p),
    decreases base.len(),
{
    if base.len() > 0 {
        assert(!base.drop_last().contains(p)) by {
            if base.drop_last().contains(p) {
                let k = choose|k: int| 0 <= k < base.drop_last().len() && base.drop_last()[k] == p;
                assert(base[k] == p);
            }
        }
        lemma_filtered_only_from(base.drop_last(), tags, tag_only, term, p);
        let rest = filtered(base.drop_last(), tags, tag_only, term);
        if paper_hit(base.last(), tags, tag_only, term) && rest.push(base.last()).contains(p) {
            let m = choose|m: int| 0 <= m < rest.len() + 1 && rest.push(base.last())[m] == p;
            if m == rest.len() {
                assert(base[base.len() - 1] == p);
            } else {
                assert(rest[m] == p);
            }
        }
    }
}

/// For a query that is not blank and not a tag query (its trimmed,
/// lower-cased text starts neither with `#` nor with `tag:`), a listed paper
/// is shown exactly when the lower-cased query occurs in its lower-cased
/// title, authors or abstract, in its year written out, or in one of its
/// lower-cased tags.
pub proof fn lemma_search_matches_fields(base: Seq<Paper>, tags: Map<u128, Vec<String>>, query: Seq<char>, p: Paper)
    requires
        base.contains(p),
        trim(query).len() > 0,
        !(str_lowercase_mapping(trim(query)).len() >= 1 && str_lowercase_mapping(trim(query))[0] == '#'),
        !(str_lowercase_mapping(trim(query)).len() >= 4 && str_lowercase_mapping(trim(query)).take(4) == seq![
            't',
            'a',
            'g',
            ':',
        ]),
    ensures
        search_result(base, tags, query).contains(p) <==> ({
            let lq = str_lowercase_mapping(trim(query));
            ||| contains_sub(str_lowercase_mapping(opt_text(p.title)), lq)
            ||| contains_sub(str_lowercase_mapping(opt_text(p.authors)), lq)
            ||| contains_sub(str_lowercase_mapping(opt_text(p.abstract_text)), lq)
            ||| (p.year matches Some(y) && contains_sub(dec_int(y as int), lq))
            ||| (tags.contains_key(p.id) && exists|i: int|
                0 <= i < tags[p.id]@.len() && contains_sub(str_lowercase_mapping(#[trigger] tags[p.id]@[i]@), lq))
        }),
{
    let lq = str_lowercase_mapping(trim(query));
    assert(!starts(lq, seq!['#'])) by {
        if starts(lq, seq!['#']) {
            assert(lq.take(1)[0] == '#');
        }
    }
    lemma_filtered_has(base, tags, false, lq, p);
    assert(search_mode(query) == (false, lq));
    assert(search_result(base, tags, query) == filtered(base, tags, false, lq));
    if tag_hit(tags, p.id, lq) {
        let i = choose|i: int| 0 <= i < tags[p.id]@.len() && #[trigger] lower_has(tags[p.id]@[i]@, lq);
        assert(contains_sub(str_lowercase_mapping(tags[p.id]@[i]@), lq));
    }
    if tags.contains_key(p.id) && exists|i: int|
        0 <= i < tags[p.id]@.len() && contains_sub(str_lowercase_mapping(#[trigger] tags[p.id]@[i]@), lq) {
        let i = choose|i: int|
            0 <= i < tags[p.id]@.len() && contains_sub(str_lowercase_mapping(#[trigger] tags[p.id]@[i]@), lq);
        assert(lower_has(tags[p.id]@[i]@, lq));
    }
    if lq.len() == 0 {
        assert(occurs_at(str_lowercase_mapping(opt_text(p.title)), lq, 0));
    }
    if p.year is None {
        assert(year_text(p.year) =~= Seq::<char>::empty());
        if contains_sub(Seq::<char>::empty(), lq) {
            assert(lq.len() == 0) by {
                let i = choose|i: int| occurs_at(Seq::<char>::empty(), lq, i);
            }
        }
    }
}

} // verus!
