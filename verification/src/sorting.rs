//! Ordering of the papers list.
use vstd::prelude::*;
use crate::paper::Paper;
use crate::text::{char_lowercase_mapping, char_to_lowercase, str_chars};

verus! {

/// Field used for sorting the papers list.
#[derive(Debug, Clone, Copy, PartialEq, Eq, Structural)]
pub enum PaperSortField {
    Added,
    Year,
    Title,
    Author,
}

/// Sort direction.
#[derive(Debug, Clone, Copy, PartialEq, Eq, Structural)]
pub enum SortDirection {
    Asc,
    Desc,
}

impl Default for PaperSortField {
    fn default() -> (f: Self)
        ensures
            f == PaperSortField::Added,
    {
        PaperSortField::Added
    }
}

impl Default for SortDirection {
    fn default() -> (d: Self)
        ensures
            d == SortDirection::Desc,
    {
        SortDirection::Desc
    }
}

/// The badge shown for a field and direction.
pub open spec fn badge_text(f: PaperSortField, d: SortDirection) -> Seq<char> {
    match (f, d) {
        (PaperSortField::Added, SortDirection::Desc) => "Added↓"@,
        (PaperSortField::Added, SortDirection::Asc) => "Added↑"@,
        (PaperSortField::Year, SortDirection::Desc) => "Year↓"@,
        (PaperSortField::Year, SortDirection::Asc) => "Year↑"@,
        (PaperSortField::Title, SortDirection::Asc) => "Title↑"@,
        (PaperSortField::Title, SortDirection::Desc) => "Title↓"@,
        (PaperSortField::Author, SortDirection::Asc) => "Author↑"@,
        (PaperSortField::Author, SortDirection::Desc) => "Author↓"@,
    }
}

/// The cycle Added (Desc) -> Year (Desc) -> Title (Asc) -> Author (Asc) -> Added (Desc).
pub open spec fn next_sort_spec(f: PaperSortField) -> (PaperSortField, SortDirection) {
    match f {
        PaperSortField::Added => (PaperSortField::Year, SortDirection::Desc),
        PaperSortField::Year => (PaperSortField::Title, SortDirection::Asc),
        PaperSortField::Title => (PaperSortField::Author, SortDirection::Asc),
        PaperSortField::Author => (PaperSortField::Added, SortDirection::Desc),
    }
}

impl PaperSortField {
    /// Returns the display badge string for the given field and direction.
    pub fn badge(&self, direction: SortDirection) -> (s: &'static str)
        ensures
            s@ == badge_text(*self, direction),
    {
        match (self, direction) {
            (PaperSortField::Added, SortDirection::Desc) => "Added↓",
            (PaperSortField::Added, SortDirection::Asc) => "Added↑",
            (PaperSortField::Year, SortDirection::Desc) => "Year↓",
            (PaperSortField::Year, SortDirection::Asc) => "Year↑",
            (PaperSortField::Title, SortDirection::Asc) => "Title↑",
            (PaperSortField::Title, SortDirection::Desc) => "Title↓",
            (PaperSortField::Author, SortDirection::Asc) => "Author↑",
            (PaperSortField::Author, SortDirection::Desc) => "Author↓",
        }
    }

    /// Advances to the next sort field and its default direction.
    pub fn next_sort(self, _current_direction: SortDirection) -> (r: (Self, SortDirection))
        ensures
            r == next_sort_spec(self),
    {
        match self {
            PaperSortField::Added => (PaperSortField::Year, SortDirection::Desc),
            PaperSortField::Year => (PaperSortField::Title, SortDirection::Asc),
            PaperSortField::Title => (PaperSortField::Author, SortDirection::Asc),
            PaperSortField::Author => (PaperSortField::Added, SortDirection::Desc),
        }
    }
}

/// Four presses of the sort key come back to the starting field.
pub proof fn lemma_sort_cycle(f: PaperSortField)
    ensures
        next_sort_spec(next_sort_spec(next_sort_spec(next_sort_spec(f).0).0).0).0 == f,
{
}

/// Three-way comparison of integers: -1, 0 or 1.
pub open spec fn int_order(a: int, b: int) -> int {
    if a < b {
        -1
    } else if a > b {
        1
    } else {
        0
    }
}

/// Lexicographic comparison of character sequences (by code point), which is
/// also the byte order of their UTF-8 encodings.
pub open spec fn lex_order(a: Seq<char>, b: Seq<char>) -> int
    decreases a.len(),
{
    if a.len() == 0 && b.len() == 0 {
        0
    } else if a.len() == 0 {
        -1
    } else if b.len() == 0 {
        1
    } else if a[0] != b[0] {
        int_order(a[0] as int, b[0] as int)
    } else {
        lex_order(a.drop_first(), b.drop_first())
    }
}

/// The characters of `s` each replaced by its lowercase mapping.
pub open spec fn lower_key(s: Seq<char>) -> Seq<char>
    decreases s.len(),
{
    if s.len() == 0 {
        Seq::empty()
    } else {
        lower_key(s.drop_last()) + char_lowercase_mapping(s.last())
    }
}

/// The text of an optional string, empty for `None`.
pub open spec fn opt_text(o: Option<String>) -> Seq<char> {
    match o {
        Some(s) => s@,
        None => Seq::empty(),
    }
}

/// A comparison turned around for descending order.
pub open spec fn directed(c: int, d: SortDirection) -> int {
    if d == SortDirection::Asc {
        c
    } else {
        -c
    }
}

/// The comparison on the sort field alone.
pub open spec fn primary_order(a: Paper, b: Paper, f: PaperSortField, d: SortDirection) -> int {
    match f {
        PaperSortField::Added => directed(lex_order(a.created_at@, b.created_at@), d),
        PaperSortField::Year => match (a.year, b.year) {
            (Some(ya), Some(yb)) => directed(int_order(ya as int, yb as int), d),
            (Some(_), None) => -1,
            (None, Some(_)) => 1,
            (None, None) => 0,
        },
        PaperSortField::Title => directed(
            lex_order(lower_key(opt_text(a.title)), lower_key(opt_text(b.title))),
            d,
        ),
        PaperSortField::Author => directed(
            lex_order(lower_key(opt_text(a.authors)), lower_key(opt_text(b.authors))),
            d,
        ),
    }
}

/// The full ordering: the sort field, then the identifier ascending.
pub open spec fn paper_order(a: Paper, b: Paper, f: PaperSortField, d: SortDirection) -> int {
    let p = primary_order(a, b, f, d);
    if p != 0 {
        p
    } else {
        int_order(a.id as int, b.id as int)
    }
}

/// Every neighbouring pair is in order.
pub open spec fn sorted_by(s: Seq<Paper>, f: PaperSortField, d: SortDirection) -> bool {
    forall|i: int| 0 <= i < s.len() - 1 ==> #[trigger] paper_order(s[i], s[i + 1], f, d) <= 0
}

/// Whether a paper ranks level with `a` (compares equal to it).
pub open spec fn level_pred(a: Paper, f: PaperSortField, d: SortDirection) -> spec_fn(Paper) -> bool {
    |p: Paper| paper_order(p, a, f, d) == 0
}

/// The papers of `s` that rank level with `a`, in their order in `s`.
pub open spec fn level_with(s: Seq<Paper>, a: Paper, f: PaperSortField, d: SortDirection) -> Seq<Paper> {
    s.filter(level_pred(a, f, d))
}

/// Whether two papers agree on what the sort field looks at.
pub open spec fn same_sort_key(a: Paper, b: Paper, f: PaperSortField) -> bool {
    match f {
        PaperSortField::Added => a.created_at@ == b.created_at@,
        PaperSortField::Year => a.year == b.year,
        PaperSortField::Title => lower_key(opt_text(a.title)) == lower_key(opt_text(b.title)),
        PaperSortField::Author => lower_key(opt_text(a.authors)) == lower_key(opt_text(b.authors)),
    }
}

proof fn lemma_lex_zero(a: Seq<char>, b: Seq<char>)
    ensures
        lex_order(a, b) == 0 <==> a == b,
    decreases a.len(),
{
    if a.len() > 0 && b.len() > 0 && a[0] == b[0] {
        lemma_lex_zero(a.drop_first(), b.drop_first());
        if a.drop_first() == b.drop_first() {
            assert(a =~= b) by {
                assert forall|k: int| 0 <= k < a.len() implies a[k] == b[k] by {
                    if k > 0 {
                        assert(a.drop_first()[k - 1] == b.drop_first()[k - 1]);
                    }
                }
            }
        }
        if a == b {
            assert(a.drop_first() =~= b.drop_first());
        }
    } else if a.len() == 0 && b.len() == 0 {
        assert(a =~= b);
    }
}

/// Two papers compare equal exactly when they agree on the sort field and
/// have the same identifier.
proof fn lemma_order_zero(a: Paper, b: Paper, f: PaperSortField, d: SortDirection)
    ensures
        paper_order(a, b, f, d) == 0 <==> (same_sort_key(a, b, f) && a.id == b.id),
{
    match f {
        PaperSortField::Added => lemma_lex_zero(a.created_at@, b.created_at@),
        PaperSortField::Year => {},
        PaperSortField::Title => lemma_lex_zero(lower_key(opt_text(a.title)), lower_key(opt_text(b.title))),
        PaperSortField::Author => lemma_lex_zero(
            lower_key(opt_text(a.authors)),
            lower_key(opt_text(b.authors)),
        ),
    }
}

proof fn lemma_level_step(before: Seq<Paper>, done: Seq<Paper>, x: Paper, j: int, f: PaperSortField, d: SortDirection)
    requires
        0 <= j <= before.len(),
        forall|k: int| j <= k < before.len() ==> #[trigger] paper_order(x, before[k], f, d) < 0,
        forall|a: Paper| #[trigger] level_with(before, a, f, d) == level_with(done, a, f, d),
    ensures
        forall|a: Paper| #[trigger] level_with(before.insert(j, x), a, f, d) == level_with(done.push(x), a, f, d),
{
    assert forall|a: Paper| #[trigger] level_with(before.insert(j, x), a, f, d) == level_with(done.push(x), a, f, d) by {
        let pr = level_pred(a, f, d);
        let lo = before.take(j);
        let hi = before.skip(j);
        assert(before.insert(j, x) =~= lo + seq![x] + hi);
        assert(before =~= lo + hi);
        Seq::filter_distributes_over_add(lo + seq![x], hi, pr);
        Seq::filter_distributes_over_add(lo, seq![x], pr);
        Seq::filter_distributes_over_add(lo, hi, pr);
        done.lemma_filter_push(x, pr);
        Seq::<Paper>::empty().lemma_filter_push(x, pr);
        assert(Seq::<Paper>::empty().push(x) =~= seq![x]);
        assert(Seq::<Paper>::empty().filter(pr) =~= Seq::<Paper>::empty()) by {
            Seq::<Paper>::empty().lemma_filter_len(pr);
        }
        assert(level_with(before, a, f, d) == level_with(done, a, f, d));
        if pr(x) {
            assert(hi.filter(pr) =~= Seq::<Paper>::empty()) by {
                assert forall|k: int| 0 <= k < hi.len() implies !pr(#[trigger] hi[k]) by {
                    assert(paper_order(x, before[j + k], f, d) < 0);
                    lemma_order_zero(x, a, f, d);
                    lemma_order_zero(hi[k], a, f, d);
                    lemma_order_zero(x, hi[k], f, d);
                }
                assert(hi.all(|y: Paper| !pr(y)));
                hi.lemma_all_neg_filter_empty(pr);
            }
            assert(level_with(before.insert(j, x), a, f, d) =~= level_with(done.push(x), a, f, d));
        } else {
            assert(level_with(before.insert(j, x), a, f, d) =~= level_with(done.push(x), a, f, d));
        }
    }
}

/// Lexicographic comparison is antisymmetric.
pub proof fn lemma_lex_order_antisym(a: Seq<char>, b: Seq<char>)
    ensures
        lex_order(a, b) == -lex_order(b, a),
        -1 <= lex_order(a, b) <= 1,
    decreases a.len(),
{
    if a.len() > 0 && b.len() > 0 && a[0] == b[0] {
        lemma_lex_order_antisym(a.drop_first(), b.drop_first());
    }
}

/// The paper ordering is antisymmetric.
pub proof fn lemma_paper_order_antisym(a: Paper, b: Paper, f: PaperSortField, d: SortDirection)
    ensures
        paper_order(a, b, f, d) == -paper_order(b, a, f, d),
{
    lemma_lex_order_antisym(a.created_at@, b.created_at@);
    lemma_lex_order_antisym(lower_key(opt_text(a.title)), lower_key(opt_text(b.title)));
    lemma_lex_order_antisym(lower_key(opt_text(a.authors)), lower_key(opt_text(b.authors)));
}

/// Lexicographic comparison of two character vectors.
pub fn lex_order_exec(a: &Vec<char>, b: &Vec<char>) -> (r: i8)
    ensures
        r == lex_order(a@, b@),
{
    let mut i: usize = 0;
    assert(a@.subrange(0, a@.len() as int) =~= a@);
    assert(b@.subrange(0, b@.len() as int) =~= b@);
    while i < a.len() && i < b.len() && a[i] == b[i]
        invariant
            i <= a@.len(),
            i <= b@.len(),
            lex_order(a@, b@) == lex_order(
                a@.subrange(i as int, a@.len() as int),
                b@.subrange(i as int, b@.len() as int),
            ),
        decreases a@.len() - i,
    {
        assert(a@.subrange(i as int, a@.len() as int).drop_first() =~= a@.subrange(
            i + 1,
            a@.len() as int,
        ));
        assert(b@.subrange(i as int, b@.len() as int).drop_first() =~= b@.subrange(
            i + 1,
            b@.len() as int,
        ));
        i = i + 1;
    }
    let ghost sa = a@.subrange(i as int, a@.len() as int);
    let ghost sb = b@.subrange(i as int, b@.len() as int);
    if i == a.len() && i == b.len() {
        0
    } else if i == a.len() {
        -1
    } else if i == b.len() {
        1
    } else if a[i] < b[i] {
        assert(sa[0] == a@[i as int] && sb[0] == b@[i as int]);
        -1
    } else {
        assert(sa[0] == a@[i as int] && sb[0] == b@[i as int]);
        1
    }
}

/// The lowercase key of a string.
pub fn lower_key_exec(s: &str) -> (r: Vec<char>)
    ensures
        r@ == lower_key(s@),
{
    let cs = str_chars(s);
    let mut r: Vec<char> = Vec::new();
    let mut i: usize = 0;
    assert(cs@.subrange(0, 0) =~= Seq::<char>::empty());
    while i < cs.len()
        invariant
            i <= cs@.len(),
            cs@ == s@,
            r@ == lower_key(cs@.subrange(0, i as int)),
        decreases cs@.len() - i,
    {
        let low = char_to_lowercase(cs[i]);
        let mut k: usize = 0;
        let ghost before = r@;
        while k < low.len()
            invariant
                k <= low@.len(),
                r@ == before + low@.subrange(0, k as int),
            decreases low@.len() - k,
        {
            r.push(low[k]);
            assert(r@ =~= before + low@.subrange(0, k + 1));
            k = k + 1;
        }
        assert(low@.subrange(0, low@.len() as int) =~= low@);
        assert(cs@.subrange(0, i + 1).drop_last() =~= cs@.subrange(0, i as int));
        i = i + 1;
    }
    assert(cs@.subrange(0, cs@.len() as int) =~= cs@);
    r
}

/// The lowercase key of an optional string.
fn opt_lower_key(o: &Option<String>) -> (r: Vec<char>)
    ensures
        r@ == lower_key(opt_text(*o)),
{
    match o {
        Some(s) => lower_key_exec(s.as_str()),
        None => {
            let r: Vec<char> = Vec::new();
            assert(r@ =~= lower_key(Seq::<char>::empty()));
            r
        },
    }
}

fn direct(c: i8, d: SortDirection) -> (r: i8)
    requires
        -1 <= c <= 1,
    ensures
        r == directed(c as int, d),
{
    match d {
        SortDirection::Asc => c,
        SortDirection::Desc => -c,
    }
}

/// Compares two papers by the sort field, then by identifier.
pub fn compare_papers(a: &Paper, b: &Paper, field: PaperSortField, direction: SortDirection) -> (r:
    i8)
    ensures
        r == paper_order(*a, *b, field, direction),
{
    let primary: i8 = match field {
        PaperSortField::Added => {
            let ka = str_chars(a.created_at.as_str());
            let kb = str_chars(b.created_at.as_str());
            let c = lex_order_exec(&ka, &kb);
            proof {
                lemma_lex_order_antisym(a.created_at@, b.created_at@);
            }
            direct(c, direction)
        },
        PaperSortField::Year => match (a.year, b.year) {
            (Some(ya), Some(yb)) => {
                let c: i8 = if ya < yb {
                    -1
                } else if ya > yb {
                    1
                } else {
                    0
                };
                direct(c, direction)
            },
            (Some(_), None) => -1,
            (None, Some(_)) => 1,
            (None, None) => 0,
        },
        PaperSortField::Title => {
            let ka = opt_lower_key(&a.title);
            let kb = opt_lower_key(&b.title);
            let c = lex_order_exec(&ka, &kb);
            proof {
                lemma_lex_order_antisym(ka@, kb@);
            }
            direct(c, direction)
        },
        PaperSortField::Author => {
            let ka = opt_lower_key(&a.authors);
            let kb = opt_lower_key(&b.authors);
            let c = lex_order_exec(&ka, &kb);
            proof {
                lemma_lex_order_antisym(ka@, kb@);
            }
            direct(c, direction)
        },
    };
    if primary != 0 {
        primary
    } else if a.id < b.id {
        -1
    } else if a.id > b.id {
        1
    } else {
        0
    }
}

/// Sorts papers in place by the given field and direction, ties broken by
/// identifier: the result holds the same papers, each in order with the
/// next, and papers that compare equal keep their relative order.
pub fn sort_papers(papers: &mut Vec<Paper>, field: PaperSortField, direction: SortDirection)
    ensures
        final(papers)@.to_multiset() == old(papers)@.to_multiset(),
        final(papers)@.len() == old(papers)@.len(),
        sorted_by(final(papers)@, field, direction),
        forall|a: Paper| #[trigger] level_with(final(papers)@, a, field, direction) == level_with(
            old(papers)@,
            a,
            field,
            direction,
        ),
{
    let mut src: Vec<Paper> = Vec::new();
    std::mem::swap(&mut src, papers);
    let mut out: Vec<Paper> = Vec::new();
    let mut i: usize = 0;
    assert(src@.subrange(0, 0) =~= Seq::<Paper>::empty());
    while i < src.len()
        invariant
            i <= src@.len(),
            src@ == old(papers)@,
            out@.to_multiset() == src@.subrange(0, i as int).to_multiset(),
            sorted_by(out@, field, direction),
            forall|a: Paper| #[trigger] level_with(out@, a, field, direction) == level_with(
                src@.subrange(0, i as int),
                a,
                field,
                direction,
            ),
        decreases src@.len() - i,
    {
        let x = src[i].clone();
        let mut j = out.len();
        while j > 0 && compare_papers(&x, &out[j - 1], field, direction) < 0
            invariant
                j <= out@.len(),
                forall|k: int| j <= k < out@.len() ==> #[trigger] paper_order(x, out@[k], field, direction) < 0,
                sorted_by(out@, field, direction),
            decreases j,
        {
            j = j - 1;
        }
        let ghost before = out@;
        out.insert(j, x);
        proof {
            assert(out@ == before.insert(j as int, x));
            assert forall|k: int| 0 <= k < out@.len() - 1 implies #[trigger] paper_order(
                out@[k],
                out@[k + 1],
                field,
                direction,
            ) <= 0 by {
                if k < j - 1 {
                    assert(out@[k] == before[k] && out@[k + 1] == before[k + 1]);
                } else if k == j - 1 {
                    lemma_paper_order_antisym(x, before[k], field, direction);
                } else if k == j {
                } else {
                    assert(out@[k] == before[k - 1] && out@[k + 1] == before[k]);
                    assert(paper_order(before[k - 1], before[(k - 1) + 1], field, direction) <= 0);
                }
            }
            assert(src@.subrange(0, i + 1) =~= src@.subrange(0, i as int).push(src@[i as int]));
            vstd::seq_lib::to_multiset_insert(before, j as int, x);
            vstd::seq_lib::to_multiset_build(src@.subrange(0, i as int), src@[i as int]);
            lemma_level_step(before, src@.subrange(0, i as int), x, j as int, field, direction);
        }
        i = i + 1;
    }
    assert(src@.subrange(0, src@.len() as int) =~= src@);
    proof {
        vstd::seq_lib::to_multiset_len(out@);
        vstd::seq_lib::to_multiset_len(src@);
    }
    *papers = out;
}

/// `a` comes after `b` in character order: they agree up to some position,
/// where `a` has the larger character or `b` has ended.
pub open spec fn text_after(a: Seq<char>, b: Seq<char>) -> bool {
    exists|k: int|
        0 <= k <= a.len() && k <= b.len() && #[trigger] a.take(k) == b.take(k) && ((k == b.len() && k < a.len()) || (
        k < a.len() && k < b.len() && (a[k] as int) > (b[k] as int)))
}

proof fn lemma_lex_after(a: Seq<char>, b: Seq<char>)
    requires
        lex_order(a, b) == 1,
    ensures
        text_after(a, b),
    decreases a.len(),
{
    if b.len() == 0 || a[0] != b[0] {
        assert(a.len() > 0);
        assert(a.take(0) =~= b.take(0));
        if b.len() > 0 {
            assert((a[0] as int) > (b[0] as int));
        }
        assert(0 <= 0 <= a.len() && 0 <= b.len() && a.take(0) == b.take(0) && ((0 == b.len() && 0 < a.len()) || (
        0 < a.len() && 0 < b.len() && (a[0] as int) > (b[0] as int))));
    } else {
        let ta = a.drop_first();
        let tb = b.drop_first();
        lemma_lex_after(ta, tb);
        let k = choose|k: int|
            0 <= k <= ta.len() && k <= tb.len() && #[trigger] ta.take(k) == tb.take(k) && ((k == tb.len() && k
                < ta.len()) || (k < ta.len() && k < tb.len() && (ta[k] as int) > (tb[k] as int)));
        assert(a.take(k + 1) =~= b.take(k + 1)) by {
            assert forall|m: int| 0 <= m < k + 1 implies a[m] == b[m] by {
                if m > 0 {
                    assert(ta.take(k)[m - 1] == tb.take(k)[m - 1]);
                }
            }
        }
        let k1 = k + 1;
        if k < ta.len() && k < tb.len() {
            assert(a[k1] == ta[k] && b[k1] == tb[k]);
        }
        assert(0 <= k1 <= a.len() && k1 <= b.len() && a.take(k1) == b.take(k1) && ((k1 == b.len() && k1 < a.len())
            || (k1 < a.len() && k1 < b.len() && (a[k1] as int) > (b[k1] as int))));
    }
}

proof fn lemma_lex_nonneg_trans(a: Seq<char>, b: Seq<char>, c: Seq<char>)
    requires
        lex_order(a, b) >= 0,
        lex_order(b, c) >= 0,
    ensures
        lex_order(a, c) >= 0,
    decreases a.len(),
{
    if a.len() > 0 && b.len() > 0 && c.len() > 0 && a[0] == b[0] && b[0] == c[0] {
        lemma_lex_nonneg_trans(a.drop_first(), b.drop_first(), c.drop_first());
    }
}

proof fn lemma_added_chain(s: Seq<Paper>, d: SortDirection, i: int, j: int)
    requires
        sorted_by(s, PaperSortField::Added, d),
        0 <= i <= j < s.len(),
    ensures
        d == SortDirection::Desc ==> lex_order(s[i].created_at@, s[j].created_at@) >= 0,
        d == SortDirection::Asc ==> lex_order(s[j].created_at@, s[i].created_at@) >= 0,
    decreases j - i,
{
    if i == j {
        lemma_lex_zero(s[i].created_at@, s[i].created_at@);
    } else {
        lemma_added_chain(s, d, i + 1, j);
        assert(paper_order(s[i], s[i + 1], PaperSortField::Added, d) <= 0);
        lemma_lex_order_antisym(s[i].created_at@, s[i + 1].created_at@);
        if d == SortDirection::Desc {
            lemma_lex_nonneg_trans(s[i].created_at@, s[i + 1].created_at@, s[j].created_at@);
        } else {
            lemma_lex_nonneg_trans(s[j].created_at@, s[i + 1].created_at@, s[i].created_at@);
        }
    }
}

/// Sorted by the date added, newest first (`Desc`, the default) puts a paper
/// added later before one added earlier, and oldest first (`Asc`) the other
/// way round: of two papers with different timestamps, the earlier in the
/// list has the later timestamp under `Desc` and the earlier one under `Asc`.
pub proof fn lemma_added_order(s: Seq<Paper>, d: SortDirection, i: int, j: int)
    requires
        sorted_by(s, PaperSortField::Added, d),
        0 <= i < j < s.len(),
        s[i].created_at@ != s[j].created_at@,
    ensures
        d == SortDirection::Desc ==> text_after(s[i].created_at@, s[j].created_at@),
        d == SortDirection::Asc ==> text_after(s[j].created_at@, s[i].created_at@),
{
    lemma_added_chain(s, d, i, j);
    lemma_lex_zero(s[i].created_at@, s[j].created_at@);
    lemma_lex_zero(s[j].created_at@, s[i].created_at@);
    lemma_lex_order_antisym(s[i].created_at@, s[j].created_at@);
    if d == SortDirection::Desc {
        lemma_lex_after(s[i].created_at@, s[j].created_at@);
    } else {
        lemma_lex_after(s[j].created_at@, s[i].created_at@);
    }
}

} // verus!
