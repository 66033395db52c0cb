//! Fuzzy matching of a query against item texts: case-insensitive exact
//! substrings rank first (prefix, word boundary, elsewhere), then
//! case-insensitive subsequences.
use vstd::prelude::*;
use crate::text::{
    char_is_lowercase, char_is_uppercase, char_is_whitespace, char_lowercase_mapping,
    char_to_lowercase, eq_ignore_ascii_case, eq_ignore_ascii_case_exec, is_ascii_punct,
    is_ascii_punct_exec, unicode_lowercase, unicode_uppercase, unicode_white_space,
};

verus! {

/// A bound on the size of every score.
pub open spec fn score_bound() -> int {
    0x1_0000_0000_0000_0000_0000_0000
}

/// `char::is_ascii`.
pub open spec fn is_ascii_char(c: char) -> bool {
    (c as u32) < 128
}

/// Case-insensitive equality of characters: equal, equal up to ASCII case, or
/// with equal lowercase mappings.
pub open spec fn char_eq_ci(a: char, b: char) -> bool {
    a == b || (is_ascii_char(a) && is_ascii_char(b) && eq_ignore_ascii_case(a, b))
        || char_lowercase_mapping(a) == char_lowercase_mapping(b)
}

/// A word starts at `curr` when nothing precedes it, or the previous character
/// is white space or ASCII punctuation, or a lowercase-to-uppercase change.
pub open spec fn is_word_boundary(prev: Option<char>, curr: char) -> bool {
    match prev {
        None => true,
        Some(p) => unicode_white_space(p) || is_ascii_punct(p) || (unicode_lowercase(p)
            && unicode_uppercase(curr)),
    }
}

/// `target` begins with `prefix`, character by character, ignoring case.
pub open spec fn starts_with_ci(target: Seq<char>, prefix: Seq<char>) -> bool {
    prefix.len() <= target.len() && forall|i: int|
        0 <= i < prefix.len() ==> #[trigger] char_eq_ci(target[i], prefix[i])
}

/// Whether position `i` of `t` starts a word.
pub open spec fn wb_at(t: Seq<char>, i: int) -> bool {
    is_word_boundary(if i == 0 { None } else { Some(t[i - 1]) }, t[i])
}

/// The query occurs (ignoring case) at character position `i` of `t`.
pub open spec fn match_at(t: Seq<char>, q: Seq<char>, i: int) -> bool {
    0 <= i < t.len() && starts_with_ci(t.subrange(i, t.len() as int), q)
}

/// A match at `i` that starts a word.
pub open spec fn wb_match_at(t: Seq<char>, q: Seq<char>, i: int) -> bool {
    match_at(t, q, i) && wb_at(t, i)
}

/// The preferred exact match: the first word-boundary match if there is
/// one, else the first match; the flag tells which.
pub open spec fn best_substring(t: Seq<char>, q: Seq<char>) -> Option<(int, bool)> {
    if exists|i: int| wb_match_at(t, q, i) {
        let i = choose|i: int| wb_match_at(t, q, i) && forall|j: int| 0 <= j < i ==> !wb_match_at(t, q, j);
        Some((i, true))
    } else if exists|i: int| match_at(t, q, i) {
        let i = choose|i: int| match_at(t, q, i) && forall|j: int| 0 <= j < i ==> !match_at(t, q, j);
        Some((i, false))
    } else {
        None
    }
}

/// State of the greedy left-to-right subsequence scan.
pub struct Greedy {
    pub matched: nat,
    pub wb_matches: nat,
    pub consecutive: nat,
    pub first: Option<int>,
    pub last: Option<int>,
}

/// The greedy scan after the first `n` characters of `t`.
pub open spec fn greedy(t: Seq<char>, q: Seq<char>, n: nat) -> Greedy
    decreases n,
{
    if n == 0 {
        Greedy { matched: 0, wb_matches: 0, consecutive: 0, first: None, last: None }
    } else {
        let g = greedy(t, q, (n - 1) as nat);
        let i = n - 1;
        if g.matched < q.len() && char_eq_ci(t[i], q[g.matched as int]) {
            Greedy {
                matched: g.matched + 1,
                wb_matches: if wb_at(t, i) { g.wb_matches + 1 } else { g.wb_matches },
                consecutive: if g.last == Some(i - 1) { g.consecutive + 1 } else { g.consecutive },
                first: if g.first is None { Some(i) } else { g.first },
                last: Some(i),
            }
        } else {
            g
        }
    }
}

/// `i64::saturating_sub` on integers.
pub open spec fn sat_i64(v: int) -> int {
    if v < i64::MIN {
        i64::MIN as int
    } else if v > i64::MAX {
        i64::MAX as int
    } else {
        v
    }
}

/// The score of matching `q` against `t`, or `None` when `q` is neither a
/// case-insensitive substring nor a subsequence of `t`.
pub open spec fn score_text(t: Seq<char>, q: Seq<char>) -> Option<int> {
    let ql = q.len() as int;
    let tl = t.len() as int;
    match best_substring(t, q) {
        Some((idx, wb)) => {
            let bonus = if idx == 0 {
                5_000 + if tl == ql { 10_000int } else { 0 }
            } else if wb {
                3_000
            } else {
                1_000
            };
            Some(5_000 + bonus + sat_i64(ql * 50 - tl * 2) - idx * 5)
        },
        None => if q.len() == 0 {
            Some(0)
        } else {
            let g = greedy(t, q, t.len());
            if g.matched < q.len() {
                None
            } else {
                let base = 1_000 + ql * 50 + g.wb_matches * 400 + g.consecutive * 100 + if g.first
                    == Some(0int) {
                    200int
                } else {
                    0
                };
                let s = sat_i64(base - tl * 2);
                Some(
                    match g.first {
                        Some(f) => sat_i64(s - f * 5),
                        None => s,
                    },
                )
            }
        },
    }
}

/// Case-insensitive character equality.
pub fn char_eq_ci_exec(a: char, b: char) -> (r: bool)
    ensures
        r == char_eq_ci(a, b),
{
    if a == b {
        return true;
    }
    if (a as u32) < 128 && (b as u32) < 128 {
        if eq_ignore_ascii_case_exec(a, b) {
            return true;
        }
    }
    let la = char_to_lowercase(a);
    let lb = char_to_lowercase(b);
    chars_equal(&la, &lb)
}

/// Equality of two character vectors.
pub fn chars_equal(a: &Vec<char>, b: &Vec<char>) -> (r: bool)
    ensures
        r == (a@ == b@),
{
    if a.len() != b.len() {
        return false;
    }
    let mut i: usize = 0;
    while i < a.len()
        invariant
            a@.len() == b@.len(),
            i <= a@.len(),
            forall|j: int| 0 <= j < i ==> a@[j] == b@[j],
        decreases a@.len() - i,
    {
        if a[i] != b[i] {
            return false;
        }
        i = i + 1;
    }
    assert(a@ =~= b@);
    true
}

/// Word-boundary test.
pub fn is_word_boundary_exec(prev: Option<char>, curr: char) -> (r: bool)
    ensures
        r == is_word_boundary(prev, curr),
{
    match prev {
        None => true,
        Some(p) => char_is_whitespace(p) || is_ascii_punct_exec(p) || (char_is_lowercase(p)
            && char_is_uppercase(curr)),
    }
}

/// Whether `prefix` matches `t` at position `start`, ignoring case.
pub fn starts_with_ci_at(t: &Vec<char>, start: usize, prefix: &Vec<char>) -> (r: bool)
    requires
        start <= t@.len(),
    ensures
        r == starts_with_ci(t@.subrange(start as int, t@.len() as int), prefix@),
{
    let ghost s = t@.subrange(start as int, t@.len() as int);
    if prefix.len() > t.len() - start {
        return false;
    }
    let mut i: usize = 0;
    let tl = t.len();
    while i < prefix.len()
        invariant
            tl == t@.len(),
            start <= t@.len(),
            s == t@.subrange(start as int, t@.len() as int),
            prefix@.len() <= s.len(),
            i <= prefix@.len(),
            forall|j: int| 0 <= j < i ==> #[trigger] char_eq_ci(s[j], prefix@[j]),
        decreases prefix@.len() - i,
    {
        if !char_eq_ci_exec(t[start + i], prefix[i]) {
            assert(s[i as int] == t@[start + i]);
            return false;
        }
        assert(s[i as int] == t@[start + i]);
        i = i + 1;
    }
    true
}

/// The preferred exact match of `q` in `t`: its character position and
/// whether it starts a word.
pub fn best_exact_substring(t: &Vec<char>, q: &Vec<char>) -> (r: Option<(usize, bool)>)
    ensures
        r matches Some((i, _)) ==> i < t@.len(),
        match (r, best_substring(t@, q@)) {
            (Some((i, b)), Some((j, c))) => i == j && b == c,
            (None, None) => true,
            _ => false,
        },
{
    let mut best: Option<(usize, bool)> = None;
    let mut prev: Option<char> = None;
    let mut i: usize = 0;
    while i < t.len()
        invariant
            i <= t@.len(),
            prev == (if i == 0 { None } else { Some(t@[i - 1]) }),
            forall|j: int| 0 <= j < i ==> !#[trigger] wb_match_at(t@, q@, j),
            match best {
                None => forall|j: int| 0 <= j < i ==> !#[trigger] match_at(t@, q@, j),
                Some((b, w)) => !w && b < i && match_at(t@, q@, b as int) && !wb_at(t@, b as int)
                    && forall|j: int| 0 <= j < b ==> !#[trigger] match_at(t@, q@, j),
            },
        decreases t@.len() - i,
    {
        let c = t[i];
        let is_wb = is_word_boundary_exec(prev, c);
        assert(is_wb == wb_at(t@, i as int));
        if starts_with_ci_at(t, i, q) {
            if is_wb {
                proof {
                    assert(wb_match_at(t@, q@, i as int));
                    let k = choose|k: int|
                        wb_match_at(t@, q@, k) && forall|j: int| 0 <= j < k ==> !wb_match_at(t@, q@, j);
                    assert(wb_match_at(t@, q@, k));
                    if k < i {
                        assert(false);
                    } else if k > i {
                        assert(!wb_match_at(t@, q@, i as int));
                    }
                }
                return Some((i, true));
            } else if best.is_none() {
                best = Some((i, false));
            }
        }
        prev = Some(c);
        i = i + 1;
    }
    proof {
        assert(!exists|j: int| wb_match_at(t@, q@, j)) by {
            assert forall|j: int| !wb_match_at(t@, q@, j) by {
                if 0 <= j < i {
                }
            }
        }
        match best {
            None => {
                assert forall|j: int| !match_at(t@, q@, j) by {
                    if 0 <= j < i {
                    }
                }
            },
            Some((b, w)) => {
                assert(match_at(t@, q@, b as int));
                let k = choose|k: int|
                    match_at(t@, q@, k) && forall|j: int| 0 <= j < k ==> !match_at(t@, q@, j);
                assert(match_at(t@, q@, k));
                if k < b {
                    assert(false);
                } else if k > b {
                    assert(!match_at(t@, q@, b as int));
                }
            },
        }
    }
    best
}

/// `a - b` saturated to the range of `i64`.
fn sat_sub_i64(a: i128, b: i128) -> (r: i128)
    requires
        -score_bound() <= a <= score_bound(),
        -score_bound() <= b <= score_bound(),
    ensures
        r == sat_i64(a - b),
{
    let d = a - b;
    if d < i64::MIN as i128 {
        i64::MIN as i128
    } else if d > i64::MAX as i128 {
        i64::MAX as i128
    } else {
        d
    }
}

/// Scores `q` against `t` (see `score_text`).
#[verifier::rlimit(40)]
#[verifier::spinoff_prover]
pub fn score_subsequence(t: &Vec<char>, q: &Vec<char>) -> (r: Option<i128>)
    ensures
        r matches Some(v) ==> -score_bound() <= v <= score_bound(),
        match (r, score_text(t@, q@)) {
            (Some(a), Some(b)) => a == b,
            (None, None) => true,
            _ => false,
        },
{
    let q_len = q.len() as i128;
    let t_len = t.len() as i128;
    match best_exact_substring(t, q) {
        Some((idx, wb)) => {
            let mut score: i128 = 5_000;
            if idx == 0 {
                score = score + 5_000;
                if t_len == q_len {
                    score = score + 10_000;
                }
            } else if wb {
                score = score + 3_000;
            } else {
                score = score + 1_000;
            }
            score = score + sat_sub_i64(q_len * 50, t_len * 2);
            score = score - (idx as i128) * 5;
            return Some(score);
        },
        None => {},
    }
    if q.len() == 0 {
        return Some(0);
    }
    let mut matched: usize = 0;
    let mut wbm: usize = 0;
    let mut cons: usize = 0;
    let mut first: Option<usize> = None;
    let mut last: Option<usize> = None;
    let mut prev: Option<char> = None;
    let mut i: usize = 0;
    while i < t.len()
        invariant
            i <= t@.len(),
            prev == (if i == 0 { None } else { Some(t@[i - 1]) }),
            ({
                let g = greedy(t@, q@, i as nat);
                &&& g.matched == matched
                &&& g.wb_matches == wbm
                &&& g.consecutive == cons
                &&& g.first == (match first { Some(f) => Some(f as int), None => None })
                &&& g.last == (match last { Some(l) => Some(l as int), None => None })
            }),
            matched <= q@.len(),
            wbm <= i,
            cons <= i,
            first matches Some(f) ==> f < i,
            last matches Some(l) ==> l < i,
        decreases t@.len() - i,
    {
        let c = t[i];
        let is_wb = is_word_boundary_exec(prev, c);
        assert(is_wb == wb_at(t@, i as int));
        if matched < q.len() {
            if char_eq_ci_exec(c, q[matched]) {
                matched = matched + 1;
                if is_wb {
                    wbm = wbm + 1;
                }
                match last {
                    Some(l) => {
                        if i == l + 1 {
                            cons = cons + 1;
                        }
                    },
                    None => {},
                }
                if first.is_none() {
                    first = Some(i);
                }
                last = Some(i);
            }
        }
        prev = Some(c);
        i = i + 1;
    }
    if matched < q.len() {
        return None;
    }
    let mut score: i128 = 1_000;
    score = score + q_len * 50;
    score = score + (wbm as i128) * 400;
    score = score + (cons as i128) * 100;
    if first == Some(0usize) {
        score = score + 200;
    }
    score = sat_sub_i64(score, t_len * 2);
    match first {
        Some(f) => {
            score = sat_sub_i64(score, (f as i128) * 5);
        },
        None => {},
    }
    Some(score)
}

} // verus!
