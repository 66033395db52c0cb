//! Path completion for the modals that take a file path: the decisions made
//! on a directory listing that the caller has read.
use vstd::prelude::*;
use crate::text::{has_prefix, str_chars, str_lowercase_mapping, str_to_lowercase, string_from_chars};

verus! {

/// Whether all strings have the first string's character at position `i`.
pub open spec fn agree_at(strs: Seq<Seq<char>>, i: int) -> bool {
    forall|k: int| 0 <= k < strs.len() ==> (#[trigger] strs[k]).len() > i && strs[k][i] == strs[0][i]
}

/// The length of the common prefix of `strs`, counting from position `i`.
pub open spec fn lcp_len_from(strs: Seq<Seq<char>>, i: int) -> int
    decreases strs[0].len() - i,
{
    if 0 <= i < strs[0].len() && agree_at(strs, i) {
        lcp_len_from(strs, i + 1)
    } else {
        i
    }
}

/// The longest common prefix of `strs`; empty when there are no strings.
pub open spec fn lcp(strs: Seq<Seq<char>>) -> Seq<char> {
    if strs.len() == 0 {
        Seq::empty()
    } else {
        strs[0].take(lcp_len_from(strs, 0))
    }
}

/// The characters of each string slice.
pub open spec fn str_views(strs: Seq<&str>) -> Seq<Seq<char>> {
    strs.map_values(|s: &str| s@)
}

/// The characters of each vector.
pub open spec fn vec_views(vs: Seq<Vec<char>>) -> Seq<Seq<char>> {
    vs.map_values(|v: Vec<char>| v@)
}

proof fn lemma_lcp_len_bounds(strs: Seq<Seq<char>>, i: int)
    requires
        strs.len() > 0,
        0 <= i <= strs[0].len(),
    ensures
        i <= lcp_len_from(strs, i) <= strs[0].len(),
    decreases strs[0].len() - i,
{
    if i < strs[0].len() && agree_at(strs, i) {
        lemma_lcp_len_bounds(strs, i + 1);
    }
}

/// Whether all vectors agree with the first at position `n`.
fn all_agree_at(cs: &Vec<Vec<char>>, n: usize) -> (b: bool)
    requires
        cs@.len() > 0,
        n < cs@[0]@.len(),
    ensures
        b == agree_at(vec_views(cs@), n as int),
{
    let ghost v = vec_views(cs@);
    let mut k: usize = 0;
    while k < cs.len()
        invariant
            k <= cs@.len(),
            cs@.len() > 0,
            n < cs@[0]@.len(),
            v == vec_views(cs@),
            forall|j: int| 0 <= j < k ==> (#[trigger] v[j]).len() > n && v[j][n as int] == v[0][n as int],
        decreases cs@.len() - k,
    {
        if cs[k].len() <= n || cs[k][n] != cs[0][n] {
            assert(!((v[k as int]).len() > n && v[k as int][n as int] == v[0][n as int]));
            return false;
        }
        k = k + 1;
    }
    true
}

/// Computes the longest common prefix of a slice of strings.
pub fn longest_common_prefix(strings: &[&str]) -> (r: String)
    ensures
        r@ == lcp(str_views(strings@)),
{
    if strings.len() == 0 {
        return String::new();
    }
    let mut cs: Vec<Vec<char>> = Vec::new();
    let mut k: usize = 0;
    while k < strings.len()
        invariant
            k <= strings@.len(),
            cs@.len() == k,
            forall|j: int| 0 <= j < k ==> (#[trigger] cs@[j])@ == strings@[j]@,
        decreases strings@.len() - k,
    {
        cs.push(str_chars(strings[k]));
        k = k + 1;
    }
    let ghost v = vec_views(cs@);
    assert(v =~= str_views(strings@));
    let mut n: usize = 0;
    proof {
        lemma_lcp_len_bounds(v, 0);
    }
    while n < cs[0].len() && all_agree_at(&cs, n)
        invariant
            cs@.len() > 0,
            v == vec_views(cs@),
            n <= cs@[0]@.len(),
            lcp_len_from(v, 0) == lcp_len_from(v, n as int),
        decreases cs@[0]@.len() - n,
    {
        n = n + 1;
    }
    let mut out: Vec<char> = Vec::new();
    let mut i: usize = 0;
    while i < n
        invariant
            cs@.len() > 0,
            n <= cs@[0]@.len(),
            i <= n,
            out@ == cs@[0]@.take(i as int),
        decreases n - i,
    {
        out.push(cs[0][i]);
        i = i + 1;
        assert(out@ =~= cs@[0]@.take(i as int));
    }
    string_from_chars(out.as_slice())
}

/// Whether `s` ends with `suf`.
pub open spec fn has_suffix(s: Seq<char>, suf: Seq<char>) -> bool {
    s.len() >= suf.len() && s.skip(s.len() - suf.len()) == suf
}

/// The input with the typed partial name replaced by the completion (with
/// nothing typed, the completion is appended), and a slash added for a
/// directory.
pub open spec fn built_path(input: Seq<char>, prefix: Seq<char>, repl: Seq<char>, is_dir: bool) -> Seq<char> {
    let base = if has_suffix(input, prefix) {
        input.take(input.len() - prefix.len()) + repl
    } else {
        input + repl
    };
    if is_dir && !(base.len() > 0 && base.last() == '/') {
        base.push('/')
    } else {
        base
    }
}

fn ends_with_chars(s: &Vec<char>, suf: &Vec<char>) -> (b: bool)
    ensures
        b == has_suffix(s@, suf@),
{
    if s.len() < suf.len() {
        return false;
    }
    let off = s.len() - suf.len();
    let mut i: usize = 0;
    while i < suf.len()
        invariant
            off + suf@.len() == s@.len(),
            s@.len() <= usize::MAX,
            i <= suf@.len(),
            forall|j: int| 0 <= j < i ==> s@[off + j] == suf@[j],
        decreases suf@.len() - i,
    {
        if s[off + i] != suf[i] {
            assert(s@.skip(off as int)[i as int] != suf@[i as int]);
            return false;
        }
        i = i + 1;
    }
    assert(s@.skip(off as int) =~= suf@);
    true
}

/// Reconstructs the input string replacing the partial prefix with the
/// completed text; with an empty prefix the completion is appended.
pub fn build_path(original_input: &str, prefix: &str, replacement: &str, is_dir: bool) -> (r: String)
    ensures
        r@ == built_path(original_input@, prefix@, replacement@, is_dir),
{
    let inp = str_chars(original_input);
    let pre = str_chars(prefix);
    let rep = str_chars(replacement);
    let mut base: Vec<char> = Vec::new();
    {
        let keep = if ends_with_chars(&inp, &pre) { inp.len() - pre.len() } else { inp.len() };
        let mut i: usize = 0;
        while i < keep
            invariant
                keep <= inp@.len(),
                i <= keep,
                base@ == inp@.take(i as int),
            decreases keep - i,
        {
            base.push(inp[i]);
            i = i + 1;
            assert(base@ =~= inp@.take(i as int));
        }
        let mut j: usize = 0;
        while j < rep.len()
            invariant
                j <= rep@.len(),
                base@ == inp@.take(keep as int) + rep@.take(j as int),
            decreases rep@.len() - j,
        {
            base.push(rep[j]);
            j = j + 1;
            assert(base@ =~= inp@.take(keep as int) + rep@.take(j as int));
        }
        assert(rep@.take(rep@.len() as int) =~= rep@);
        assert(inp@.take(inp@.len() as int) =~= inp@);
    }
    if is_dir && !(base.len() > 0 && base[base.len() - 1] == '/') {
        base.push('/');
    }
    string_from_chars(base.as_slice())
}

/// The number of bytes that UTF-8 takes for `c`.
pub open spec fn char_utf8_len(c: char) -> int {
    let u = c as u32;
    if u < 0x80 {
        1
    } else if u < 0x800 {
        2
    } else if u < 0x10000 {
        3
    } else {
        4
    }
}

/// The number of bytes that UTF-8 takes for `s` (`str::len`).
pub open spec fn utf8_len(s: Seq<char>) -> int
    decreases s.len(),
{
    if s.len() == 0 {
        0
    } else {
        utf8_len(s.drop_last()) + char_utf8_len(s.last())
    }
}

fn utf8_len_exec(s: &Vec<char>) -> (r: u128)
    ensures
        r == utf8_len(s@),
{
    let mut total: u128 = 0;
    let mut i: usize = 0;
    while i < s.len()
        invariant
            i <= s@.len(),
            total == utf8_len(s@.take(i as int)),
            total <= 4 * i,
        decreases s@.len() - i,
    {
        let c = s[i];
        let u = c as u32;
        let w: u128 = if u < 0x80 {
            1
        } else if u < 0x800 {
            2
        } else if u < 0x10000 {
            3
        } else {
            4
        };
        assert(s@.take(i + 1).drop_last() =~= s@.take(i as int));
        total = total + w;
        i = i + 1;
    }
    assert(s@.take(s@.len() as int) =~= s@);
    total
}

/// Whether a directory entry completes the typed name: hidden entries only
/// when the typed name starts with a dot, and a case-insensitive prefix match.
pub open spec fn entry_matches(name: Seq<char>, prefix: Seq<char>) -> bool {
    &&& !(has_prefix(name, seq!['.']) && !has_prefix(prefix, seq!['.']))
    &&& has_prefix(str_lowercase_mapping(name), str_lowercase_mapping(prefix))
}

proof fn lemma_starts_with_dot(s: Seq<char>)
    ensures
        has_prefix(s, seq!['.']) == (s.len() > 0 && s[0] == '.'),
{
    if s.len() > 0 {
        assert(s.subrange(0, 1) =~= seq![s[0]]);
        if s[0] == '.' {
            assert(seq![s[0]] =~= seq!['.']);
        } else {
            assert(s.subrange(0, 1)[0] != seq!['.'][0]);
        }
    }
}

/// The entries of a listing, as names and directory flags.
pub open spec fn listing_view(es: Seq<(String, bool)>) -> Seq<(Seq<char>, bool)> {
    es.map_values(|e: (String, bool)| (e.0@, e.1))
}

/// The entries that complete `prefix`, in listing order.
pub open spec fn matching(es: Seq<(Seq<char>, bool)>, prefix: Seq<char>) -> Seq<(Seq<char>, bool)>
    decreases es.len(),
{
    if es.len() == 0 {
        Seq::empty()
    } else {
        let rest = matching(es.drop_last(), prefix);
        if entry_matches(es.last().0, prefix) {
            rest.push(es.last())
        } else {
            rest
        }
    }
}

/// The names of entries.
pub open spec fn names_of(es: Seq<(Seq<char>, bool)>) -> Seq<Seq<char>> {
    es.map_values(|e: (Seq<char>, bool)| e.0)
}

/// The completion offered for `input` (already trimmed) given whether it
/// names an existing directory, the partial name `prefix` being typed, and
/// the listing of the directory searched (`None` when it could not be read).
pub open spec fn completion(
    input: Seq<char>,
    input_is_dir: bool,
    prefix: Seq<char>,
    listing: Option<Seq<(Seq<char>, bool)>>,
) -> Option<Seq<char>> {
    if input.len() == 0 {
        None
    } else if input_is_dir && !(input.last() == '/') {
        Some(input.push('/'))
    } else {
        match listing {
            None => None,
            Some(es) => {
                let ms = matching(es, prefix);
                if ms.len() == 0 {
                    None
                } else if ms.len() == 1 {
                    Some(built_path(input, prefix, ms[0].0, ms[0].1))
                } else {
                    let l = lcp(names_of(ms));
                    if utf8_len(l) > utf8_len(prefix) {
                        Some(built_path(input, prefix, l, false))
                    } else {
                        None
                    }
                }
            },
        }
    }
}

/// Decides the completion of a trimmed path input from facts the caller
/// gathered on disk: whether the input is an existing directory, the partial
/// file name under completion, and the listing of its parent directory.
pub fn complete_from_listing(
    trimmed: &str,
    input_is_dir: bool,
    prefix: &str,
    listing: Option<Vec<(String, bool)>>,
) -> (r: Option<String>)
    ensures
        match (r, completion(
            trimmed@,
            input_is_dir,
            prefix@,
            match listing {
                Some(v) => Some(listing_view(v@)),
                None => None,
            },
        )) {
            (Some(a), Some(b)) => a@ == b,
            (None, None) => true,
            _ => false,
        },
{
    let tc = str_chars(trimmed);
    if tc.len() == 0 {
        return None;
    }
    if input_is_dir && !(tc[tc.len() - 1] == '/') {
        let mut v = tc;
        v.push('/');
        return Some(string_from_chars(v.as_slice()));
    }
    let es = match listing {
        None => {
            return None;
        },
        Some(es) => es,
    };
    let ghost ev = listing_view(es@);
    let pc = str_chars(prefix);
    let prefix_lower = str_chars(str_to_lowercase(prefix).as_str());
    let prefix_hidden = pc.len() > 0 && pc[0] == '.';
    proof {
        lemma_starts_with_dot(pc@);
    }
    let mut names: Vec<&str> = Vec::new();
    let mut dirs: Vec<bool> = Vec::new();
    let mut i: usize = 0;
    while i < es.len()
        invariant
            i <= es@.len(),
            ev == listing_view(es@),
            pc@ == prefix@,
            prefix_lower@ == str_lowercase_mapping(prefix@),
            prefix_hidden == has_prefix(prefix@, seq!['.']),
            names@.len() == dirs@.len(),
            matching(ev.take(i as int), prefix@).len() == names@.len(),
            forall|j: int|
                0 <= j < names@.len() ==> (#[trigger] matching(ev.take(i as int), prefix@)[j]) == (
                names@[j]@,
                dirs@[j],
            ),
        decreases es@.len() - i,
    {
        let name: &str = es[i].0.as_str();
        let nc = str_chars(name);
        let hidden = nc.len() > 0 && nc[0] == '.';
        let lower = str_chars(str_to_lowercase(name).as_str());
        let mut is_pre = lower.len() >= prefix_lower.len();
        let mut j: usize = 0;
        while is_pre && j < prefix_lower.len()
            invariant
                j <= prefix_lower@.len(),
                is_pre ==> lower@.len() >= prefix_lower@.len(),
                is_pre ==> forall|t: int| 0 <= t < j ==> lower@[t] == prefix_lower@[t],
                !is_pre ==> !has_prefix(lower@, prefix_lower@),
            decreases prefix_lower@.len() - j + (if is_pre { 1int } else { 0int }),
        {
            if lower[j] != prefix_lower[j] {
                is_pre = false;
            } else {
                j = j + 1;
            }
        }
        proof {
            assert(ev.take(i + 1).drop_last() =~= ev.take(i as int));
            assert(ev[i as int] == (es@[i as int].0@, es@[i as int].1));
            if is_pre {
                assert(lower@.take(prefix_lower@.len() as int) =~= prefix_lower@);
            }
            lemma_starts_with_dot(nc@);
        }
        if !(hidden && !prefix_hidden) && is_pre {
            names.push(name);
            dirs.push(es[i].1);
        }
        i = i + 1;
    }
    assert(ev.take(es@.len() as int) =~= ev);
    let ghost ms = matching(ev, prefix@);
    if names.len() == 0 {
        return None;
    }
    if names.len() == 1 {
        return Some(build_path(trimmed, prefix, names[0], dirs[0]));
    }
    let l = longest_common_prefix(names.as_slice());
    proof {
        assert(str_views(names@) =~= names_of(ms));
    }
    let lc = str_chars(l.as_str());
    if utf8_len_exec(&lc) > utf8_len_exec(&pc) {
        Some(build_path(trimmed, prefix, l.as_str(), false))
    } else {
        None
    }
}

} // verus!
