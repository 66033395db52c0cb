//! Tags, deletions and removals, and the collection modals.
use vstd::prelude::*;
use crate::app::{App, find_paper, has_paper};
use crate::app_data::tags_in;
use crate::app_edit::opt_view;
use crate::app_nav::visual_targets;
use crate::app_view::collection_synced;
use crate::collections::KeyMap;
use crate::paper::{clone_strings, Paper, TocEntry};
use crate::panel::ActivePanel;
use crate::selection::{CollectionItem, CollectionKey};
use crate::text::{concat2, concat3, owned, str_chars, string_from_chars, string_push_str, trim, trim_chars, trim_end, trim_start};

verus! {

// ------------------------------------------------------------------ tags

/// The pieces of `s` between commas (`str::split(',')`): one more piece
/// than there are commas.
pub open spec fn comma_pieces(s: Seq<char>) -> Seq<Seq<char>>
    decreases s.len(),
{
    if s.len() == 0 {
        seq![Seq::empty()]
    } else {
        let p = comma_pieces(s.drop_last());
        if s.last() == ',' {
            p.push(Seq::empty())
        } else {
            p.update(p.len() - 1, p.last().push(s.last()))
        }
    }
}

/// The non-blank pieces, trimmed.
pub open spec fn kept_tags(pieces: Seq<Seq<char>>) -> Seq<Seq<char>>
    decreases pieces.len(),
{
    if pieces.len() == 0 {
        Seq::empty()
    } else {
        let r = kept_tags(pieces.drop_last());
        let t = trim(pieces.last());
        if t.len() == 0 {
            r
        } else {
            r.push(t)
        }
    }
}

/// The tags typed in the tag modal: the comma-separated pieces, trimmed,
/// blank ones left out.
pub open spec fn parse_tags(s: Seq<char>) -> Seq<Seq<char>> {
    kept_tags(comma_pieces(s))
}

/// The texts of a list of strings.
pub open spec fn texts(v: Seq<String>) -> Seq<Seq<char>> {
    v.map_values(|s: String| s@)
}

/// Segments joined with a separator.
pub open spec fn join_with(segs: Seq<Seq<char>>, sep: Seq<char>) -> Seq<char>
    decreases segs.len(),
{
    if segs.len() == 0 {
        Seq::empty()
    } else if segs.len() == 1 {
        segs[0]
    } else {
        join_with(segs.drop_last(), sep) + sep + segs.last()
    }
}

fn split_tags(s: &String) -> (r: Vec<String>)
    ensures
        texts(r@) == parse_tags(s@),
{
    let cs = str_chars(s.as_str());
    let mut pieces: Vec<Vec<char>> = Vec::new();
    pieces.push(Vec::new());
    let mut i: usize = 0;
    assert(cs@.take(0) =~= Seq::<char>::empty());
    while i < cs.len()
        invariant
            i <= cs@.len(),
            pieces@.len() >= 1,
            pieces@.map_values(|v: Vec<char>| v@) == comma_pieces(cs@.take(i as int)),
        decreases cs@.len() - i,
    {
        let ghost before = pieces@.map_values(|v: Vec<char>| v@);
        assert(cs@.take(i + 1).drop_last() =~= cs@.take(i as int));
        if cs[i] == ',' {
            pieces.push(Vec::new());
            assert(pieces@.map_values(|v: Vec<char>| v@) =~= before.push(Seq::empty()));
        } else {
            let last = pieces.len() - 1;
            let mut p = pieces[last].clone();
            p.push(cs[i]);
            pieces.set(last, p);
            assert(pieces@.map_values(|v: Vec<char>| v@) =~= before.update(
                before.len() - 1,
                before.last().push(cs@[i as int]),
            ));
        }
        i = i + 1;
    }
    assert(cs@.take(cs@.len() as int) =~= cs@);
    let ghost ps = pieces@.map_values(|v: Vec<char>| v@);
    let mut out: Vec<String> = Vec::new();
    let mut k: usize = 0;
    while k < pieces.len()
        invariant
            k <= pieces@.len(),
            ps == pieces@.map_values(|v: Vec<char>| v@),
            texts(out@) == kept_tags(ps.take(k as int)),
        decreases pieces@.len() - k,
    {
        assert(ps.take(k + 1).drop_last() =~= ps.take(k as int));
        let t = trim_chars(&pieces[k]);
        if t.len() > 0 {
            let ghost before = out@;
            out.push(string_from_chars(t.as_slice()));
            assert(texts(out@) =~= texts(before).push(t@));
        }
        k = k + 1;
    }
    assert(ps.take(ps.len() as int) =~= ps);
    out
}

/// A tag as the tag modal shows it and reads it back: not blank, free of
/// commas, and without white space at either end.
pub open spec fn plain_tag(t: Seq<char>) -> bool {
    &&& t.len() > 0
    &&& !t.contains(',')
    &&& trim(t) == t
}

proof fn lemma_pieces_of_plain(t: Seq<char>)
    requires
        !t.contains(','),
    ensures
        comma_pieces(t) == seq![t],
    decreases t.len(),
{
    if t.len() > 0 {
        assert(!t.drop_last().contains(',')) by {
            if t.drop_last().contains(',') {
                let k = choose|k: int| 0 <= k < t.drop_last().len() && t.drop_last()[k] == ',';
                assert(t[k] == ',');
            }
        }
        lemma_pieces_of_plain(t.drop_last());
        assert(t[t.len() - 1] != ',');
        let p = comma_pieces(t.drop_last());
        assert(p.update(p.len() - 1, p.last().push(t.last())) =~= seq![t]) by {
            assert(t.drop_last().push(t.last()) =~= t);
        }
    } else {
        assert(t =~= Seq::<char>::empty());
    }
}

proof fn lemma_pieces_after_comma(s: Seq<char>, t: Seq<char>)
    requires
        !t.contains(','),
    ensures
        comma_pieces(s + seq![','] + t) == comma_pieces(s).push(t),
    decreases t.len(),
{
    let u = s + seq![','] + t;
    if t.len() == 0 {
        assert(u.drop_last() =~= s);
        assert(u.last() == ',');
        assert(comma_pieces(u) == comma_pieces(u.drop_last()).push(Seq::<char>::empty()));
        assert(t =~= Seq::<char>::empty());
    } else {
        assert(!t.drop_last().contains(',')) by {
            if t.drop_last().contains(',') {
                let k = choose|k: int| 0 <= k < t.drop_last().len() && t.drop_last()[k] == ',';
                assert(t[k] == ',');
            }
        }
        lemma_pieces_after_comma(s, t.drop_last());
        assert(u.drop_last() =~= s + seq![','] + t.drop_last());
        assert(u.last() == t.last());
        assert(t[t.len() - 1] != ',');
        let p = comma_pieces(u.drop_last());
        assert(p.update(p.len() - 1, p.last().push(t.last())) =~= comma_pieces(s).push(t)) by {
            assert(t.drop_last().push(t.last()) =~= t);
        }
    }
}

proof fn lemma_trim_after_space(t: Seq<char>)
    requires
        plain_tag(t),
    ensures
        trim(seq![' '] + t) == t,
{
    crate::text::lemma_space_is_white_space();
    let u = seq![' '] + t;
    assert(u.subrange(1, u.len() as int) =~= t);
}

/// Reading back tags shown joined by `, ` gives the same tags, when each is a
/// plain tag: `parse_tags(join_with(ts, ", ")) == ts`.
pub proof fn lemma_parse_joined_tags(ts: Seq<Seq<char>>)
    requires
        forall|i: int| 0 <= i < ts.len() ==> #[trigger] plain_tag(ts[i]),
    ensures
        parse_tags(join_with(ts, ", "@)) == ts,
    decreases ts.len(),
{
    reveal_strlit(", ");
    if ts.len() == 0 {
        let e = Seq::<char>::empty();
        assert(join_with(ts, ", "@) == e);
        assert(comma_pieces(e) == seq![e]);
        assert(seq![e].drop_last() =~= Seq::<Seq<char>>::empty());
        assert(trim_start(e) == e);
        assert(trim_end(e) == e);
        assert(kept_tags(seq![e]) == kept_tags(Seq::<Seq<char>>::empty()));
        assert(ts =~= Seq::<Seq<char>>::empty());
    } else if ts.len() == 1 {
        assert(plain_tag(ts[0]));
        lemma_pieces_of_plain(ts[0]);
        assert(join_with(ts, ", "@) == ts[0]);
        assert(seq![ts[0]].drop_last() =~= Seq::<Seq<char>>::empty());
        assert(kept_tags(Seq::<Seq<char>>::empty()) == Seq::<Seq<char>>::empty());
        assert(trim(ts[0]) == ts[0]);
        assert(seq![ts[0]].last() == ts[0]);
        assert(Seq::<Seq<char>>::empty().push(ts[0]) =~= seq![ts[0]]);
        assert(kept_tags(seq![ts[0]]) == seq![ts[0]]);
        assert(seq![ts[0]] =~= ts);
    } else {
        let init = ts.drop_last();
        let last = ts.last();
        assert(forall|i: int| 0 <= i < init.len() ==> #[trigger] plain_tag(init[i])) by {
            assert forall|i: int| 0 <= i < init.len() implies #[trigger] plain_tag(init[i]) by {
                assert(plain_tag(ts[i]));
            }
        }
        assert(plain_tag(ts[ts.len() - 1]));
        lemma_parse_joined_tags(init);
        let j = join_with(init, ", "@);
        let tail = seq![' '] + last;
        assert(!tail.contains(',')) by {
            if tail.contains(',') {
                let k = choose|k: int| 0 <= k < tail.len() && tail[k] == ',';
                assert(last[k - 1] == ',');
            }
        }
        assert(join_with(ts, ", "@) =~= j + seq![','] + tail);
        lemma_pieces_after_comma(j, tail);
        lemma_trim_after_space(last);
        let ps = comma_pieces(j).push(tail);
        assert(ps.drop_last() =~= comma_pieces(j));
        assert(kept_tags(ps) == kept_tags(comma_pieces(j)).push(last));
        assert(init.push(last) =~= ts);
    }
}

/// Opening the tag modal and confirming it untouched leaves the selected
/// paper's tags as they were, when each of them is a plain tag.
pub proof fn lemma_tags_modal_round_trip(a: App, b: App, c: App)
    requires
        a.selected_paper < a.papers@.len(),
        forall|i: int| 0 <= i < texts(tags_in(a.tags_by_paper@, a.papers@[a.selected_paper as int].id)).len()
            ==> #[trigger] plain_tag(texts(tags_in(a.tags_by_paper@, a.papers@[a.selected_paper as int].id))[i]),
        tags_modal_opened(a, b),
        tags_confirmed(b, c),
    ensures
        texts(tags_in(c.tags_by_paper@, a.papers@[a.selected_paper as int].id))
            == texts(tags_in(a.tags_by_paper@, a.papers@[a.selected_paper as int].id)),
        forall|q: u128| q != a.papers@[a.selected_paper as int].id
            ==> #[trigger] tags_in(c.tags_by_paper@, q) == tags_in(a.tags_by_paper@, q),
{
    reveal(tags_modal_opened);
    reveal(tags_confirmed);
    let pid = a.papers@[a.selected_paper as int].id;
    lemma_parse_joined_tags(texts(tags_in(a.tags_by_paper@, pid)));
    assert(c.tags_by_paper@.contains_key(pid));
}

/// The texts of `v` joined by `sep` (`[String]::join`).
pub fn join_tags(v: &Vec<String>, sep: &str) -> (r: String)
    ensures
        r@ == join_with(texts(v@), sep@),
{
    let mut out = String::new();
    let mut i: usize = 0;
    while i < v.len()
        invariant
            i <= v@.len(),
            out@ == join_with(texts(v@.take(i as int)), sep@),
        decreases v@.len() - i,
    {
        assert(texts(v@.take(i + 1)).drop_last() =~= texts(v@.take(i as int)));
        if i > 0 {
            string_push_str(&mut out, sep);
        }
        string_push_str(&mut out, v[i].as_str());
        proof {
            if i == 0 {
                assert(out@ =~= texts(v@.take(1))[0]);
            }
        }
        i = i + 1;
    }
    assert(v@.take(v@.len() as int) =~= v@);
    out
}

/// The state after the tag modal is confirmed: the typed tags replace the
/// selected paper's tags (when a paper is selected, with a message), and the
/// modal closes.
#[verifier::opaque]
pub open spec fn tags_confirmed(o: App, n: App) -> bool {
    let closing = App {
        is_editing_tags: false,
        tags_input_buffer: n.tags_input_buffer,
        needs_clear: true,
        ..o
    };
    &&& n.tags_input_buffer@.len() == 0
    &&& if o.selected_paper < o.papers@.len() {
        let pid = o.papers@[o.selected_paper as int].id;
        &&& n == App { tags_by_paper: n.tags_by_paper, status_message: n.status_message, ..closing }
        &&& n.tags_by_paper@ == o.tags_by_paper@.insert(pid, n.tags_by_paper@[pid])
        &&& texts(n.tags_by_paper@[pid]@) == parse_tags(o.tags_input_buffer@)
        &&& opt_view(n.status_message) == Some("Updated tags (in-memory)"@)
    } else {
        n == closing
    }
}

/// The state after the tag modal is opened: the selected paper's tags,
/// joined by `, `, fill the input; without a selected paper a message.
#[verifier::opaque]
pub open spec fn tags_modal_opened(o: App, n: App) -> bool {
    if o.selected_paper < o.papers@.len() {
        let pid = o.papers@[o.selected_paper as int].id;
        &&& n == App {
            tags_input_buffer: n.tags_input_buffer,
            is_editing_tags: true,
            needs_clear: true,
            ..o
        }
        &&& n.tags_input_buffer@ == join_with(texts(tags_in(o.tags_by_paper@, pid)), ", "@)
    } else {
        &&& n == App { status_message: n.status_message, ..o }
        &&& opt_view(n.status_message) == Some("No paper selected to edit tags"@)
    }
}

impl App {
    /// Opens the tag modal on the selected paper's tags.
    pub fn open_tags_modal(&mut self)
        ensures
            tags_modal_opened(*old(self), *final(self)),
    {
        if self.selected_paper < self.papers.len() {
            self.fill_tags_modal();
        } else {
            self.set_status("No paper selected to edit tags");
            proof {
                reveal(tags_modal_opened);
            }
        }
    }

    fn fill_tags_modal(&mut self)
        requires
            old(self).selected_paper < old(self).papers@.len(),
        ensures
            tags_modal_opened(*old(self), *final(self)),
    {
        let tags = self.current_paper_tags();
        let text = join_tags(&tags, ", ");
        self.tags_input_buffer = text;
        self.is_editing_tags = true;
        self.needs_clear = true;
        proof {
            reveal(tags_modal_opened);
        }
    }

    /// Saves the typed tags for the selected paper and closes the modal.
    pub fn confirm_edit_tags(&mut self)
        ensures
            tags_confirmed(*old(self), *final(self)),
    {
        if self.selected_paper < self.papers.len() {
            self.store_typed_tags();
        } else {
            self.close_tags_modal();
            proof {
                reveal(tags_confirmed);
            }
        }
    }

    fn store_typed_tags(&mut self)
        requires
            old(self).selected_paper < old(self).papers@.len(),
        ensures
            tags_confirmed(*old(self), *final(self)),
    {
        let tags = split_tags(&self.tags_input_buffer);
        let pid = self.papers[self.selected_paper].id;
        self.tags_by_paper.insert(pid, tags);
        self.set_status("Updated tags (in-memory)");
        self.close_tags_modal();
        proof {
            reveal(tags_confirmed);
        }
    }

    fn close_tags_modal(&mut self)
        ensures
            *final(self) == (App {
                is_editing_tags: false,
                tags_input_buffer: final(self).tags_input_buffer,
                needs_clear: true,
                ..*old(self)
            }),
            final(self).tags_input_buffer@.len() == 0,
    {
        self.is_editing_tags = false;
        self.tags_input_buffer = String::new();
        self.needs_clear = true;
    }
}

// ------------------------------------------------------------- deletion

/// `s` without the papers whose id is in `drop`.
pub open spec fn without_papers(s: Seq<Paper>, drop: Seq<u128>) -> Seq<Paper>
    decreases s.len(),
{
    if s.len() == 0 {
        Seq::empty()
    } else {
        let r = without_papers(s.drop_last(), drop);
        if drop.contains(s.last().id) {
            r
        } else {
            r.push(s.last())
        }
    }
}

/// Every stored list without the papers whose id is in `drop`.
pub open spec fn lists_filtered(o: Map<Option<u128>, Vec<Paper>>, n: Map<Option<u128>, Vec<Paper>>, drop: Seq<u128>) -> bool {
    &&& forall|k: Option<u128>| #[trigger] n.contains_key(k) <==> o.contains_key(k)
    &&& forall|k: Option<u128>| #[trigger] n.contains_key(k) ==> n[k]@ == without_papers(o[k]@, drop)
}

/// The collections other than the one of id `cid`.
pub open spec fn without_collection(s: Seq<CollectionItem>, cid: u128) -> Seq<CollectionItem>
    decreases s.len(),
{
    if s.len() == 0 {
        Seq::empty()
    } else {
        let r = without_collection(s.drop_last(), cid);
        if s.last().id == Some(cid) {
            r
        } else {
            r.push(s.last())
        }
    }
}

/// The memory without the entries that remember a paper of `drop`.
pub open spec fn memory_without(m: Map<CollectionKey, u128>, drop: Seq<u128>) -> Map<CollectionKey, u128> {
    m.restrict(m.dom().filter(|k: CollectionKey| !drop.contains(m[k])))
}

/// `m` without the keys of `drop`.
pub open spec fn keys_removed<V>(m: Map<u128, V>, drop: Seq<u128>) -> Map<u128, V> {
    m.remove_keys(drop.to_set())
}

pub(crate) fn vec_has(v: &Vec<u128>, x: u128) -> (b: bool)
    ensures
        b == v@.contains(x),
{
    let mut i: usize = 0;
    while i < v.len()
        invariant
            i <= v@.len(),
            forall|k: int| 0 <= k < i ==> v@[k] != x,
        decreases v@.len() - i,
    {
        if v[i] == x {
            assert(v@[i as int] == x);
            return true;
        }
        i = i + 1;
    }
    false
}

pub(crate) fn filter_list(v: &Vec<Paper>, drop: &Vec<u128>) -> (r: Vec<Paper>)
    ensures
        r@ == without_papers(v@, drop@),
{
    let mut r: Vec<Paper> = Vec::new();
    let mut i: usize = 0;
    while i < v.len()
        invariant
            i <= v@.len(),
            r@ == without_papers(v@.take(i as int), drop@),
        decreases v@.len() - i,
    {
        assert(v@.take(i + 1).drop_last() =~= v@.take(i as int));
        if !vec_has(drop, v[i].id) {
            r.push(v[i].clone());
        }
        i = i + 1;
    }
    assert(v@.take(v@.len() as int) =~= v@);
    r
}

pub(crate) fn filter_lists(m: &KeyMap<Option<u128>, Vec<Paper>>, drop: &Vec<u128>) -> (r: KeyMap<Option<u128>, Vec<Paper>>)
    ensures
        lists_filtered(m@, r@, drop@),
{
    m.entry_facts();
    let mut r: KeyMap<Option<u128>, Vec<Paper>> = KeyMap::new();
    let mut i: usize = 0;
    while i < m.len()
        invariant
            i <= m.entries().len(),
            forall|j: int|
                0 <= j < m.entries().len() ==> m@.contains_key(#[trigger] m.entries()[j].0)
                    && m@[m.entries()[j].0] == m.entries()[j].1,
            forall|k: Option<u128>| #[trigger] m@.contains_key(k) <==> exists|j: int|
                0 <= j < m.entries().len() && m.entries()[j].0 == k,
            forall|k: Option<u128>| #[trigger] r@.contains_key(k) <==> exists|j: int|
                0 <= j < i && m.entries()[j].0 == k,
            forall|k: Option<u128>| #[trigger] r@.contains_key(k) ==> r@[k]@ == without_papers(m@[k]@, drop@),
        decreases m.entries().len() - i,
    {
        let k = *m.key_at(i);
        let v = filter_list(m.value_at(i), drop);
        r.insert(k, v);
        proof {
            assert forall|x: Option<u128>| #[trigger] r@.contains_key(x) <==> exists|j: int|
                0 <= j < i + 1 && m.entries()[j].0 == x by {
                if x == k {
                    assert(m.entries()[i as int].0 == x);
                }
            }
        }
        i = i + 1;
    }
    r
}

pub(crate) fn filter_collections(v: &Vec<CollectionItem>, cid: u128) -> (r: Vec<CollectionItem>)
    ensures
        r@ == without_collection(v@, cid),
{
    let mut r: Vec<CollectionItem> = Vec::new();
    let mut i: usize = 0;
    while i < v.len()
        invariant
            i <= v@.len(),
            r@ == without_collection(v@.take(i as int), cid),
        decreases v@.len() - i,
    {
        assert(v@.take(i + 1).drop_last() =~= v@.take(i as int));
        if v[i].id != Some(cid) {
            r.push(v[i].clone());
        }
        i = i + 1;
    }
    assert(v@.take(v@.len() as int) =~= v@);
    r
}

pub(crate) fn forget_papers(m: &KeyMap<CollectionKey, u128>, drop: &Vec<u128>) -> (r: KeyMap<CollectionKey, u128>)
    ensures
        r@ == memory_without(m@, drop@),
{
    m.entry_facts();
    let mut r: KeyMap<CollectionKey, u128> = KeyMap::new();
    let mut i: usize = 0;
    while i < m.len()
        invariant
            i <= m.entries().len(),
            forall|j: int|
                0 <= j < m.entries().len() ==> m@.contains_key(#[trigger] m.entries()[j].0)
                    && m@[m.entries()[j].0] == m.entries()[j].1,
            forall|k: CollectionKey| #[trigger] m@.contains_key(k) <==> exists|j: int|
                0 <= j < m.entries().len() && m.entries()[j].0 == k,
            forall|k: CollectionKey|
                #[trigger] r@.contains_key(k) <==> exists|j: int|
                    0 <= j < i && m.entries()[j].0 == k && !drop@.contains(m@[k]),
            forall|k: CollectionKey| #[trigger] r@.contains_key(k) ==> r@[k] == m@[k],
        decreases m.entries().len() - i,
    {
        let k = *m.key_at(i);
        let v = *m.value_at(i);
        if !vec_has(drop, v) {
            r.insert(k, v);
        }
        proof {
            assert forall|x: CollectionKey| #[trigger] r@.contains_key(x) <==> exists|j: int|
                0 <= j < i + 1 && m.entries()[j].0 == x && !drop@.contains(m@[x]) by {
                if x == k {
                    assert(m.entries()[i as int].0 == x);
                }
            }
        }
        i = i + 1;
    }
    assert(r@ =~= memory_without(m@, drop@)) by {
        assert forall|k: CollectionKey| #[trigger] r@.contains_key(k) <==> memory_without(m@, drop@).contains_key(k) by {
            if m@.contains_key(k) && !drop@.contains(m@[k]) {
                let j = choose|j: int| 0 <= j < m.entries().len() && m.entries()[j].0 == k;
            }
        }
    }
    r
}

} // verus!
