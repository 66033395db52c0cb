//! Confirming and cancelling the active picker: jumping to a paper or a
//! collection, changing collection membership, and changing tags.
use vstd::prelude::*;
use crate::app::{find_paper, has_paper, paper_pos, papers_in, App, PickerContext};
use crate::app_data::tags_in;
use crate::app_edit::opt_view;
use crate::app_ops::{texts, without_papers, filter_list};
use crate::app_pick::{append_papers, has_text, common_tags, member_collections, quick_collection_id, quick_collection_id_exec, same_text};
use crate::app_view::{collection_synced, restored};
use crate::collections::{IdSet, KeyMap};
use crate::paper::{clone_strings, Paper};
use crate::panel::ActivePanel;
use crate::picker::{cursor_item, GenericPicker, PickerItem};
use crate::selection::{CollectionItem, CollectionKey, SelectionState};
use crate::text::{eq_ignore_ascii_case, eq_ignore_ascii_case_exec, str_chars, trim, trim_str};

verus! {

// ------------------------------------------------------------ quick open

/// The first collection of the list with the "All Papers" key, or -1.
pub open spec fn index_of_all(cs: Seq<CollectionItem>) -> int
    decreases cs.len(),
{
    if cs.len() == 0 {
        -1
    } else {
        let r = index_of_all(cs.drop_last());
        if r >= 0 {
            r
        } else if cs.last().key == CollectionKey::All {
            cs.len() - 1
        } else {
            -1
        }
    }
}

/// The first collection whose stored list holds paper `pid`, or -1.
pub open spec fn index_holding(m: Map<Option<u128>, Vec<Paper>>, cs: Seq<CollectionItem>, pid: u128) -> int
    decreases cs.len(),
{
    if cs.len() == 0 {
        -1
    } else {
        let r = index_holding(m, cs.drop_last(), pid);
        if r >= 0 {
            r
        } else if has_paper(papers_in(m, cs.last().id), pid) {
            cs.len() - 1
        } else {
            -1
        }
    }
}

/// The first collection that goes by the quick-open id `id`, or -1.
pub open spec fn index_of_quick_id(cs: Seq<CollectionItem>, id: u128) -> int
    decreases cs.len(),
{
    if cs.len() == 0 {
        -1
    } else {
        let r = index_of_quick_id(cs.drop_last(), id);
        if r >= 0 {
            r
        } else if quick_collection_id(cs.last()) == id {
            cs.len() - 1
        } else {
            -1
        }
    }
}

/// The collection a paper is shown in after a jump: "All Papers" when
/// listed, else the first collection holding it, else the cursor's.
pub open spec fn jump_collection(a: App, pid: u128) -> int {
    let all = index_of_all(a.collections@);
    let holding = index_holding(a.papers_by_collection@, a.collections@, pid);
    if all >= 0 {
        all
    } else if holding >= 0 {
        holding
    } else {
        a.selected_collection as int
    }
}

/// `a` with the collection cursor at `i`.
pub open spec fn at_collection(a: App, i: int) -> App {
    App { selected_collection: i as usize, ..a }
}

/// `a` with paper `pid` as the selected paper.
pub open spec fn with_paper_selected(a: App, pid: u128) -> App {
    App { selection: SelectionState { paper_id: Some(pid), ..a.selection }, ..a }
}

/// The state after paper `pid` is shown in collection `ci`: the collection
/// loads, the paper is selected and restored, and the Papers panel gets the
/// focus.
#[verifier::opaque]
pub open spec fn paper_jumped(b: App, s: App, ci: int, pid: u128) -> bool {
    exists|s1: App, s3: App|
        #![trigger collection_synced(at_collection(b, ci), s1), restored(with_paper_selected(s1, pid), s3)]
        collection_synced(at_collection(b, ci), s1) && restored(with_paper_selected(s1, pid), s3) && s == (App {
            active_panel: ActivePanel::Papers,
            ..s3
        })
}

/// Whether an optional text is the given text.
pub open spec fn is_text(o: Option<String>, t: Seq<char>) -> bool {
    opt_view(o) == Some(t)
}

/// The state after quick open is confirmed on `p`: a paper entry loads the
/// collection to show it in and selects it; a collection entry loads that
/// collection; either way the Papers panel gets the focus.
#[verifier::opaque]
pub open spec fn quick_jumped(b: App, p: GenericPicker, s: App) -> bool {
    if cursor_item(p) is None {
        s == b
    } else {
        let it = cursor_item(p).unwrap();
        if is_text(it.category, "Papers"@) {
            paper_jumped(b, s, jump_collection(b, it.id), it.id)
        } else if is_text(it.category, "Collections"@) {
            collection_jumped(b, s, index_of_quick_id(b.collections@, it.id))
        } else {
            s == b
        }
    }
}

/// The state after a jump to collection `ci` (none when negative): the
/// collection loads and the Papers panel gets the focus.
#[verifier::opaque]
pub open spec fn collection_jumped(b: App, s: App, ci: int) -> bool {
    if ci >= 0 {
        exists|s1: App|
            #[trigger] collection_synced(at_collection(b, ci), s1) && s == (App { active_panel: ActivePanel::Papers, ..s1 })
    } else {
        s == b
    }
}

fn opt_is(o: &Option<String>, lit: &str) -> (b: bool)
    ensures
        b == is_text(*o, lit@),
{
    match o {
        Some(s) => {
            let a = str_chars(s.as_str());
            let c = str_chars(lit);
            same_text(&a, &c)
        },
        None => false,
    }
}

fn index_of_all_exec(cs: &Vec<CollectionItem>) -> (r: Option<usize>)
    ensures
        match r {
            Some(i) => i == index_of_all(cs@),
            None => index_of_all(cs@) < 0,
        },
{
    let mut i: usize = 0;
    while i < cs.len()
        invariant
            i <= cs@.len(),
            index_of_all(cs@.take(i as int)) < 0,
        decreases cs@.len() - i,
    {
        assert(cs@.take(i + 1).drop_last() =~= cs@.take(i as int));
        let is_all = match cs[i].key {
            CollectionKey::All => true,
            _ => false,
        };
        if is_all {
            proof {
                lemma_index_of_all_prefix(cs@, i as int + 1);
            }
            return Some(i);
        }
        i = i + 1;
    }
    assert(cs@.take(cs@.len() as int) =~= cs@);
    None
}

proof fn lemma_index_of_all_prefix(cs: Seq<CollectionItem>, k: int)
    requires
        0 < k <= cs.len(),
        index_of_all(cs.take(k)) >= 0,
    ensures
        index_of_all(cs) == index_of_all(cs.take(k)),
    decreases cs.len() - k,
{
    if k < cs.len() {
        assert(cs.take(k + 1).drop_last() =~= cs.take(k));
        lemma_index_of_all_prefix(cs, k + 1);
    } else {
        assert(cs.take(k) =~= cs);
    }
}

proof fn lemma_index_holding_prefix(m: Map<Option<u128>, Vec<Paper>>, cs: Seq<CollectionItem>, pid: u128, k: int)
    requires
        0 < k <= cs.len(),
        index_holding(m, cs.take(k), pid) >= 0,
    ensures
        index_holding(m, cs, pid) == index_holding(m, cs.take(k), pid),
    decreases cs.len() - k,
{
    if k < cs.len() {
        assert(cs.take(k + 1).drop_last() =~= cs.take(k));
        lemma_index_holding_prefix(m, cs, pid, k + 1);
    } else {
        assert(cs.take(k) =~= cs);
    }
}

proof fn lemma_index_quick_prefix(cs: Seq<CollectionItem>, id: u128, k: int)
    requires
        0 < k <= cs.len(),
        index_of_quick_id(cs.take(k), id) >= 0,
    ensures
        index_of_quick_id(cs, id) == index_of_quick_id(cs.take(k), id),
    decreases cs.len() - k,
{
    if k < cs.len() {
        assert(cs.take(k + 1).drop_last() =~= cs.take(k));
        lemma_index_quick_prefix(cs, id, k + 1);
    } else {
        assert(cs.take(k) =~= cs);
    }
}

fn index_of_quick_id_exec(cs: &Vec<CollectionItem>, id: u128) -> (r: Option<usize>)
    ensures
        match r {
            Some(i) => i == index_of_quick_id(cs@, id),
            None => index_of_quick_id(cs@, id) < 0,
        },
{
    let mut i: usize = 0;
    while i < cs.len()
        invariant
            i <= cs@.len(),
            index_of_quick_id(cs@.take(i as int), id) < 0,
        decreases cs@.len() - i,
    {
        assert(cs@.take(i + 1).drop_last() =~= cs@.take(i as int));
        if quick_collection_id_exec(&cs[i]) == id {
            proof {
                lemma_index_quick_prefix(cs@, id, i as int + 1);
            }
            return Some(i);
        }
        i = i + 1;
    }
    assert(cs@.take(cs@.len() as int) =~= cs@);
    None
}

impl App {
    fn index_holding_exec(&self, pid: u128) -> (r: Option<usize>)
        ensures
            match r {
                Some(i) => i == index_holding(self.papers_by_collection@, self.collections@, pid),
                None => index_holding(self.papers_by_collection@, self.collections@, pid) < 0,
            },
    {
        let ghost m = self.papers_by_collection@;
        let ghost cs = self.collections@;
        let mut i: usize = 0;
        while i < self.collections.len()
            invariant
                m == self.papers_by_collection@,
                cs == self.collections@,
                i <= cs.len(),
                index_holding(m, cs.take(i as int), pid) < 0,
            decreases cs.len() - i,
        {
            assert(cs.take(i + 1).drop_last() =~= cs.take(i as int));
            let list = self.load_papers(self.collections[i].id);
            if find_paper(&list, pid).is_some() {
                proof {
                    lemma_index_holding_prefix(m, cs, pid, i as int + 1);
                }
                return Some(i);
            }
            i = i + 1;
        }
        assert(cs.take(cs.len() as int) =~= cs);
        None
    }

    fn jump_collection_exec(&self, pid: u128) -> (r: usize)
        ensures
            r == jump_collection(*self, pid),
    {
        match index_of_all_exec(&self.collections) {
            Some(i) => i,
            None => match self.index_holding_exec(pid) {
                Some(i) => i,
                None => self.selected_collection,
            },
        }
    }

    fn select_paper_id(&mut self, pid: u128)
        ensures
            *final(self) == with_paper_selected(*old(self), pid),
    {
        self.selection = SelectionState { paper_id: Some(pid), ..self.selection };
    }

    fn jump_to_paper(&mut self, pid: u128)
        ensures
            paper_jumped(*old(self), *final(self), jump_collection(*old(self), pid), pid),
    {
        let ci = self.jump_collection_exec(pid);
        self.show_paper_in(ci, pid);
    }

    #[verifier::rlimit(60)]
    fn show_paper_in(&mut self, ci: usize, pid: u128)
        ensures
            paper_jumped(*old(self), *final(self), ci as int, pid),
    {
        let ghost o = *self;
        self.selected_collection = ci;
        let ghost m = *self;
        self.sync_current_selection();
        let ghost s1 = *self;
        self.select_paper_id(pid);
        self.restore_selection_by_uuid();
        let ghost s3 = *self;
        self.active_panel = ActivePanel::Papers;
        proof {
            assert(m == at_collection(o, ci as int));
            assert(collection_synced(at_collection(o, ci as int), s1));
            assert(restored(with_paper_selected(s1, pid), s3));
            reveal(paper_jumped);
        }
    }

    #[verifier::rlimit(40)]
    fn jump_to_collection(&mut self, ci: usize)
        ensures
            collection_jumped(*old(self), *final(self), ci as int),
    {
        let ghost o = *self;
        self.selected_collection = ci;
        let ghost m = *self;
        self.sync_current_selection();
        let ghost s1 = *self;
        self.active_panel = ActivePanel::Papers;
        proof {
            assert(m == at_collection(o, ci as int));
            assert(collection_synced(at_collection(o, ci as int), s1));
            reveal(collection_jumped);
        }
    }

    /// Jumps to the entry under the quick-open cursor.
    fn quick_jump(&mut self, p: &GenericPicker)
        ensures
            quick_jumped(*old(self), *p, *final(self)),
    {
        match p.selected_item() {
            None => {},
            Some(it) => {
                if opt_is(&it.category, "Papers") {
                    self.jump_to_paper(it.id);
                } else if opt_is(&it.category, "Collections") {
                    match index_of_quick_id_exec(&self.collections, it.id) {
                        Some(ci) => self.jump_to_collection(ci),
                        None => {
                            proof {
                                reveal(collection_jumped);
                            }
                        },
                    }
                }
            },
        }
        proof {
            reveal(quick_jumped);
        }
    }
}


// ----------------------------------------------------------- membership

/// The lists of a map, by their papers.
pub open spec fn lists_of(m: Map<Option<u128>, Vec<Paper>>) -> Map<Option<u128>, Seq<Paper>> {
    m.map_values(|v: Vec<Paper>| v@)
}

/// Whether one of the targets is among `papers`.
pub open spec fn any_found(papers: Seq<Paper>, targets: Seq<u128>) -> bool {
    exists|k: int| 0 <= k < targets.len() && has_paper(papers, #[trigger] targets[k])
}

/// `list` with each target that `papers` holds appended (the first paper
/// with its id), unless the list holds it already.
pub open spec fn appended(list: Seq<Paper>, papers: Seq<Paper>, targets: Seq<u128>) -> Seq<Paper>
    decreases targets.len(),
{
    if targets.len() == 0 {
        list
    } else {
        let acc = appended(list, papers, targets.drop_last());
        let pid = targets.last();
        if has_paper(papers, pid) && !has_paper(acc, pid) {
            acc.push(papers[paper_pos(papers, pid)])
        } else {
            acc
        }
    }
}

/// The list under `k`, or none.
pub open spec fn list_or_empty(m: Map<Option<u128>, Seq<Paper>>, k: Option<u128>) -> Seq<Paper> {
    if m.contains_key(k) {
        m[k]
    } else {
        Seq::empty()
    }
}

/// Whether `k` names a collection of `ids`.
pub open spec fn names_one_of(k: Option<u128>, ids: Set<u128>) -> bool {
    k is Some && ids.contains(k.unwrap())
}

/// The lists after the targets join the collections of `added`: a list is
/// made where one of the targets can be added.
pub open spec fn joined_lists(m: Map<Option<u128>, Seq<Paper>>, added: Set<u128>, papers: Seq<Paper>, targets: Seq<u128>) -> Map<
    Option<u128>,
    Seq<Paper>,
> {
    Map::new(
        |k: Option<u128>| m.contains_key(k) || (names_one_of(k, added) && any_found(papers, targets)),
        |k: Option<u128>|
            if names_one_of(k, added) {
                appended(list_or_empty(m, k), papers, targets)
            } else {
                m[k]
            },
    )
}

/// The lists after the targets leave the collections of `removed`.
pub open spec fn left_lists(m: Map<Option<u128>, Seq<Paper>>, removed: Set<u128>, targets: Seq<u128>) -> Map<
    Option<u128>,
    Seq<Paper>,
> {
    Map::new(
        |k: Option<u128>| m.contains_key(k),
        |k: Option<u128>|
            if names_one_of(k, removed) {
                without_papers(m[k], targets)
            } else {
                m[k]
            },
    )
}

/// `s` is `s1`, out of visual mode when `b` was in it.
pub open spec fn visual_closed_if(b: App, s1: App, s: App) -> bool {
    if b.visual_mode {
        &&& s == App { visual_mode: false, visual_anchor: None, visual_selected_uuids: s.visual_selected_uuids, ..s1 }
        &&& s.visual_selected_uuids@ == Set::<u128>::empty()
    } else {
        s == s1
    }
}

/// The state after the membership picker is confirmed for `targets`: they
/// join the checked collections that did not hold them all, leave the
/// unchecked ones that did, the view reloads and visual mode ends.
#[verifier::opaque]
pub open spec fn membership_applied(b: App, p: GenericPicker, targets: Seq<u128>, s: App) -> bool {
    let orig = member_collections(b, targets);
    let cur = p.checked@;
    exists|m: App, s1: App|
        #[trigger] collection_synced(m, s1) && m == (App { papers_by_collection: m.papers_by_collection, ..b })
            && lists_of(m.papers_by_collection@) == left_lists(
            joined_lists(lists_of(b.papers_by_collection@), cur.difference(orig), b.papers@, targets),
            orig.difference(cur),
            targets,
        ) && visual_closed_if(b, s1, s)
}

/// The members of `a` that `b` lacks.
fn set_minus(a: &IdSet, b: &IdSet) -> (r: IdSet)
    ensures
        r@ == a@.difference(b@),
{
    a.check_order();
    let v = a.to_vec();
    let mut r = IdSet::new();
    let mut i: usize = 0;
    while i < v.len()
        invariant
            i <= v@.len(),
            v@ == a.order(),
            a@ == a.order().to_set(),
            forall|x: u128| #[trigger] r@.contains(x) <==> v@.take(i as int).contains(x) && !b@.contains(x),
        decreases v@.len() - i,
    {
        if !b.contains(&v[i]) {
            r.insert(v[i]);
        }
        proof {
            assert forall|x: u128| #[trigger] r@.contains(x) <==> v@.take(i + 1).contains(x) && !b@.contains(x) by {
                if v@.take(i + 1).contains(x) && !v@.take(i as int).contains(x) {
                    let j = choose|j: int| 0 <= j < i + 1 && #[trigger] v@.take(i + 1)[j] == x;
                    if j < i {
                        assert(v@.take(i as int)[j] == x);
                    }
                }
                if v@.take(i as int).contains(x) {
                    let j = choose|j: int| 0 <= j < i && #[trigger] v@.take(i as int)[j] == x;
                    assert(v@.take(i + 1)[j] == x);
                }
                if x == v@[i as int] {
                    assert(v@.take(i + 1)[i as int] == x);
                }
            }
        }
        i = i + 1;
    }
    assert(v@.take(v@.len() as int) =~= v@);
    assert(r@ =~= a@.difference(b@));
    r
}

fn found_any(papers: &Vec<Paper>, targets: &Vec<u128>) -> (b: bool)
    ensures
        b == any_found(papers@, targets@),
{
    let mut k: usize = 0;
    while k < targets.len()
        invariant
            k <= targets@.len(),
            forall|q: int| 0 <= q < k ==> !has_paper(papers@, #[trigger] targets@[q]),
        decreases targets@.len() - k,
    {
        if find_paper(papers, targets[k]).is_some() {
            return true;
        }
        k = k + 1;
    }
    false
}

fn append_targets(list: &mut Vec<Paper>, papers: &Vec<Paper>, targets: &Vec<u128>)
    ensures
        final(list)@ == appended(old(list)@, papers@, targets@),
{
    let ghost l0 = list@;
    let mut k: usize = 0;
    while k < targets.len()
        invariant
            k <= targets@.len(),
            list@ == appended(l0, papers@, targets@.take(k as int)),
        decreases targets@.len() - k,
    {
        assert(targets@.take(k + 1).drop_last() =~= targets@.take(k as int));
        match find_paper(papers, targets[k]) {
            Some(i) => {
                if find_paper(list, targets[k]).is_none() {
                    list.push(papers[i].clone());
                }
            },
            None => {},
        }
        k = k + 1;
    }
    assert(targets@.take(targets@.len() as int) =~= targets@);
}

fn copy_papers(v: &Vec<Paper>) -> (r: Vec<Paper>)
    ensures
        r@ == v@,
{
    let mut r: Vec<Paper> = Vec::new();
    append_papers(&mut r, v);
    assert(Seq::<Paper>::empty() + v@ =~= v@);
    r
}

proof fn lemma_lists_insert(m: Map<Option<u128>, Vec<Paper>>, k: Option<u128>, v: Vec<Paper>)
    ensures
        lists_of(m.insert(k, v)) == lists_of(m).insert(k, v@),
{
    assert(lists_of(m.insert(k, v)) =~= lists_of(m).insert(k, v@));
}

/// Joins the targets to collection `cid`.
fn join_collection(m: &mut KeyMap<Option<u128>, Vec<Paper>>, cid: u128, papers: &Vec<Paper>, targets: &Vec<u128>)
    ensures
        lists_of(final(m)@) == if lists_of(old(m)@).contains_key(Some(cid)) || any_found(papers@, targets@) {
            lists_of(old(m)@).insert(Some(cid), appended(list_or_empty(lists_of(old(m)@), Some(cid)), papers@, targets@))
        } else {
            lists_of(old(m)@)
        },
{
    let ghost o = m@;
    let mut list = match m.get(&Some(cid)) {
        Some(l) => copy_papers(l),
        None => Vec::new(),
    };
    assert(list@ == list_or_empty(lists_of(o), Some(cid)));
    let present = m.contains_key(&Some(cid));
    if present || found_any(papers, targets) {
        append_targets(&mut list, papers, targets);
        m.insert(Some(cid), list);
        proof {
            lemma_lists_insert(o, Some(cid), list);
        }
    }
}

fn leave_collections(m: &KeyMap<Option<u128>, Vec<Paper>>, removed: &IdSet, targets: &Vec<u128>) -> (r: KeyMap<
    Option<u128>,
    Vec<Paper>,
>)
    ensures
        lists_of(r@) == left_lists(lists_of(m@), removed@, targets@),
{
    m.entry_facts();
    let mut r: KeyMap<Option<u128>, Vec<Paper>> = KeyMap::new();
    let mut i: usize = 0;
    while i < m.len()
        invariant
            i <= m.entries().len(),
            forall|j: int|
                0 <= j < m.entries().len() ==> m@.contains_key(#[trigger] m.entries()[j].0)
                    && m@[m.entries()[j].0] == m.entries()[j].1,
            forall|k: Option<u128>| #[trigger] m@.contains_key(k) <==> exists|j: int|
                0 <= j < m.entries().len() && m.entries()[j].0 == k,
            forall|k: Option<u128>| #[trigger] r@.contains_key(k) <==> exists|j: int|
                0 <= j < i && m.entries()[j].0 == k,
            forall|k: Option<u128>|
                #[trigger] r@.contains_key(k) ==> r@[k]@ == (if names_one_of(k, removed@) {
                    without_papers(m@[k]@, targets@)
                } else {
                    m@[k]@
                }),
        decreases m.entries().len() - i,
    {
        let k = *m.key_at(i);
        let v = m.value_at(i);
        let drop = match k {
            Some(c) => removed.contains(&c),
            None => false,
        };
        let nv = if drop {
            filter_list(v, targets)
        } else {
            copy_papers(v)
        };
        r.insert(k, nv);
        proof {
            assert forall|x: Option<u128>| #[trigger] r@.contains_key(x) <==> exists|j: int|
                0 <= j < i + 1 && m.entries()[j].0 == x by {
                if x == k {
                    assert(m.entries()[i as int].0 == x);
                }
            }
        }
        i = i + 1;
    }
    assert(lists_of(r@) =~= left_lists(lists_of(m@), removed@, targets@));
    r
}

/// Joins the targets to every collection of `cur` outside `orig`.
fn join_all(m: &mut KeyMap<Option<u128>, Vec<Paper>>, cur: &IdSet, orig: &IdSet, papers: &Vec<Paper>, targets: &Vec<u128>)
    ensures
        lists_of(final(m)@) == joined_lists(lists_of(old(m)@), cur@.difference(orig@), papers@, targets@),
{
    let ghost m0 = lists_of(m@);
    cur.check_order();
    let cur_ids = cur.to_vec();
    let ghost added = cur@.difference(orig@);
    let mut done = IdSet::new();
    let mut i: usize = 0;
    assert(joined_lists(m0, done@, papers@, targets@) =~= m0);
    while i < cur_ids.len()
        invariant
            i <= cur_ids@.len(),
            cur_ids@ == cur.order(),
            cur@ == cur.order().to_set(),
            added == cur@.difference(orig@),
            forall|x: u128| #[trigger] done@.contains(x) ==> added.contains(x),
            forall|x: u128| #[trigger] added.contains(x) && cur_ids@.take(i as int).contains(x) ==> done@.contains(x),
            lists_of(m@) == joined_lists(m0, done@, papers@, targets@),
        decreases cur_ids@.len() - i,
    {
        let c = cur_ids[i];
        let ghost before = lists_of(m@);
        let ghost d0 = done@;
        assert(cur.order()[i as int] == c);
        assert(cur.order().contains(c));
        assert(cur@.contains(c));
        if !orig.contains(&c) && !done.contains(&c) {
            join_collection(m, c, papers, targets);
            done.insert(c);
            proof {
                assert(joined_lists(m0, d0.insert(c), papers@, targets@) =~= (if before.contains_key(Some(c))
                    || any_found(papers@, targets@) {
                    before.insert(Some(c), appended(list_or_empty(before, Some(c)), papers@, targets@))
                } else {
                    before
                }));
            }
        }
        proof {
            assert(forall|x: u128| d0.contains(x) ==> done@.contains(x));
            assert forall|x: u128| #[trigger] added.contains(x) && cur_ids@.take(i + 1).contains(x) implies done@.contains(x) by {
                let j = choose|j: int| 0 <= j < i + 1 && #[trigger] cur_ids@.take(i + 1)[j] == x;
                if j < i {
                    assert(cur_ids@.take(i as int)[j] == x);
                    assert(cur_ids@.take(i as int).contains(x));
                } else {
                    assert(x == c);
                }
            }
        }
        i = i + 1;
    }
    proof {
        assert(cur_ids@.take(cur_ids@.len() as int) =~= cur_ids@);
        assert forall|x: u128| added.contains(x) implies done@.contains(x) by {
            assert(cur.order().to_set().contains(x));
            assert(cur_ids@.take(cur_ids@.len() as int).contains(x));
        }
        assert(done@ =~= added);
    }
}

impl App {
    fn apply_membership_picker(&mut self, p: &GenericPicker, targets: &Vec<u128>)
        ensures
            membership_applied(*old(self), *p, targets@, *final(self)),
    {
        let ghost b = *self;
        let orig = self.compute_collections_for_papers(targets);
        let cur = &p.checked;
        join_all(&mut self.papers_by_collection, cur, &orig, &self.papers, targets);
        let rem = set_minus(&orig, cur);
        let left = leave_collections(&self.papers_by_collection, &rem, targets);
        self.papers_by_collection = left;
        let ghost m = *self;
        let vm = self.visual_mode;
        self.sync_current_selection();
        let ghost s1 = *self;
        if vm {
            self.exit_visual_mode();
        }
        proof {
            assert(collection_synced(m, s1));
            reveal(membership_applied);
        }
    }
}


// ----------------------------------------------------------------- tags

/// The name of id `u` among the entries: the title of the last entry with
/// that id.
pub open spec fn name_of(items: Seq<PickerItem>, u: u128) -> Option<Seq<char>>
    decreases items.len(),
{
    if items.len() == 0 {
        None
    } else if items.last().id == u {
        Some(items.last().title@)
    } else {
        name_of(items.drop_last(), u)
    }
}

/// The names of the ids of `ids` among the entries.
pub open spec fn names_of(items: Seq<PickerItem>, ids: Set<u128>) -> Set<Seq<char>> {
    Set::new(|t: Seq<char>| exists|u: u128| ids.contains(u) && #[trigger] name_of(items, u) == Some(t))
}

/// Texts equal up to ASCII case (`str::eq_ignore_ascii_case`).
pub open spec fn text_eq_ci(a: Seq<char>, b: Seq<char>) -> bool {
    a.len() == b.len() && forall|i: int| 0 <= i < a.len() ==> eq_ignore_ascii_case(#[trigger] a[i], b[i])
}

/// The names of `add` in the entries' order, each once.
pub open spec fn added_names(items: Seq<PickerItem>, add: Set<Seq<char>>) -> Seq<Seq<char>>
    decreases items.len(),
{
    if items.len() == 0 {
        Seq::empty()
    } else {
        let r = added_names(items.drop_last(), add);
        let t = items.last().title@;
        if add.contains(t) && !r.contains(t) {
            r.push(t)
        } else {
            r
        }
    }
}

/// The query, trimmed, as a new tag: when it is not blank and names
/// neither an entry nor an added tag, ignoring ASCII case.
pub open spec fn typed_tag(p: GenericPicker, adds: Seq<Seq<char>>) -> Option<Seq<char>> {
    let q = trim(p.query@);
    if q.len() > 0 && !(exists|i: int| 0 <= i < p.items@.len() && text_eq_ci(#[trigger] p.items@[i].title@, q))
        && !(exists|j: int| 0 <= j < adds.len() && text_eq_ci(#[trigger] adds[j], q)) {
        Some(q)
    } else {
        None
    }
}

/// The tags to add: the newly checked names, then the typed tag.
pub open spec fn tag_additions(p: GenericPicker, add: Set<Seq<char>>) -> Seq<Seq<char>> {
    let a = added_names(p.items@, add);
    match typed_tag(p, a) {
        Some(q) => a.push(q),
        None => a,
    }
}

/// `tags` with each addition appended that it lacks.
pub open spec fn with_missing(tags: Seq<Seq<char>>, adds: Seq<Seq<char>>) -> Seq<Seq<char>>
    decreases adds.len(),
{
    if adds.len() == 0 {
        tags
    } else {
        let r = with_missing(tags, adds.drop_last());
        if r.contains(adds.last()) {
            r
        } else {
            r.push(adds.last())
        }
    }
}

/// `tags` without the removed names.
pub open spec fn kept_tags_of(tags: Seq<Seq<char>>, removed: Set<Seq<char>>) -> Seq<Seq<char>>
    decreases tags.len(),
{
    if tags.len() == 0 {
        Seq::empty()
    } else {
        let r = kept_tags_of(tags.drop_last(), removed);
        if removed.contains(tags.last()) {
            r
        } else {
            r.push(tags.last())
        }
    }
}

/// The tag lists of a map, as texts.
pub open spec fn tag_lists(m: Map<u128, Vec<String>>) -> Map<u128, Seq<Seq<char>>> {
    m.map_values(|v: Vec<String>| texts(v@))
}

/// The tag lists after every paper of `done` is retagged.
pub open spec fn retagged_lists(
    m: Map<u128, Seq<Seq<char>>>,
    done: Set<u128>,
    adds: Seq<Seq<char>>,
    removed: Set<Seq<char>>,
) -> Map<u128, Seq<Seq<char>>> {
    Map::new(
        |k: u128| m.contains_key(k) || done.contains(k),
        |k: u128|
            if done.contains(k) {
                kept_tags_of(with_missing(if m.contains_key(k) { m[k] } else { Seq::empty() }, adds), removed)
            } else {
                m[k]
            },
    )
}

/// The state after the tag picker is confirmed for `targets`: each target
/// gets the newly checked tags (and the typed one) it lacks and loses the
/// unchecked ones that all targets had, and visual mode ends.
#[verifier::opaque]
pub open spec fn tags_applied(b: App, p: GenericPicker, targets: Seq<u128>, s: App) -> bool {
    let orig = names_of(p.items@, common_tags(b, targets));
    let cur = names_of(p.items@, p.checked@);
    let adds = tag_additions(p, cur.difference(orig));
    let removed = orig.difference(cur);
    exists|s1: App|
        #[trigger] visual_closed_if(b, s1, s) && s1 == (App { tags_by_paper: s1.tags_by_paper, ..b })
            && tag_lists(s1.tags_by_paper@) == retagged_lists(
            tag_lists(b.tags_by_paper@),
            targets.to_set(),
            adds,
            removed,
        )
}

fn text_eq_ci_exec(a: &Vec<char>, b: &Vec<char>) -> (r: bool)
    ensures
        r == text_eq_ci(a@, b@),
{
    if a.len() != b.len() {
        return false;
    }
    let mut i: usize = 0;
    while i < a.len()
        invariant
            a@.len() == b@.len(),
            i <= a@.len(),
            forall|k: int| 0 <= k < i ==> eq_ignore_ascii_case(#[trigger] a@[k], b@[k]),
        decreases a@.len() - i,
    {
        if !eq_ignore_ascii_case_exec(a[i], b[i]) {
            return false;
        }
        i = i + 1;
    }
    true
}

fn name_of_exec(items: &Vec<PickerItem>, u: u128) -> (r: Option<String>)
    ensures
        opt_view(r) == name_of(items@, u),
{
    let mut i: usize = items.len();
    assert(items@.take(items@.len() as int) =~= items@);
    while i > 0
        invariant
            i <= items@.len(),
            name_of(items@, u) == name_of(items@.take(i as int), u),
        decreases i,
    {
        assert(items@.take(i as int).drop_last() =~= items@.take(i - 1));
        if items[i - 1].id == u {
            return Some(items[i - 1].title.clone());
        }
        i = i - 1;
    }
    assert(items@.take(0) =~= Seq::<PickerItem>::empty());
    None
}

fn names_of_exec(items: &Vec<PickerItem>, ids: &IdSet) -> (r: Vec<String>)
    ensures
        texts(r@).to_set() == names_of(items@, ids@),
{
    ids.check_order();
    let v = ids.to_vec();
    let mut r: Vec<String> = Vec::new();
    let mut i: usize = 0;
    while i < v.len()
        invariant
            i <= v@.len(),
            v@ == ids.order(),
            ids@ == ids.order().to_set(),
            forall|t: Seq<char>| #[trigger] texts(r@).contains(t) <==> exists|k: int|
                0 <= k < i && name_of(items@, #[trigger] v@[k]) == Some(t),
        decreases v@.len() - i,
    {
        let ghost before = r@;
        match name_of_exec(items, v[i]) {
            Some(n) => {
                r.push(n);
                proof {
                    assert(texts(r@) =~= texts(before).push(n@));
                }
            },
            None => {},
        }
        proof {
            assert forall|t: Seq<char>| #[trigger] texts(r@).contains(t) <==> exists|k: int|
                0 <= k < i + 1 && name_of(items@, #[trigger] v@[k]) == Some(t) by {
                if texts(r@).contains(t) && !texts(before).contains(t) {
                    assert(name_of(items@, v@[i as int]) == Some(t));
                }
                if exists|k: int| 0 <= k < i + 1 && name_of(items@, #[trigger] v@[k]) == Some(t) {
                    let k = choose|k: int| 0 <= k < i + 1 && name_of(items@, #[trigger] v@[k]) == Some(t);
                    if k == i {
                        assert(texts(r@).last() == t);
                    } else {
                        assert(texts(before).contains(t));
                        let j = choose|j: int| 0 <= j < texts(before).len() && texts(before)[j] == t;
                        assert(texts(r@)[j] == t);
                    }
                }
            }
        }
        i = i + 1;
    }
    proof {
        assert forall|t: Seq<char>| texts(r@).to_set().contains(t) <==> names_of(items@, ids@).contains(t) by {
            if names_of(items@, ids@).contains(t) {
                let u = choose|u: u128| ids@.contains(u) && #[trigger] name_of(items@, u) == Some(t);
                assert(ids.order().to_set().contains(u));
                let k = choose|k: int| 0 <= k < v@.len() && v@[k] == u;
                assert(name_of(items@, v@[k]) == Some(t));
            }
            if texts(r@).contains(t) {
                let k = choose|k: int| 0 <= k < v@.len() && name_of(items@, #[trigger] v@[k]) == Some(t);
                assert(ids.order().contains(v@[k]));
            }
        }
        assert(texts(r@).to_set() =~= names_of(items@, ids@));
    }
    r
}

fn added_names_exec(items: &Vec<PickerItem>, cur: &Vec<String>, orig: &Vec<String>) -> (r: Vec<String>)
    ensures
        texts(r@) == added_names(items@, texts(cur@).to_set().difference(texts(orig@).to_set())),
{
    let ghost add = texts(cur@).to_set().difference(texts(orig@).to_set());
    let mut r: Vec<String> = Vec::new();
    let mut i: usize = 0;
    while i < items.len()
        invariant
            i <= items@.len(),
            add == texts(cur@).to_set().difference(texts(orig@).to_set()),
            texts(r@) == added_names(items@.take(i as int), add),
        decreases items@.len() - i,
    {
        assert(items@.take(i + 1).drop_last() =~= items@.take(i as int));
        let t = &items[i].title;
        let ghost before = r@;
        if has_text(cur, t) && !has_text(orig, t) && !has_text(&r, t) {
            r.push(t.clone());
            assert(texts(r@) =~= texts(before).push(t@));
        }
        i = i + 1;
    }
    assert(items@.take(items@.len() as int) =~= items@);
    r
}

fn any_title_ci(items: &Vec<PickerItem>, q: &Vec<char>) -> (b: bool)
    ensures
        b == exists|i: int| 0 <= i < items@.len() && text_eq_ci(#[trigger] items@[i].title@, q@),
{
    let mut i: usize = 0;
    while i < items.len()
        invariant
            i <= items@.len(),
            forall|k: int| 0 <= k < i ==> !text_eq_ci(#[trigger] items@[k].title@, q@),
        decreases items@.len() - i,
    {
        let t = str_chars(items[i].title.as_str());
        if text_eq_ci_exec(&t, q) {
            return true;
        }
        i = i + 1;
    }
    false
}

fn any_text_ci(v: &Vec<String>, q: &Vec<char>) -> (b: bool)
    ensures
        b == exists|j: int| 0 <= j < texts(v@).len() && text_eq_ci(#[trigger] texts(v@)[j], q@),
{
    let mut i: usize = 0;
    while i < v.len()
        invariant
            i <= v@.len(),
            forall|k: int| 0 <= k < i ==> !text_eq_ci(#[trigger] texts(v@)[k], q@),
        decreases v@.len() - i,
    {
        let t = str_chars(v[i].as_str());
        assert(texts(v@)[i as int] == v@[i as int]@);
        if text_eq_ci_exec(&t, q) {
            return true;
        }
        i = i + 1;
    }
    false
}

fn retag(tags: &Vec<String>, adds: &Vec<String>, removed: &Vec<String>) -> (r: Vec<String>)
    ensures
        texts(r@) == kept_tags_of(with_missing(texts(tags@), texts(adds@)), texts(removed@).to_set()),
{
    let mut w = clone_strings(tags);
    let mut i: usize = 0;
    while i < adds.len()
        invariant
            i <= adds@.len(),
            texts(w@) == with_missing(texts(tags@), texts(adds@).take(i as int)),
        decreases adds@.len() - i,
    {
        assert(texts(adds@).take(i + 1).drop_last() =~= texts(adds@).take(i as int));
        assert(texts(adds@).take(i + 1).last() == adds@[i as int]@);
        let ghost before = w@;
        if !has_text(&w, &adds[i]) {
            w.push(adds[i].clone());
            assert(texts(w@) =~= texts(before).push(adds@[i as int]@));
        }
        i = i + 1;
    }
    assert(texts(adds@).take(adds@.len() as int) =~= texts(adds@));
    let ghost full = texts(w@);
    let mut r: Vec<String> = Vec::new();
    let mut k: usize = 0;
    while k < w.len()
        invariant
            k <= w@.len(),
            full == texts(w@),
            texts(r@) == kept_tags_of(full.take(k as int), texts(removed@).to_set()),
        decreases w@.len() - k,
    {
        assert(full.take(k + 1).drop_last() =~= full.take(k as int));
        assert(full.take(k + 1).last() == w@[k as int]@);
        let ghost before = r@;
        if !has_text(removed, &w[k]) {
            r.push(w[k].clone());
            assert(texts(r@) =~= texts(before).push(w@[k as int]@));
        }
        k = k + 1;
    }
    assert(full.take(full.len() as int) =~= full);
    r
}

proof fn lemma_push_contains(s: Seq<Seq<char>>, a: Seq<char>, t: Seq<char>)
    ensures
        s.push(a).contains(t) <==> (s.contains(t) || t == a),
{
    if s.contains(t) {
        let j = choose|j: int| 0 <= j < s.len() && s[j] == t;
        assert(s.push(a)[j] == t);
    }
    if t == a {
        assert(s.push(a)[s.len() as int] == t);
    }
    if s.push(a).contains(t) {
        let j = choose|j: int| 0 <= j < s.push(a).len() && s.push(a)[j] == t;
        if j < s.len() {
            assert(s[j] == t);
        }
    }
}

proof fn lemma_tag_lists_insert(m: Map<u128, Vec<String>>, k: u128, v: Vec<String>)
    ensures
        tag_lists(m.insert(k, v)) == tag_lists(m).insert(k, texts(v@)),
{
    assert(tag_lists(m.insert(k, v)) =~= tag_lists(m).insert(k, texts(v@)));
}

impl App {
    fn tag_changes(&self, p: &GenericPicker, targets: &Vec<u128>) -> (r: (Vec<String>, Vec<String>))
        ensures
            texts(r.0@) == tag_additions(
                *p,
                names_of(p.items@, p.checked@).difference(names_of(p.items@, common_tags(*self, targets@))),
            ),
            texts(r.1@).to_set() == names_of(p.items@, common_tags(*self, targets@)).difference(
                names_of(p.items@, p.checked@),
            ),
    {
        let orig_ids = self.compute_tags_for_papers(targets);
        let orig = names_of_exec(&p.items, &orig_ids);
        let cur = names_of_exec(&p.items, &p.checked);
        let mut adds = added_names_exec(&p.items, &cur, &orig);
        let ghost a0 = texts(adds@);
        let q = trim_str(p.query.as_str());
        let qc = str_chars(q.as_str());
        if qc.len() > 0 && !any_title_ci(&p.items, &qc) && !any_text_ci(&adds, &qc) {
            adds.push(q);
            assert(texts(adds@) =~= a0.push(qc@));
        }
        let mut removed: Vec<String> = Vec::new();
        let mut i: usize = 0;
        while i < orig.len()
            invariant
                i <= orig@.len(),
                forall|t: Seq<char>| #[trigger] texts(removed@).contains(t) <==> texts(orig@).take(i as int).contains(t)
                    && !texts(cur@).contains(t),
            decreases orig@.len() - i,
        {
            let ghost before = removed@;
            let ghost to = texts(orig@);
            assert(to.take(i + 1) =~= to.take(i as int).push(orig@[i as int]@));
            if !has_text(&cur, &orig[i]) {
                removed.push(orig[i].clone());
                assert(texts(removed@) =~= texts(before).push(orig@[i as int]@));
            }
            proof {
                assert forall|t: Seq<char>| #[trigger] texts(removed@).contains(t) <==> to.take(i + 1).contains(t)
                    && !texts(cur@).contains(t) by {
                    lemma_push_contains(to.take(i as int), orig@[i as int]@, t);
                    lemma_push_contains(texts(before), orig@[i as int]@, t);
                }
            }
            i = i + 1;
        }
        proof {
            assert(texts(orig@).take(texts(orig@).len() as int) =~= texts(orig@));
            assert(texts(removed@).to_set() =~= texts(orig@).to_set().difference(texts(cur@).to_set()));
        }
        (adds, removed)
    }

    fn retag_targets(&mut self, targets: &Vec<u128>, adds: &Vec<String>, removed: &Vec<String>)
        ensures
            *final(self) == (App { tags_by_paper: final(self).tags_by_paper, ..*old(self) }),
            tag_lists(final(self).tags_by_paper@) == retagged_lists(
                tag_lists(old(self).tags_by_paper@),
                targets@.to_set(),
                texts(adds@),
                texts(removed@).to_set(),
            ),
    {
        let ghost o = *self;
        let ghost m0 = tag_lists(o.tags_by_paper@);
        let mut done = IdSet::new();
        let mut i: usize = 0;
        assert(retagged_lists(m0, done@, texts(adds@), texts(removed@).to_set()) =~= m0);
        while i < targets.len()
            invariant
                i <= targets@.len(),
                m0 == tag_lists(o.tags_by_paper@),
                *self == (App { tags_by_paper: self.tags_by_paper, ..o }),
                forall|x: u128| #[trigger] done@.contains(x) <==> targets@.take(i as int).contains(x),
                tag_lists(self.tags_by_paper@) == retagged_lists(m0, done@, texts(adds@), texts(removed@).to_set()),
            decreases targets@.len() - i,
        {
            let pid = targets[i];
            let ghost d0 = done@;
            let ghost before = tag_lists(self.tags_by_paper@);
            if !done.contains(&pid) {
                let cur = self.tags_of(pid);
                proof {
                    let tb = self.tags_by_paper@;
                    assert(tag_lists(tb).contains_key(pid) == tb.contains_key(pid));
                    if tb.contains_key(pid) {
                        assert(tag_lists(tb)[pid] == texts(tb[pid]@));
                    }
                    assert(texts(cur@) =~= (if m0.contains_key(pid) { m0[pid] } else { Seq::<Seq<char>>::empty() }));
                }
                let nt = retag(&cur, adds, removed);
                let ghost tb = self.tags_by_paper@;
                self.tags_by_paper.insert(pid, nt);
                done.insert(pid);
                proof {
                    lemma_tag_lists_insert(tb, pid, nt);
                    assert(tag_lists(self.tags_by_paper@) =~= retagged_lists(
                        m0,
                        d0.insert(pid),
                        texts(adds@),
                        texts(removed@).to_set(),
                    ));
                }
            }
            proof {
                assert forall|x: u128| #[trigger] done@.contains(x) <==> targets@.take(i + 1).contains(x) by {
                    if targets@.take(i + 1).contains(x) && !targets@.take(i as int).contains(x) {
                        let j = choose|j: int| 0 <= j < i + 1 && #[trigger] targets@.take(i + 1)[j] == x;
                        if j < i {
                            assert(targets@.take(i as int)[j] == x);
                        }
                    }
                    if targets@.take(i as int).contains(x) {
                        let j = choose|j: int| 0 <= j < i && #[trigger] targets@.take(i as int)[j] == x;
                        assert(targets@.take(i + 1)[j] == x);
                    }
                    if x == pid {
                        assert(targets@.take(i + 1)[i as int] == x);
                    }
                }
            }
            i = i + 1;
        }
        proof {
            assert(targets@.take(targets@.len() as int) =~= targets@);
            assert(done@ =~= targets@.to_set());
        }
    }

    fn apply_tag_picker(&mut self, p: &GenericPicker, targets: &Vec<u128>)
        ensures
            tags_applied(*old(self), *p, targets@, *final(self)),
    {
        let (adds, removed) = self.tag_changes(p, targets);
        let vm = self.visual_mode;
        self.retag_targets(targets, &adds, &removed);
        let ghost s1 = *self;
        if vm {
            self.exit_visual_mode();
        }
        proof {
            assert(visual_closed_if(*old(self), s1, *self));
            reveal(tags_applied);
        }
    }
}


// ------------------------------------------------------- confirm, cancel

/// What confirming picker `p` under context `ctx` does.
pub open spec fn context_applied(b: App, p: GenericPicker, ctx: PickerContext, s: App) -> bool {
    match ctx {
        PickerContext::QuickOpen => quick_jumped(b, p, s),
        PickerContext::CollectionMembership { target_papers } => membership_applied(b, p, target_papers@, s),
        PickerContext::TagManagement { target_papers } => tags_applied(b, p, target_papers@, s),
    }
}

/// `a` with no picker open.
pub open spec fn without_picker(a: App) -> App {
    App { active_picker: None, picker_context: None, ..a }
}

/// The state after the active picker is confirmed: its context acts on the
/// picker's cursor and checks, then the picker closes.
#[verifier::opaque]
pub open spec fn picker_confirmed(o: App, n: App) -> bool {
    match o.active_picker {
        None => n == App { picker_context: None, ..o },
        Some(p) => match o.picker_context {
            None => n == App { active_picker: None, ..o },
            Some(ctx) => exists|s: App|
                #[trigger] context_applied(without_picker(o), p, ctx, s) && n == (App {
                    needs_clear: true,
                    ..without_picker(s)
                }),
        },
    }
}

impl App {
    fn apply_context(&mut self, p: &GenericPicker, ctx: PickerContext)
        ensures
            context_applied(*old(self), *p, ctx, *final(self)),
    {
        match ctx {
            PickerContext::QuickOpen => self.quick_jump(p),
            PickerContext::CollectionMembership { target_papers } => self.apply_membership_picker(p, &target_papers),
            PickerContext::TagManagement { target_papers } => self.apply_tag_picker(p, &target_papers),
        }
    }

    /// Confirms the active picker: quick open jumps to the entry under the
    /// cursor, the membership and tag pickers apply the checked entries to
    /// their target papers; the picker closes.
    pub fn confirm_active_picker(&mut self)
        ensures
            picker_confirmed(*old(self), *final(self)),
    {
        if self.active_picker.is_none() {
            self.forget_picker_context();
        } else if self.picker_context.is_none() {
            self.drop_lone_picker();
        } else {
            self.confirm_with_context();
        }
    }

    fn forget_picker_context(&mut self)
        requires
            old(self).active_picker is None,
        ensures
            picker_confirmed(*old(self), *final(self)),
    {
        self.picker_context = None;
        proof {
            reveal(picker_confirmed);
        }
    }

    fn drop_lone_picker(&mut self)
        requires
            old(self).active_picker is Some,
            old(self).picker_context is None,
        ensures
            picker_confirmed(*old(self), *final(self)),
    {
        self.active_picker = None;
        proof {
            reveal(picker_confirmed);
        }
    }

    #[verifier::rlimit(40)]
    fn confirm_with_context(&mut self)
        requires
            old(self).active_picker is Some,
            old(self).picker_context is Some,
        ensures
            picker_confirmed(*old(self), *final(self)),
    {
        let ghost o = *self;
        let p = self.active_picker.take().unwrap();
        let ctx = self.picker_context.take().unwrap();
        let ghost b = *self;
        let ghost c = ctx;
        self.apply_context(&p, ctx);
        let ghost s = *self;
        self.active_picker = None;
        self.picker_context = None;
        self.needs_clear = true;
        proof {
            assert(b == without_picker(o));
            assert(context_applied(without_picker(o), p, c, s));
            reveal(picker_confirmed);
        }
    }

    /// Closes the active picker without acting on it.
    pub fn cancel_active_picker(&mut self)
        ensures
            *final(self) == (App { active_picker: None, picker_context: None, needs_clear: true, ..*old(self) }),
    {
        self.active_picker = None;
        self.picker_context = None;
        self.needs_clear = true;
    }
}

} // verus!
