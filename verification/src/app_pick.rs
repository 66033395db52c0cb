//! Opening the fuzzy pickers: quick open, collection membership and tags.
use vstd::prelude::*;
use crate::app::{find_paper, has_paper, papers_in, App, PickerContext};
use crate::app_data::tags_in;
use crate::app_delete::{prompt_title, told};
use crate::app_edit::opt_view;
use crate::app_nav::visual_targets;
use crate::clock::{hyphenated, name_uuid, oid_name_uuid, uuid_text};
use crate::collections::{IdSet, KeyMap};
use crate::decimal::{dec_nat, usize_to_string};
use crate::app_ops::texts;
use crate::paper::{clone_strings, Paper};
use crate::picker::{GenericPicker, PickerItem};
use crate::selection::{key_uuid, CollectionItem, CollectionKey};
use crate::text::{concat2, concat3, owned, str_chars};

verus! {

/// The id of a tag: the version-5 id of its name.
pub fn tag_to_uuid(tag: &str) -> (id: u128)
    ensures
        id == oid_name_uuid(tag@),
{
    name_uuid(tag)
}

/// The text a collection key prints as with `{:?}`.
pub open spec fn key_debug(k: CollectionKey) -> Seq<char> {
    match k {
        CollectionKey::All => "All"@,
        CollectionKey::Real(x) => "Real("@ + hyphenated(x) + ")"@,
        CollectionKey::RecentlyAdded => "RecentlyAdded"@,
        CollectionKey::Unfiled => "Unfiled"@,
        CollectionKey::Untagged => "Untagged"@,
    }
}

/// The id a collection goes by in quick open: its own id, else the
/// version-5 id of `col:` followed by its key's debug text.
pub open spec fn quick_collection_id(c: CollectionItem) -> u128 {
    match c.id {
        Some(x) => x,
        None => oid_name_uuid("col:"@ + key_debug(c.key)),
    }
}

fn key_debug_exec(k: CollectionKey) -> (s: String)
    ensures
        s@ == key_debug(k),
{
    match k {
        CollectionKey::All => owned("All"),
        CollectionKey::Real(x) => concat3("Real(", uuid_text(x).as_str(), ")"),
        CollectionKey::RecentlyAdded => owned("RecentlyAdded"),
        CollectionKey::Unfiled => owned("Unfiled"),
        CollectionKey::Untagged => owned("Untagged"),
    }
}

/// The id a collection goes by in quick open.
pub fn quick_collection_id_exec(c: &CollectionItem) -> (id: u128)
    ensures
        id == quick_collection_id(*c),
{
    match c.id {
        Some(x) => x,
        None => {
            let t = concat2("col:", key_debug_exec(c.key).as_str());
            name_uuid(t.as_str())
        },
    }
}

/// The papers of `s`, each id kept at its first occurrence.
pub open spec fn first_of_each(s: Seq<Paper>) -> Seq<Paper>
    decreases s.len(),
{
    if s.len() == 0 {
        Seq::empty()
    } else {
        let r = first_of_each(s.drop_last());
        if has_paper(s.drop_last(), s.last().id) {
            r
        } else {
            r.push(s.last())
        }
    }
}

/// The lists of a map's entries, one after another.
pub open spec fn all_lists(es: Seq<(Option<u128>, Vec<Paper>)>) -> Seq<Paper>
    decreases es.len(),
{
    if es.len() == 0 {
        Seq::empty()
    } else {
        all_lists(es.drop_last()) + es.last().1@
    }
}

/// The papers quick open offers: the list of all papers, then every stored
/// list in turn, then the papers shown; each paper once.
pub open spec fn quick_papers(a: App) -> Seq<Paper> {
    first_of_each(papers_in(a.papers_by_collection@, None) + all_lists(a.papers_by_collection.entries()) + a.papers@)
}

/// A picker entry for a paper.
pub open spec fn paper_item_ok(it: PickerItem, p: Paper) -> bool {
    &&& it.id == p.id
    &&& it.title@ == prompt_title(p)
    &&& opt_view(it.subtitle) == opt_view(p.authors)
    &&& opt_view(it.category) == Some("Papers"@)
}

/// The cached breadcrumb of a collection, else its name.
pub open spec fn crumb_or_name(a: App, c: CollectionItem) -> Seq<char> {
    if a.collection_breadcrumbs@.contains_key(c.key) {
        a.collection_breadcrumbs@[c.key]@
    } else {
        c.name@
    }
}

/// A picker entry for a collection under the id `id`.
pub open spec fn collection_item_ok(a: App, it: PickerItem, c: CollectionItem, id: u128) -> bool {
    &&& it.id == id
    &&& it.title@ == crumb_or_name(a, c)
    &&& opt_view(it.subtitle) == Some(dec_nat(c.paper_count as nat) + " papers"@)
    &&& opt_view(it.category) == Some("Collections"@)
}

/// The entries of quick open: its papers, then every collection.
pub open spec fn quick_items(a: App, items: Seq<PickerItem>) -> bool {
    let ps = quick_papers(a);
    let cs = a.collections@;
    &&& items.len() == ps.len() + cs.len()
    &&& forall|i: int| 0 <= i < ps.len() ==> paper_item_ok(#[trigger] items[i], ps[i])
    &&& forall|j: int|
        0 <= j < cs.len() ==> collection_item_ok(a, #[trigger] items.skip(ps.len() as int)[j], cs[j], quick_collection_id(cs[j]))
}

/// A picker as just opened: all entries visible, cursor on the first, no
/// query.
pub open spec fn fresh_picker(p: GenericPicker, title: Seq<char>, multi: bool) -> bool {
    &&& p.title@ == title
    &&& p.visible_indices@ == Seq::new(p.items@.len(), |i: int| i as usize)
    &&& p.selected == 0
    &&& p.query@ == Seq::<char>::empty()
    &&& p.multi_select == multi
}

/// The state after quick open is opened.
#[verifier::opaque]
pub open spec fn quick_open_opened(o: App, n: App) -> bool {
    &&& n == App {
        active_picker: n.active_picker,
        picker_context: Some(PickerContext::QuickOpen),
        needs_clear: true,
        ..o
    }
    &&& n.active_picker matches Some(p) && fresh_picker(p, "Quick Open (Ctrl-p)"@, false) && p.checked@ == Set::<u128>::empty()
        && quick_items(o, p.items@)
}

/// The real collections of a list.
pub open spec fn real_collections(cs: Seq<CollectionItem>) -> Seq<CollectionItem>
    decreases cs.len(),
{
    if cs.len() == 0 {
        Seq::empty()
    } else if cs.last().key is Real {
        real_collections(cs.drop_last()).push(cs.last())
    } else {
        real_collections(cs.drop_last())
    }
}

/// The entries of the membership picker: every real collection.
pub open spec fn membership_items(a: App, items: Seq<PickerItem>) -> bool {
    let rc = real_collections(a.collections@);
    &&& items.len() == rc.len()
    &&& forall|i: int| 0 <= i < rc.len() ==> collection_item_ok(a, #[trigger] items[i], rc[i], key_uuid(rc[i].key).unwrap())
}

/// Whether the stored list of collection `cid` holds every target paper.
pub open spec fn holds_all(a: App, cid: u128, targets: Seq<u128>) -> bool {
    &&& a.papers_by_collection@.contains_key(Some(cid))
    &&& forall|k: int| 0 <= k < targets.len() ==> has_paper(a.papers_by_collection@[Some(cid)]@, #[trigger] targets[k])
}

/// The listed real collections that hold every target paper (none for no
/// targets).
pub open spec fn member_collections(a: App, targets: Seq<u128>) -> Set<u128> {
    Set::new(
        |cid: u128|
            targets.len() > 0 && (exists|j: int|
                0 <= j < a.collections@.len() && #[trigger] a.collections@[j].key == CollectionKey::Real(cid))
                && holds_all(a, cid, targets),
    )
}

/// The state after the membership picker is opened for the visual
/// selection (or the paper under the cursor).
#[verifier::opaque]
pub open spec fn membership_opened(o: App, n: App) -> bool {
    let t = visual_targets(o);
    if t.len() == 0 {
        told(o, n, "No paper selected"@)
    } else {
        &&& n == App {
            active_picker: n.active_picker,
            picker_context: n.picker_context,
            needs_clear: true,
            ..o
        }
        &&& n.active_picker matches Some(p) && fresh_picker(p, "Add/Remove Collections"@, true) && p.checked@
            == member_collections(o, t) && membership_items(o, p.items@)
        &&& n.picker_context matches Some(PickerContext::CollectionMembership { target_papers }) && target_papers@ == t
    }
}

pub(crate) fn append_papers(dst: &mut Vec<Paper>, src: &Vec<Paper>)
    ensures
        final(dst)@ == old(dst)@ + src@,
{
    let ghost d0 = dst@;
    let mut i: usize = 0;
    while i < src.len()
        invariant
            i <= src@.len(),
            dst@ == d0 + src@.take(i as int),
        decreases src@.len() - i,
    {
        dst.push(src[i].clone());
        assert(d0 + src@.take(i + 1) =~= (d0 + src@.take(i as int)).push(src@[i as int]));
        i = i + 1;
    }
    assert(src@.take(src@.len() as int) =~= src@);
}

fn dedup_papers(s: &Vec<Paper>) -> (r: Vec<Paper>)
    ensures
        r@ == first_of_each(s@),
{
    let mut seen = IdSet::new();
    let mut r: Vec<Paper> = Vec::new();
    let mut i: usize = 0;
    while i < s.len()
        invariant
            i <= s@.len(),
            r@ == first_of_each(s@.take(i as int)),
            forall|id: u128| #[trigger] seen@.contains(id) <==> has_paper(s@.take(i as int), id),
        decreases s@.len() - i,
    {
        let ghost pre = s@.take(i as int);
        let ghost post = s@.take(i + 1);
        assert(post.drop_last() =~= pre);
        let id = s[i].id;
        if !seen.contains(&id) {
            r.push(s[i].clone());
            seen.insert(id);
        }
        proof {
            assert forall|x: u128| #[trigger] seen@.contains(x) <==> has_paper(post, x) by {
                if has_paper(pre, x) {
                    let j = choose|j: int| 0 <= j < pre.len() && pre[j].id == x;
                    assert(post[j].id == x);
                }
                if x == id {
                    assert(post[i as int].id == x);
                }
                if has_paper(post, x) && x != id {
                    let j = choose|j: int| 0 <= j < post.len() && post[j].id == x;
                    assert(pre[j].id == x);
                }
            }
        }
        i = i + 1;
    }
    assert(s@.take(s@.len() as int) =~= s@);
    r
}

fn paper_item(p: &Paper) -> (it: PickerItem)
    ensures
        paper_item_ok(it, *p),
{
    let t = match &p.title {
        Some(t) => t.as_str(),
        None => p.file_path.as_str(),
    };
    let it = PickerItem::new(p.id, t).with_category("Papers");
    match &p.authors {
        Some(a) => it.with_subtitle(a.as_str()),
        None => it,
    }
}

impl App {
    fn gather_quick_papers(&self) -> (r: Vec<Paper>)
        ensures
            r@ == quick_papers(*self),
    {
        let mut all = self.load_papers(None);
        let ghost head = all@;
        let mut i: usize = 0;
        while i < self.papers_by_collection.len()
            invariant
                i <= self.papers_by_collection.entries().len(),
                all@ == head + all_lists(self.papers_by_collection.entries().take(i as int)),
            decreases self.papers_by_collection.entries().len() - i,
        {
            let ghost es = self.papers_by_collection.entries();
            assert(es.take(i + 1).drop_last() =~= es.take(i as int));
            append_papers(&mut all, self.papers_by_collection.value_at(i));
            assert(head + all_lists(es.take(i + 1)) =~= head + all_lists(es.take(i as int)) + es[i as int].1@);
            i = i + 1;
        }
        assert(self.papers_by_collection.entries().take(self.papers_by_collection.entries().len() as int)
            =~= self.papers_by_collection.entries());
        append_papers(&mut all, &self.papers);
        dedup_papers(&all)
    }

    fn collection_item(&self, c: &CollectionItem, id: u128) -> (it: PickerItem)
        ensures
            collection_item_ok(*self, it, *c, id),
    {
        let title = match self.collection_breadcrumbs.get(&c.key) {
            Some(b) => b.as_str(),
            None => c.name.as_str(),
        };
        let sub = concat2(usize_to_string(c.paper_count).as_str(), " papers");
        PickerItem::new(id, title).with_subtitle(sub.as_str()).with_category("Collections")
    }

    /// Opens quick open over every paper and every collection.
    pub fn open_quick_open(&mut self)
        ensures
            quick_open_opened(*old(self), *final(self)),
    {
        let ps = self.gather_quick_papers();
        let mut items: Vec<PickerItem> = Vec::new();
        let mut i: usize = 0;
        while i < ps.len()
            invariant
                i <= ps@.len(),
                items@.len() == i,
                forall|k: int| 0 <= k < i ==> paper_item_ok(#[trigger] items@[k], ps@[k]),
            decreases ps@.len() - i,
        {
            items.push(paper_item(&ps[i]));
            i = i + 1;
        }
        let mut j: usize = 0;
        while j < self.collections.len()
            invariant
                j <= self.collections@.len(),
                items@.len() == ps@.len() + j,
                forall|k: int| 0 <= k < ps@.len() ==> paper_item_ok(#[trigger] items@[k], ps@[k]),
                forall|k: int|
                    0 <= k < j ==> collection_item_ok(
                        *self,
                        #[trigger] items@.skip(ps@.len() as int)[k],
                        self.collections@[k],
                        quick_collection_id(self.collections@[k]),
                    ),
            decreases self.collections@.len() - j,
        {
            let id = quick_collection_id_exec(&self.collections[j]);
            let it = self.collection_item(&self.collections[j], id);
            let ghost before = items@;
            items.push(it);
            assert(items@.skip(ps@.len() as int) =~= before.skip(ps@.len() as int).push(it));
            j = j + 1;
        }
        let p = GenericPicker::new("Quick Open (Ctrl-p)", items, false);
        self.active_picker = Some(p);
        self.picker_context = Some(PickerContext::QuickOpen);
        self.needs_clear = true;
        proof {
            reveal(quick_open_opened);
        }
    }
}


// ----------------------------------------------------- membership picker

impl App {
    fn holds_all_exec(&self, cid: u128, targets: &Vec<u128>) -> (b: bool)
        ensures
            b == holds_all(*self, cid, targets@),
    {
        match self.papers_by_collection.get(&Some(cid)) {
            None => false,
            Some(list) => {
                let mut k: usize = 0;
                while k < targets.len()
                    invariant
                        k <= targets@.len(),
                        self.papers_by_collection@.contains_key(Some(cid)),
                        *list == self.papers_by_collection@[Some(cid)],
                        forall|q: int| 0 <= q < k ==> has_paper(list@, #[trigger] targets@[q]),
                    decreases targets@.len() - k,
                {
                    if find_paper(list, targets[k]).is_none() {
                        return false;
                    }
                    k = k + 1;
                }
                true
            },
        }
    }

    /// The real collections that hold every one of the target papers (none
    /// without targets).
    pub fn compute_collections_for_papers(&self, targets: &Vec<u128>) -> (r: IdSet)
        ensures
            r@ == member_collections(*self, targets@),
    {
        let mut r = IdSet::new();
        if targets.len() == 0 {
            assert(r@ =~= member_collections(*self, targets@));
            return r;
        }
        let mut j: usize = 0;
        while j < self.collections.len()
            invariant
                j <= self.collections@.len(),
                targets@.len() > 0,
                forall|cid: u128|
                    #[trigger] r@.contains(cid) <==> (exists|q: int|
                        0 <= q < j && #[trigger] self.collections@[q].key == CollectionKey::Real(cid))
                        && holds_all(*self, cid, targets@),
            decreases self.collections@.len() - j,
        {
            match self.collections[j].key {
                CollectionKey::Real(cid) => {
                    if self.holds_all_exec(cid, targets) {
                        r.insert(cid);
                    }
                },
                _ => {},
            }
            proof {
                assert forall|x: u128|
                    #[trigger] r@.contains(x) <==> (exists|q: int|
                        0 <= q < j + 1 && #[trigger] self.collections@[q].key == CollectionKey::Real(x))
                        && holds_all(*self, x, targets@) by {
                    if self.collections@[j as int].key == CollectionKey::Real(x) {
                        assert(self.collections@[j as int].key == CollectionKey::Real(x));
                    }
                }
            }
            j = j + 1;
        }
        assert(r@ =~= member_collections(*self, targets@));
        r
    }

    fn membership_entries(&self) -> (items: Vec<PickerItem>)
        ensures
            membership_items(*self, items@),
    {
        let mut items: Vec<PickerItem> = Vec::new();
        let mut j: usize = 0;
        while j < self.collections.len()
            invariant
                j <= self.collections@.len(),
                items@.len() == real_collections(self.collections@.take(j as int)).len(),
                forall|i: int|
                    0 <= i < items@.len() ==> collection_item_ok(
                        *self,
                        #[trigger] items@[i],
                        real_collections(self.collections@.take(j as int))[i],
                        key_uuid(real_collections(self.collections@.take(j as int))[i].key).unwrap(),
                    ),
            decreases self.collections@.len() - j,
        {
            let ghost pre = self.collections@.take(j as int);
            assert(self.collections@.take(j + 1).drop_last() =~= pre);
            match self.collections[j].key {
                CollectionKey::Real(cid) => {
                    let it = self.collection_item(&self.collections[j], cid);
                    items.push(it);
                },
                _ => {},
            }
            j = j + 1;
        }
        assert(self.collections@.take(self.collections@.len() as int) =~= self.collections@);
        items
    }

    /// Opens the membership picker for the visual selection (or the paper
    /// under the cursor), checking the collections that hold all of them.
    pub fn open_collection_membership(&mut self)
        ensures
            membership_opened(*old(self), *final(self)),
    {
        let targets = self.visual_selected_papers();
        if targets.len() == 0 {
            self.set_status("No paper selected");
            proof {
                reveal(membership_opened);
            }
        } else {
            self.show_membership_picker(targets);
        }
    }

    fn show_membership_picker(&mut self, targets: Vec<u128>)
        requires
            targets@ == visual_targets(*old(self)),
            targets@.len() > 0,
        ensures
            membership_opened(*old(self), *final(self)),
    {
        let items = self.membership_entries();
        let checked = self.compute_collections_for_papers(&targets);
        let p = GenericPicker::new("Add/Remove Collections", items, true).with_checked(checked);
        self.active_picker = Some(p);
        self.picker_context = Some(PickerContext::CollectionMembership { target_papers: targets });
        self.needs_clear = true;
        proof {
            reveal(membership_opened);
        }
    }
}

// ------------------------------------------------------------ tag picker

/// Lexicographic order of texts by code point (the order of `String`).
pub open spec fn text_lt(a: Seq<char>, b: Seq<char>) -> bool
    decreases a.len(),
{
    if a.len() == 0 {
        b.len() > 0
    } else if b.len() == 0 {
        false
    } else if a[0] != b[0] {
        (a[0] as int) < (b[0] as int)
    } else {
        text_lt(a.drop_first(), b.drop_first())
    }
}

proof fn lemma_text_lt_trans(a: Seq<char>, b: Seq<char>, c: Seq<char>)
    requires
        text_lt(a, b),
        text_lt(b, c),
    ensures
        text_lt(a, c),
    decreases a.len(),
{
    if a.len() > 0 && b.len() > 0 && c.len() > 0 && a[0] == b[0] && b[0] == c[0] {
        lemma_text_lt_trans(a.drop_first(), b.drop_first(), c.drop_first());
    }
}

proof fn lemma_text_lt_total(a: Seq<char>, b: Seq<char>)
    ensures
        text_lt(a, b) || text_lt(b, a) || a == b,
    decreases a.len(),
{
    if a.len() == 0 && b.len() == 0 {
        assert(a =~= b);
    }
    if a.len() > 0 && b.len() > 0 && a[0] == b[0] {
        lemma_text_lt_total(a.drop_first(), b.drop_first());
        if a.drop_first() == b.drop_first() {
            assert(a =~= seq![a[0]] + a.drop_first());
            assert(b =~= seq![b[0]] + b.drop_first());
        }
    }
}

proof fn lemma_text_lt_irrefl(a: Seq<char>)
    ensures
        !text_lt(a, a),
    decreases a.len(),
{
    if a.len() > 0 {
        lemma_text_lt_irrefl(a.drop_first());
    }
}

fn text_less(a: &Vec<char>, b: &Vec<char>) -> (r: bool)
    ensures
        r == text_lt(a@, b@),
{
    let mut i: usize = 0;
    assert(a@.skip(0) =~= a@);
    assert(b@.skip(0) =~= b@);
    assert(a@.take(0) =~= b@.take(0));
    while i < a.len() && i < b.len()
        invariant
            i <= a@.len(),
            i <= b@.len(),
            a@.take(i as int) == b@.take(i as int),
            text_lt(a@, b@) == text_lt(a@.skip(i as int), b@.skip(i as int)),
        decreases a@.len() - i,
    {
        let ghost sa = a@.skip(i as int);
        let ghost sb = b@.skip(i as int);
        assert(sa[0] == a@[i as int]);
        assert(sb[0] == b@[i as int]);
        if a[i] != b[i] {
            return a[i] < b[i];
        }
        assert(sa.drop_first() =~= a@.skip(i + 1));
        assert(sb.drop_first() =~= b@.skip(i + 1));
        assert(a@.take(i + 1) =~= a@.take(i as int).push(a@[i as int]));
        assert(b@.take(i + 1) =~= b@.take(i as int).push(b@[i as int]));
        i = i + 1;
    }
    i == a.len() && i < b.len()
}

pub(crate) fn same_text(a: &Vec<char>, b: &Vec<char>) -> (r: bool)
    ensures
        r == (a@ == b@),
{
    if a.len() != b.len() {
        return false;
    }
    let mut i: usize = 0;
    while i < a.len()
        invariant
            a@.len() == b@.len(),
            i <= a@.len(),
            forall|k: int| 0 <= k < i ==> a@[k] == b@[k],
        decreases a@.len() - i,
    {
        if a[i] != b[i] {
            return false;
        }
        i = i + 1;
    }
    assert(a@ =~= b@);
    true
}

/// The texts of `v` are strictly increasing.
pub open spec fn increasing(v: Seq<Seq<char>>) -> bool {
    forall|i: int, j: int| 0 <= i < j < v.len() ==> text_lt(#[trigger] v[i], #[trigger] v[j])
}

/// Every tag text stored for some paper.
pub open spec fn all_tag_texts(m: Map<u128, Vec<String>>) -> Set<Seq<char>> {
    Set::new(
        |t: Seq<char>|
            exists|pid: u128, k: int|
                #![trigger m[pid]@[k]]
                m.contains_key(pid) && 0 <= k < m[pid]@.len() && m[pid]@[k]@ == t,
    )
}

/// The entries of the tag picker: every stored tag once, in increasing
/// order, each under the id of its name.
pub open spec fn tag_items(m: Map<u128, Vec<String>>, items: Seq<PickerItem>) -> bool {
    &&& increasing(items.map_values(|it: PickerItem| it.title@))
    &&& forall|t: Seq<char>|
        all_tag_texts(m).contains(t) <==> exists|i: int| 0 <= i < items.len() && #[trigger] items[i].title@ == t
    &&& forall|i: int|
        0 <= i < items.len() ==> (#[trigger] items[i]).id == oid_name_uuid(items[i].title@)
            && items[i].subtitle is None && opt_view(items[i].category) == Some("Tags"@)
}

/// The tags of a paper, as texts.
pub open spec fn tag_texts(a: App, pid: u128) -> Seq<Seq<char>> {
    tags_in(a.tags_by_paper@, pid).map_values(|s: String| s@)
}

/// The ids of the tags that the first target has and every other target
/// has too (none for no targets).
pub open spec fn common_tags(a: App, targets: Seq<u128>) -> Set<u128> {
    Set::new(
        |u: u128|
            targets.len() > 0 && exists|k: int|
                0 <= k < tag_texts(a, targets[0]).len() && u == oid_name_uuid(#[trigger] tag_texts(a, targets[0])[k])
                    && forall|j: int|
                    1 <= j < targets.len() ==> tag_texts(a, #[trigger] targets[j]).contains(tag_texts(a, targets[0])[k]),
    )
}

/// The state after the tag picker is opened for the visual selection (or
/// the paper under the cursor).
#[verifier::opaque]
pub open spec fn tag_picker_opened(o: App, n: App) -> bool {
    let t = visual_targets(o);
    if t.len() == 0 {
        told(o, n, "No paper selected"@)
    } else {
        &&& n == App {
            active_picker: n.active_picker,
            picker_context: n.picker_context,
            needs_clear: true,
            ..o
        }
        &&& n.active_picker matches Some(p) && fresh_picker(p, "Manage Tags"@, true) && p.checked@ == common_tags(o, t)
            && tag_items(o.tags_by_paper@, p.items@)
        &&& n.picker_context matches Some(PickerContext::TagManagement { target_papers }) && target_papers@ == t
    }
}


/// The texts of `v` as a set.
pub open spec fn text_set(v: Seq<String>) -> Set<Seq<char>> {
    texts(v).to_set()
}

/// The tag texts held by the first `i` entries, and the first `k` tags of
/// entry `i`.
pub open spec fn tags_seen(es: Seq<(u128, Vec<String>)>, i: int, k: int) -> Set<Seq<char>> {
    Set::new(
        |t: Seq<char>|
            exists|e: int, q: int|
                #![trigger es[e].1@[q]]
                0 <= e <= i && e < es.len() && 0 <= q < es[e].1@.len() && (e < i || q < k) && es[e].1@[q]@ == t,
    )
}

fn insert_sorted(names: &mut Vec<String>, t: &String)
    requires
        increasing(texts(old(names)@)),
    ensures
        increasing(texts(final(names)@)),
        text_set(final(names)@) == text_set(old(names)@).insert(t@),
{
    let ghost o = texts(names@);
    let tc = str_chars(t.as_str());
    let mut p: usize = 0;
    while p < names.len()
        invariant
            p <= names@.len(),
            texts(names@) == o,
            increasing(o),
            tc@ == t@,
            forall|q: int| 0 <= q < p ==> text_lt(#[trigger] o[q], t@),
        ensures
            p <= names@.len(),
            texts(names@) == o,
            forall|q: int| 0 <= q < p ==> text_lt(#[trigger] o[q], t@),
            p < names@.len() ==> !text_lt(o[p as int], t@),
        decreases names@.len() - p,
    {
        let nc = str_chars(names[p].as_str());
        assert(o[p as int] == names@[p as int]@);
        if !text_less(&nc, &tc) {
            break;
        }
        p = p + 1;
    }
    let dup = if p < names.len() {
        let nc = str_chars(names[p].as_str());
        same_text(&nc, &tc)
    } else {
        false
    };
    if dup {
        proof {
            assert(o[p as int] == t@);
            assert(o.to_set() =~= o.to_set().insert(t@));
        }
    } else {
        names.insert(p, t.clone());
        proof {
            let n = texts(names@);
            assert(n =~= o.insert(p as int, t@));
            if p < o.len() {
                lemma_text_lt_total(o[p as int], t@);
                assert(o[p as int] != t@);
                assert(text_lt(t@, o[p as int]));
            }
            assert forall|i: int, j: int| 0 <= i < j < n.len() implies text_lt(#[trigger] n[i], #[trigger] n[j]) by {
                if i < p && j < p {
                    assert(n[i] == o[i] && n[j] == o[j]);
                } else if i < p && j == p {
                } else if i < p && j > p {
                    assert(n[j] == o[j - 1]);
                    assert(text_lt(o[i], o[j - 1]));
                } else if i == p {
                    assert(n[j] == o[j - 1]);
                    if j - 1 > p {
                        assert(text_lt(o[p as int], o[j - 1]));
                        lemma_text_lt_trans(t@, o[p as int], o[j - 1]);
                    }
                } else {
                    assert(n[i] == o[i - 1] && n[j] == o[j - 1]);
                }
            }
            assert(n.to_set() =~= o.to_set().insert(t@)) by {
                assert forall|x: Seq<char>| n.to_set().contains(x) <==> o.to_set().insert(t@).contains(x) by {
                    if n.contains(x) {
                        let j = choose|j: int| 0 <= j < n.len() && n[j] == x;
                        if j < p {
                            assert(o[j] == x);
                        } else if j > p {
                            assert(o[j - 1] == x);
                        }
                    }
                    if o.contains(x) {
                        let j = choose|j: int| 0 <= j < o.len() && o[j] == x;
                        if j < p {
                            assert(n[j] == x);
                        } else {
                            assert(n[j + 1] == x);
                        }
                    }
                    if x == t@ {
                        assert(n[p as int] == x);
                    }
                }
            }
        }
    }
}

pub(crate) fn has_text(v: &Vec<String>, t: &String) -> (b: bool)
    ensures
        b == texts(v@).contains(t@),
{
    let tc = str_chars(t.as_str());
    let mut i: usize = 0;
    while i < v.len()
        invariant
            i <= v@.len(),
            tc@ == t@,
            forall|k: int| 0 <= k < i ==> v@[k]@ != t@,
        decreases v@.len() - i,
    {
        let vc = str_chars(v[i].as_str());
        if same_text(&vc, &tc) {
            assert(texts(v@)[i as int] == t@);
            return true;
        }
        i = i + 1;
    }
    proof {
        if texts(v@).contains(t@) {
            let k = choose|k: int| 0 <= k < texts(v@).len() && texts(v@)[k] == t@;
            assert(v@[k]@ == t@);
        }
    }
    false
}

impl App {
    pub(crate) fn tags_of(&self, pid: u128) -> (r: Vec<String>)
        ensures
            r@ == tags_in(self.tags_by_paper@, pid),
    {
        match self.tags_by_paper.get(&pid) {
            Some(tags) => clone_strings(tags),
            None => Vec::new(),
        }
    }

    fn sorted_tag_names(&self) -> (names: Vec<String>)
        ensures
            increasing(texts(names@)),
            text_set(names@) == all_tag_texts(self.tags_by_paper@),
    {
        let ghost es = self.tags_by_paper.entries();
        let mut names: Vec<String> = Vec::new();
        assert(texts(names@).to_set() =~= tags_seen(es, 0, 0));
        let mut i: usize = 0;
        while i < self.tags_by_paper.len()
            invariant
                es == self.tags_by_paper.entries(),
                i <= es.len(),
                increasing(texts(names@)),
                text_set(names@) == tags_seen(es, i as int, 0),
            decreases es.len() - i,
        {
            let tags = self.tags_by_paper.value_at(i);
            let mut k: usize = 0;
            while k < tags.len()
                invariant
                    es == self.tags_by_paper.entries(),
                    i < es.len(),
                    *tags == es[i as int].1,
                    k <= tags@.len(),
                    increasing(texts(names@)),
                    text_set(names@) == tags_seen(es, i as int, k as int),
                decreases tags@.len() - k,
            {
                insert_sorted(&mut names, &tags[k]);
                proof {
                    assert(tags_seen(es, i as int, k + 1) =~= tags_seen(es, i as int, k as int).insert(tags@[k as int]@)) by {
                        assert(es[i as int].1@[k as int]@ == tags@[k as int]@);
                    }
                }
                k = k + 1;
            }
            proof {
                assert(tags_seen(es, i + 1, 0) =~= tags_seen(es, i as int, tags@.len() as int)) by {
                    assert forall|t: Seq<char>| tags_seen(es, i + 1, 0).contains(t) implies tags_seen(
                        es,
                        i as int,
                        tags@.len() as int,
                    ).contains(t) by {
                        let (e, q) = choose|e: int, q: int|
                            #![trigger es[e].1@[q]]
                            0 <= e <= i + 1 && e < es.len() && 0 <= q < es[e].1@.len() && (e < i + 1 || q < 0)
                                && es[e].1@[q]@ == t;
                        assert(es[e].1@[q]@ == t);
                    }
                }
            }
            i = i + 1;
        }
        self.tags_by_paper.entry_facts();
        proof {
            let m = self.tags_by_paper@;
            assert(tags_seen(es, es.len() as int, 0) =~= all_tag_texts(m)) by {
                assert forall|t: Seq<char>| tags_seen(es, es.len() as int, 0).contains(t) <==> all_tag_texts(m).contains(t) by {
                    if tags_seen(es, es.len() as int, 0).contains(t) {
                        let (e, q) = choose|e: int, q: int|
                            #![trigger es[e].1@[q]]
                            0 <= e <= es.len() && e < es.len() && 0 <= q < es[e].1@.len() && (e < es.len() || q < 0)
                                && es[e].1@[q]@ == t;
                        assert(m.contains_key(es[e].0));
                        assert(m[es[e].0]@[q]@ == t);
                    }
                    if all_tag_texts(m).contains(t) {
                        let (pid, q) = choose|pid: u128, q: int|
                            #![trigger m[pid]@[q]]
                            m.contains_key(pid) && 0 <= q < m[pid]@.len() && m[pid]@[q]@ == t;
                        let e = choose|j: int| 0 <= j < es.len() && es[j].0 == pid;
                        assert(m[es[e].0] == es[e].1);
                        assert(es[e].1@[q]@ == t);
                    }
                }
            }
        }
        names
    }

    fn tag_entries(&self) -> (items: Vec<PickerItem>)
        ensures
            tag_items(self.tags_by_paper@, items@),
    {
        let names = self.sorted_tag_names();
        let mut items: Vec<PickerItem> = Vec::new();
        let mut i: usize = 0;
        while i < names.len()
            invariant
                i <= names@.len(),
                items@.len() == i,
                forall|k: int|
                    0 <= k < i ==> (#[trigger] items@[k]).title@ == names@[k]@ && items@[k].id == oid_name_uuid(
                        names@[k]@,
                    ) && items@[k].subtitle is None && opt_view(items@[k].category) == Some("Tags"@),
            decreases names@.len() - i,
        {
            let it = PickerItem::new(tag_to_uuid(names[i].as_str()), names[i].as_str()).with_category("Tags");
            items.push(it);
            i = i + 1;
        }
        proof {
            let ts = items@.map_values(|it: PickerItem| it.title@);
            assert(ts =~= texts(names@));
            assert forall|t: Seq<char>|
                all_tag_texts(self.tags_by_paper@).contains(t) <==> exists|i: int|
                    0 <= i < items@.len() && #[trigger] items@[i].title@ == t by {
                if all_tag_texts(self.tags_by_paper@).contains(t) {
                    assert(texts(names@).to_set().contains(t));
                    let j = choose|j: int| 0 <= j < texts(names@).len() && texts(names@)[j] == t;
                    assert(items@[j].title@ == t);
                }
                if exists|i: int| 0 <= i < items@.len() && #[trigger] items@[i].title@ == t {
                    let j = choose|j: int| 0 <= j < items@.len() && #[trigger] items@[j].title@ == t;
                    assert(texts(names@)[j] == t);
                    assert(texts(names@).to_set().contains(t));
                }
            }
        }
        items
    }

    /// The ids of the tags that every one of the target papers carries (none
    /// without targets).
    pub fn compute_tags_for_papers(&self, targets: &Vec<u128>) -> (r: IdSet)
        ensures
            r@ == common_tags(*self, targets@),
    {
        let mut r = IdSet::new();
        if targets.len() == 0 {
            assert(r@ =~= common_tags(*self, targets@));
            return r;
        }
        let first = self.tags_of(targets[0]);
        let ghost ft = tag_texts(*self, targets@[0]);
        assert(texts(first@) =~= ft);
        let mut k: usize = 0;
        while k < first.len()
            invariant
                targets@.len() > 0,
                k <= first@.len(),
                texts(first@) == ft,
                ft == tag_texts(*self, targets@[0]),
                forall|u: u128|
                    #[trigger] r@.contains(u) <==> exists|q: int|
                        0 <= q < k && u == oid_name_uuid(#[trigger] ft[q]) && forall|j: int|
                            1 <= j < targets@.len() ==> tag_texts(*self, #[trigger] targets@[j]).contains(ft[q]),
            decreases first@.len() - k,
        {
            let mut in_all = true;
            let mut j: usize = 1;
            while j < targets.len()
                invariant
                    1 <= j <= targets@.len(),
                    k < first@.len(),
                    texts(first@) == ft,
                    in_all == forall|jj: int| 1 <= jj < j ==> tag_texts(*self, #[trigger] targets@[jj]).contains(ft[k as int]),
                decreases targets@.len() - j,
            {
                let other = self.tags_of(targets[j]);
                assert(texts(other@) =~= tag_texts(*self, targets@[j as int]));
                if !has_text(&other, &first[k]) {
                    in_all = false;
                }
                assert(ft[k as int] == first@[k as int]@);
                j = j + 1;
            }
            let u = tag_to_uuid(first[k].as_str());
            if in_all {
                r.insert(u);
            }
            proof {
                assert(ft[k as int] == first@[k as int]@);
                assert forall|x: u128|
                    #[trigger] r@.contains(x) <==> exists|q: int|
                        0 <= q < k + 1 && x == oid_name_uuid(#[trigger] ft[q]) && forall|jj: int|
                            1 <= jj < targets@.len() ==> tag_texts(*self, #[trigger] targets@[jj]).contains(ft[q]) by {
                    if x == u && in_all {
                        assert(0 <= k < k + 1 && x == oid_name_uuid(ft[k as int]));
                    }
                }
            }
            k = k + 1;
        }
        assert(r@ =~= common_tags(*self, targets@));
        r
    }

    /// Opens the tag picker for the visual selection (or the paper under the
    /// cursor), checking the tags that all of them carry.
    pub fn open_tag_picker(&mut self)
        ensures
            tag_picker_opened(*old(self), *final(self)),
    {
        let targets = self.visual_selected_papers();
        if targets.len() == 0 {
            self.set_status("No paper selected");
            proof {
                reveal(tag_picker_opened);
            }
        } else {
            self.show_tag_picker(targets);
        }
    }

    fn show_tag_picker(&mut self, targets: Vec<u128>)
        requires
            targets@ == visual_targets(*old(self)),
            targets@.len() > 0,
        ensures
            tag_picker_opened(*old(self), *final(self)),
    {
        let items = self.tag_entries();
        let checked = self.compute_tags_for_papers(&targets);
        let p = GenericPicker::new("Manage Tags", items, true).with_checked(checked);
        self.active_picker = Some(p);
        self.picker_context = Some(PickerContext::TagManagement { target_papers: targets });
        self.needs_clear = true;
        proof {
            reveal(tag_picker_opened);
        }
    }
}

} // verus!
