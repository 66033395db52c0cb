//! The metadata editor: opening it on the selected paper, editing its six
//! fields and saving them.
use vstd::prelude::*;
use crate::app::{has_paper, paper_pos, App, find_paper};
use crate::app_view::search_applied;
use crate::decimal::{dec_int, i64_to_string, parse_i64, parse_i64_spec};
use crate::clock::{current_timestamp, is_timestamp};
use crate::collections::KeyMap;
use crate::paper::{clone_opt, Paper};
use crate::search::year_text;
use crate::text::{concat2, owned, str_chars, string_pop, string_push, trim, trim_str};

verus! {

/// The text of an optional string.
pub open spec fn opt_view(o: Option<String>) -> Option<Seq<char>> {
    match o {
        Some(s) => Some(s@),
        None => None,
    }
}

/// The initial text of a metadata field.
pub open spec fn text_or_empty(o: Option<String>) -> Seq<char> {
    match o {
        Some(s) => s@,
        None => Seq::empty(),
    }
}

/// A field as saved: trimmed, and absent when blank.
pub open spec fn field_text(s: Seq<char>) -> Option<Seq<char>> {
    let t = trim(s);
    if t.len() == 0 {
        None
    } else {
        Some(t)
    }
}

/// The year field as saved: absent when blank, a year from 1000 to 3000,
/// or invalid (`None`).
pub open spec fn year_field(s: Seq<char>) -> Option<Option<int>> {
    let t = trim(s);
    if t.len() == 0 {
        Some(None)
    } else {
        match parse_i64_spec(t) {
            Some(y) => if 1000 <= y <= 3000 {
                Some(Some(y))
            } else {
                None
            },
            None => None,
        }
    }
}

/// The text of edit buffer `i`; a buffer that is missing reads as empty.
pub open spec fn buffer_text(bufs: Seq<String>, i: int) -> Seq<char> {
    if 0 <= i < bufs.len() {
        bufs[i]@
    } else {
        Seq::empty()
    }
}

/// `q` is paper `p` with the metadata of the six edit buffers.
pub open spec fn metadata_applied(p: Paper, q: Paper, bufs: Seq<String>) -> bool {
    &&& q.id == p.id
    &&& q.file_path == p.file_path
    &&& q.content_hash == p.content_hash
    &&& opt_view(q.title) == Some(trim(buffer_text(bufs, 0)))
    &&& opt_view(q.authors) == field_text(buffer_text(bufs, 1))
    &&& (match year_field(buffer_text(bufs, 2)) {
        Some(y) => match (q.year, y) {
            (Some(a), Some(b)) => a == b,
            (None, None) => true,
            _ => false,
        },
        None => false,
    })
    &&& opt_view(q.journal) == field_text(buffer_text(bufs, 3))
    &&& opt_view(q.doi) == field_text(buffer_text(bufs, 4))
    &&& opt_view(q.abstract_text) == field_text(buffer_text(bufs, 5))
    &&& q.text_path == p.text_path
    &&& q.annotated_pdf_path == p.annotated_pdf_path
    &&& q.toc_embedded_at == p.toc_embedded_at
    &&& q.created_at == p.created_at
    &&& is_timestamp(q.updated_at@)
}

/// The state after the metadata editor is opened: without a selected paper
/// only a message is shown; otherwise the six buffers hold the paper's
/// title, authors, year, journal, DOI and abstract (empty where unknown),
/// the first field is focused and the editor is open.
#[verifier::opaque]
pub open spec fn metadata_opened(o: App, n: App) -> bool {
    if o.selected_paper >= o.papers@.len() {
        &&& n == App { status_message: n.status_message, ..o }
        &&& opt_view(n.status_message) == Some("No paper selected to edit"@)
    } else {
        let p = o.papers@[o.selected_paper as int];
        &&& n == App { edit_buffers: n.edit_buffers, editing_field_index: 0, is_editing_metadata: true, ..o }
        &&& n.edit_buffers@.len() == 6
        &&& n.edit_buffers@[0]@ == text_or_empty(p.title)
        &&& n.edit_buffers@[1]@ == text_or_empty(p.authors)
        &&& n.edit_buffers@[2]@ == year_text(p.year)
        &&& n.edit_buffers@[3]@ == text_or_empty(p.journal)
        &&& n.edit_buffers@[4]@ == text_or_empty(p.doi)
        &&& n.edit_buffers@[5]@ == text_or_empty(p.abstract_text)
    }
}

/// `s` with the first paper whose id is `q.id` replaced by `q`.
pub open spec fn replace_first(s: Seq<Paper>, q: Paper) -> Seq<Paper> {
    if has_paper(s, q.id) {
        s.update(paper_pos(s, q.id), q)
    } else {
        s
    }
}

/// `s` with every paper whose id is `q.id` replaced by `q`.
pub open spec fn replace_all(s: Seq<Paper>, q: Paper) -> Seq<Paper> {
    s.map_values(|x: Paper| if x.id == q.id { q } else { x })
}

/// Every stored list with the papers of id `q.id` replaced by `q`.
pub open spec fn lists_updated(o: Map<Option<u128>, Vec<Paper>>, n: Map<Option<u128>, Vec<Paper>>, q: Paper) -> bool {
    &&& forall|k: Option<u128>| #[trigger] n.contains_key(k) <==> o.contains_key(k)
    &&& forall|k: Option<u128>| #[trigger] n.contains_key(k) ==> n[k]@ == replace_all(o[k]@, q)
}

/// The state after a metadata save.
///
/// Nothing happens when the editor is closed. Without a selected paper the
/// editor closes with a message. A blank title, and after it an invalid
/// year, keeps the editor open with a message (a missing buffer reads as
/// empty). Otherwise the selected paper gets the new
/// metadata wherever it is listed, the search filter is applied again, the
/// editor closes and the message names the new title.
#[verifier::opaque]
pub open spec fn metadata_saved(o: App, n: App) -> bool {
    let bufs = o.edit_buffers@;
    if !o.is_editing_metadata {
        n == o
    } else if o.selected_paper >= o.papers@.len() {
        &&& n == App { status_message: n.status_message, is_editing_metadata: false, ..o }
        &&& opt_view(n.status_message) == Some("No paper selected to edit"@)
    } else if trim(buffer_text(bufs, 0)).len() == 0 {
        &&& n == App { status_message: n.status_message, ..o }
        &&& opt_view(n.status_message) == Some("Title cannot be empty"@)
    } else if year_field(buffer_text(bufs, 2)) is None {
        &&& n == App { status_message: n.status_message, ..o }
        &&& opt_view(n.status_message) == Some("Invalid year"@)
    } else {
        let p = o.papers@[o.selected_paper as int];
        exists|q: Paper, m1: App, m2: App|
            #![trigger metadata_applied(p, q, bufs), search_applied(m1, m2)]
            metadata_applied(p, q, bufs) && m1 == (App {
                papers: m1.papers,
                papers_by_collection: m1.papers_by_collection,
                ..o
            }) && m1.papers@ == replace_first(o.papers@, q) && lists_updated(
                o.papers_by_collection@,
                m1.papers_by_collection@,
                q,
            ) && search_applied(m1, m2) && n == (App {
                status_message: n.status_message,
                is_editing_metadata: false,
                ..m2
            }) && opt_view(n.status_message) == Some("Updated metadata for "@ + trim(buffer_text(bufs, 0)))
    }
}

fn field_exec(s: &String) -> (r: Option<String>)
    ensures
        opt_view(r) == field_text(s@),
{
    let t = trim_str(s.as_str());
    if str_chars(t.as_str()).len() == 0 {
        None
    } else {
        Some(t)
    }
}

fn year_exec(s: &String) -> (r: Option<Option<i64>>)
    ensures
        match (r, year_field(s@)) {
            (None, None) => true,
            (Some(None), Some(None)) => true,
            (Some(Some(a)), Some(Some(b))) => a == b,
            _ => false,
        },
{
    let t = trim_str(s.as_str());
    let tc = str_chars(t.as_str());
    if tc.len() == 0 {
        return Some(None);
    }
    match parse_i64(&tc) {
        Some(y) => if 1000 <= y && y <= 3000 {
            Some(Some(y))
        } else {
            None
        },
        None => None,
    }
}

fn opt_text_exec(o: &Option<String>) -> (r: String)
    ensures
        r@ == text_or_empty(*o),
{
    match o {
        Some(s) => s.clone(),
        None => String::new(),
    }
}

/// The editor with the next of the six fields focused (after the sixth,
/// the first); unchanged while the editor is closed.
pub open spec fn next_field_of(a: App) -> App {
    App {
        editing_field_index: if a.is_editing_metadata {
            ((a.editing_field_index + 1) % 6) as usize
        } else {
            a.editing_field_index
        },
        ..a
    }
}

/// The editor with the previous field focused (before the first, the
/// sixth); unchanged while the editor is closed.
pub open spec fn previous_field_of(a: App) -> App {
    App {
        editing_field_index: if a.is_editing_metadata {
            if a.editing_field_index == 0 {
                5
            } else {
                (a.editing_field_index - 1) as usize
            }
        } else {
            a.editing_field_index
        },
        ..a
    }
}

/// Moving the focus to the next field and back, or back and then on,
/// leaves the editor as it was, when one of the six fields is focused.
pub proof fn lemma_field_focus_round_trip(a: App)
    requires
        a.editing_field_index < 6,
    ensures
        previous_field_of(next_field_of(a)) == a,
        next_field_of(previous_field_of(a)) == a,
{
}

impl App {
    /// Opens the metadata editor on the selected paper with its current
    /// values; without a selected paper only a message is shown.
    pub fn start_edit_metadata(&mut self)
        ensures
            metadata_opened(*old(self), *final(self)),
    {
        if self.selected_paper >= self.papers.len() {
            self.no_paper_to_edit();
        } else {
            self.edit_selected_metadata();
        }
    }

    fn no_paper_to_edit(&mut self)
        requires
            old(self).selected_paper >= old(self).papers@.len(),
        ensures
            metadata_opened(*old(self), *final(self)),
    {
        self.set_status("No paper selected to edit");
        proof {
            reveal(metadata_opened);
        }
    }

    fn edit_selected_metadata(&mut self)
        requires
            old(self).selected_paper < old(self).papers@.len(),
        ensures
            metadata_opened(*old(self), *final(self)),
            ({
                let p = old(self).papers@[old(self).selected_paper as int];
                &&& *final(self) == (App {
                    edit_buffers: final(self).edit_buffers,
                    editing_field_index: 0,
                    is_editing_metadata: true,
                    ..*old(self)
                })
                &&& final(self).edit_buffers@.len() == 6
                &&& final(self).edit_buffers@[0]@ == text_or_empty(p.title)
                &&& final(self).edit_buffers@[1]@ == text_or_empty(p.authors)
                &&& final(self).edit_buffers@[2]@ == year_text(p.year)
                &&& final(self).edit_buffers@[3]@ == text_or_empty(p.journal)
                &&& final(self).edit_buffers@[4]@ == text_or_empty(p.doi)
                &&& final(self).edit_buffers@[5]@ == text_or_empty(p.abstract_text)
            }),
    {
        let bufs = self.metadata_buffers_of(self.selected_paper);
        self.open_metadata_editor(bufs);
        proof {
            reveal(metadata_opened);
        }
    }

    fn metadata_buffers_of(&self, i: usize) -> (r: Vec<String>)
        requires
            i < self.papers@.len(),
        ensures
            r@.len() == 6,
            r@[0]@ == text_or_empty(self.papers@[i as int].title),
            r@[1]@ == text_or_empty(self.papers@[i as int].authors),
            r@[2]@ == year_text(self.papers@[i as int].year),
            r@[3]@ == text_or_empty(self.papers@[i as int].journal),
            r@[4]@ == text_or_empty(self.papers@[i as int].doi),
            r@[5]@ == text_or_empty(self.papers@[i as int].abstract_text),
    {
        let p = &self.papers[i];
        let year = match p.year {
            Some(y) => i64_to_string(y),
            None => String::new(),
        };
        let mut v: Vec<String> = Vec::new();
        v.push(opt_text_exec(&p.title));
        v.push(opt_text_exec(&p.authors));
        v.push(year);
        v.push(opt_text_exec(&p.journal));
        v.push(opt_text_exec(&p.doi));
        v.push(opt_text_exec(&p.abstract_text));
        v
    }

    fn open_metadata_editor(&mut self, bufs: Vec<String>)
        ensures
            *final(self) == (App {
                edit_buffers: bufs,
                editing_field_index: 0,
                is_editing_metadata: true,
                ..*old(self)
            }),
    {
        self.edit_buffers = bufs;
        self.editing_field_index = 0;
        self.is_editing_metadata = true;
    }

    /// Closes the metadata editor without saving, clearing every buffer.
    pub fn cancel_edit_metadata(&mut self)
        ensures
            *final(self) == (App {
                is_editing_metadata: false,
                editing_field_index: 0,
                edit_buffers: final(self).edit_buffers,
                ..*old(self)
            }),
            final(self).edit_buffers@.len() == old(self).edit_buffers@.len(),
            forall|i: int| 0 <= i < final(self).edit_buffers@.len() ==> (#[trigger] final(self).edit_buffers@[i])@.len() == 0,
    {
        let n = self.edit_buffers.len();
        let mut v: Vec<String> = Vec::new();
        let mut i: usize = 0;
        while i < n
            invariant
                i <= n,
                v@.len() == i,
                forall|j: int| 0 <= j < i ==> (#[trigger] v@[j])@.len() == 0,
            decreases n - i,
        {
            v.push(String::new());
            i = i + 1;
        }
        self.is_editing_metadata = false;
        self.editing_field_index = 0;
        self.edit_buffers = v;
    }

    /// Focuses the next metadata field, wrapping from the sixth to the first.
    pub fn next_edit_field(&mut self)
        ensures
            *final(self) == next_field_of(*old(self)),
    {
        if self.is_editing_metadata {
            self.editing_field_index = (self.editing_field_index % 6 + 1) % 6;
        }
    }

    /// Focuses the previous metadata field, wrapping from the first to the
    /// sixth.
    pub fn previous_edit_field(&mut self)
        ensures
            *final(self) == previous_field_of(*old(self)),
    {
        if self.is_editing_metadata {
            self.editing_field_index = if self.editing_field_index == 0 {
                5
            } else {
                self.editing_field_index - 1
            };
        }
    }

    /// Appends a character to the focused metadata field.
    pub fn push_edit_char(&mut self, c: char)
        ensures
            *final(self) == (App { edit_buffers: final(self).edit_buffers, ..*old(self) }),
            final(self).edit_buffers@.len() == old(self).edit_buffers@.len(),
            forall|i: int|
                0 <= i < old(self).edit_buffers@.len() ==> (#[trigger] final(self).edit_buffers@[i])@ == if old(
                    self,
                ).is_editing_metadata && i == old(self).editing_field_index && i < 6 {
                    old(self).edit_buffers@[i]@.push(c)
                } else {
                    old(self).edit_buffers@[i]@
                },
    {
        let i = self.editing_field_index;
        if self.is_editing_metadata && i < 6 && i < self.edit_buffers.len() {
            let mut b = self.edit_buffers[i].clone();
            string_push(&mut b, c);
            self.edit_buffers.set(i, b);
        }
    }

    /// Removes the last character of the focused metadata field.
    pub fn pop_edit_char(&mut self)
        ensures
            *final(self) == (App { edit_buffers: final(self).edit_buffers, ..*old(self) }),
            final(self).edit_buffers@.len() == old(self).edit_buffers@.len(),
            forall|i: int|
                0 <= i < old(self).edit_buffers@.len() ==> (#[trigger] final(self).edit_buffers@[i])@ == if old(
                    self,
                ).is_editing_metadata && i == old(self).editing_field_index && i < 6 && old(
                    self,
                ).edit_buffers@[i]@.len() > 0 {
                    old(self).edit_buffers@[i]@.drop_last()
                } else {
                    old(self).edit_buffers@[i]@
                },
    {
        let i = self.editing_field_index;
        if self.is_editing_metadata && i < 6 && i < self.edit_buffers.len() {
            let mut b = self.edit_buffers[i].clone();
            string_pop(&mut b);
            self.edit_buffers.set(i, b);
        }
    }

    /// Validates and saves the edited metadata, then closes the editor.
    pub fn save_metadata(&mut self)
        ensures
            metadata_saved(*old(self), *final(self)),
    {
        if !self.is_editing_metadata {
            proof {
                reveal(metadata_saved);
            }
            return;
        }
        if self.selected_paper >= self.papers.len() {
            self.close_editor_with("No paper selected to edit");
            proof {
                reveal(metadata_saved);
            }
            return;
        }
        if !self.title_given() {
            self.set_status("Title cannot be empty");
            proof {
                reveal(metadata_saved);
            }
            return;
        }
        let year_buf = self.buffer_at(2);
        let year = year_exec(&year_buf);
        match year {
            None => {
                self.set_status("Invalid year");
                proof {
                    reveal(metadata_saved);
                }
            },
            Some(y) => {
                self.save_valid_metadata(y);
            },
        }
    }

    fn title_given(&self) -> (b: bool)
        ensures
            b == (trim(buffer_text(self.edit_buffers@, 0)).len() > 0),
    {
        let t = trim_str(self.buffer_at(0).as_str());
        str_chars(t.as_str()).len() > 0
    }

    /// A copy of edit buffer `i`, empty when there is no such buffer.
    fn buffer_at(&self, i: usize) -> (r: String)
        ensures
            r@ == buffer_text(self.edit_buffers@, i as int),
    {
        if i < self.edit_buffers.len() {
            self.edit_buffers[i].clone()
        } else {
            String::new()
        }
    }

    fn close_editor_with(&mut self, msg: &str)
        ensures
            *final(self) == (App { status_message: final(self).status_message, is_editing_metadata: false, ..*old(self) }),
            opt_view(final(self).status_message) == Some(msg@),
    {
        self.set_status(msg);
        self.is_editing_metadata = false;
    }

    #[verifier::rlimit(80)]
    fn save_valid_metadata(&mut self, year: Option<i64>)
        requires
            old(self).is_editing_metadata,
            old(self).selected_paper < old(self).papers@.len(),
            trim(buffer_text(old(self).edit_buffers@, 0)).len() > 0,
            match year_field(buffer_text(old(self).edit_buffers@, 2)) {
                Some(Some(b)) => year == Some(b as i64),
                Some(None) => year is None,
                None => false,
            },
        ensures
            metadata_saved(*old(self), *final(self)),
    {
        let ghost o = *self;
        let title = trim_str(self.buffer_at(0).as_str());
        let msg = concat2("Updated metadata for ", title.as_str());
        let q = self.edited_paper(year);
        self.replace_paper_everywhere(&q);
        let ghost m1 = *self;
        self.apply_search_filter();
        let ghost m2 = *self;
        self.close_editor_with(msg.as_str());
        proof {
            lemma_metadata_saved(o, q, m1, m2, *self);
        }
    }

    fn edited_paper(&self, year: Option<i64>) -> (q: Paper)
        requires
            self.selected_paper < self.papers@.len(),
            match year_field(buffer_text(self.edit_buffers@, 2)) {
                Some(Some(b)) => year == Some(b as i64),
                Some(None) => year is None,
                None => false,
            },
        ensures
            metadata_applied(self.papers@[self.selected_paper as int], q, self.edit_buffers@),
    {
        let p = &self.papers[self.selected_paper];
        Paper {
            id: p.id,
            file_path: p.file_path.clone(),
            content_hash: p.content_hash.clone(),
            title: Some(trim_str(self.buffer_at(0).as_str())),
            authors: field_exec(&self.buffer_at(1)),
            year,
            journal: field_exec(&self.buffer_at(3)),
            doi: field_exec(&self.buffer_at(4)),
            abstract_text: field_exec(&self.buffer_at(5)),
            text_path: clone_opt(&p.text_path),
            annotated_pdf_path: clone_opt(&p.annotated_pdf_path),
            toc_embedded_at: clone_opt(&p.toc_embedded_at),
            created_at: p.created_at.clone(),
            updated_at: current_timestamp(),
        }
    }

    /// Replaces paper `q` (by id) in the view (first occurrence) and in
    /// every stored list (every occurrence).
    fn replace_paper_everywhere(&mut self, q: &Paper)
        ensures
            *final(self) == (App {
                papers: final(self).papers,
                papers_by_collection: final(self).papers_by_collection,
                ..*old(self)
            }),
            final(self).papers@ == replace_first(old(self).papers@, *q),
            lists_updated(old(self).papers_by_collection@, final(self).papers_by_collection@, *q),
    {
        let shown = replace_first_exec(&self.papers, q);
        let lists = replace_in_lists(&self.papers_by_collection, q);
        self.papers = shown;
        self.papers_by_collection = lists;
    }
}

proof fn lemma_metadata_saved(o: App, q: Paper, m1: App, m2: App, n: App)
    requires
        o.is_editing_metadata,
        o.selected_paper < o.papers@.len(),
        trim(buffer_text(o.edit_buffers@, 0)).len() > 0,
        year_field(buffer_text(o.edit_buffers@, 2)) is Some,
        metadata_applied(o.papers@[o.selected_paper as int], q, o.edit_buffers@),
        m1 == (App { papers: m1.papers, papers_by_collection: m1.papers_by_collection, ..o }),
        m1.papers@ == replace_first(o.papers@, q),
        lists_updated(o.papers_by_collection@, m1.papers_by_collection@, q),
        search_applied(m1, m2),
        n == (App { status_message: n.status_message, is_editing_metadata: false, ..m2 }),
        opt_view(n.status_message) == Some("Updated metadata for "@ + trim(buffer_text(o.edit_buffers@, 0))),
    ensures
        metadata_saved(o, n),
{
    reveal(metadata_saved);
}

fn replace_first_exec(v: &Vec<Paper>, q: &Paper) -> (r: Vec<Paper>)
    ensures
        r@ == replace_first(v@, *q),
{
    let mut shown = crate::paper::clone_papers(v);
    match find_paper(&shown, q.id) {
        Some(i) => {
            shown.set(i, q.clone());
        },
        None => {},
    }
    shown
}

fn replace_in_list(v: &Vec<Paper>, q: &Paper) -> (r: Vec<Paper>)
    ensures
        r@ == replace_all(v@, *q),
{
    let mut r: Vec<Paper> = Vec::new();
    let mut i: usize = 0;
    while i < v.len()
        invariant
            i <= v@.len(),
            r@ == replace_all(v@.take(i as int), *q),
        decreases v@.len() - i,
    {
        if v[i].id == q.id {
            r.push(q.clone());
        } else {
            r.push(v[i].clone());
        }
        i = i + 1;
        assert(r@ =~= replace_all(v@.take(i as int), *q));
    }
    assert(v@.take(v@.len() as int) =~= v@);
    r
}

fn replace_in_lists(m: &KeyMap<Option<u128>, Vec<Paper>>, q: &Paper) -> (r: KeyMap<Option<u128>, Vec<Paper>>)
    ensures
        lists_updated(m@, r@, *q),
{
    m.entry_facts();
    let mut r: KeyMap<Option<u128>, Vec<Paper>> = KeyMap::new();
    let mut i: usize = 0;
    while i < m.len()
        invariant
            i <= m.entries().len(),
            forall|j: int|
                0 <= j < m.entries().len() ==> m@.contains_key(#[trigger] m.entries()[j].0)
                    && m@[m.entries()[j].0] == m.entries()[j].1,
            forall|k: Option<u128>| #[trigger] m@.contains_key(k) <==> exists|j: int|
                0 <= j < m.entries().len() && m.entries()[j].0 == k,
            forall|k: Option<u128>| #[trigger] r@.contains_key(k) <==> exists|j: int|
                0 <= j < i && m.entries()[j].0 == k,
            forall|k: Option<u128>| #[trigger] r@.contains_key(k) ==> r@[k]@ == replace_all(m@[k]@, *q),
        decreases m.entries().len() - i,
    {
        let k = *m.key_at(i);
        let v = replace_in_list(m.value_at(i), q);
        r.insert(k, v);
        proof {
            assert forall|x: Option<u128>| #[trigger] r@.contains_key(x) <==> exists|j: int|
                0 <= j < i + 1 && m.entries()[j].0 == x by {
                if x == k {
                    assert(m.entries()[i as int].0 == x);
                }
            }
        }
        i = i + 1;
    }
    r
}

} // verus!
