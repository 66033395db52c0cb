//! Editing the table of contents of the selected paper: the add/edit modal,
//! the import modal and the deletion of an entry with its subtree.
use vstd::prelude::*;
use crate::app::{find_toc, has_paper, has_toc, paper_pos, toc_pos, App};
use crate::app_edit::opt_view;
use crate::clock::{current_timestamp, fresh_id, is_timestamp, v7_marked};
use crate::decimal::{dec_nat, parse_u32, parse_u32_spec, u32_to_string};
use crate::collections::IdSet;
use crate::paper::{clone_tocs, TocEntry, TocSource, Paper};
use crate::text::{owned, str_chars, string_pop, string_push, trim, trim_str};
use crate::toc::{source_at, source_pos, TocEditState, TocImportSourceType, TocImportState};

verus! {

/// The page of the selected TOC entry, else 1.
pub open spec fn default_page(o: App) -> int {
    if o.selected_toc < o.toc_preview@.len() {
        o.toc_preview@[o.selected_toc as int].page_number as int
    } else {
        1
    }
}

/// Whether `c` is an ASCII digit.
pub open spec fn ascii_digit(c: char) -> bool {
    '0' <= c && c <= '9'
}

/// The page field as saved: a positive page number, or `None`.
pub open spec fn page_field(s: Seq<char>) -> Option<int> {
    match parse_u32_spec(trim(s)) {
        Some(p) => if p > 0 {
            Some(p)
        } else {
            None
        },
        None => None,
    }
}

/// The state after the add-entry modal is opened under `parent`: without a
/// selected paper only a message; otherwise an empty title and the page of
/// the selected entry (else 1).
#[verifier::opaque]
pub open spec fn toc_add_started(o: App, n: App, parent: Option<u128>) -> bool {
    if o.selected_paper >= o.papers@.len() {
        &&& n == App { status_message: n.status_message, ..o }
        &&& opt_view(n.status_message) == Some("No paper selected"@)
    } else {
        &&& n == App { toc_edit_state: n.toc_edit_state, ..o }
        &&& n.toc_edit_state matches Some(st) && st.entry_id is None && st.parent_id == parent
            && st.title_buffer@.len() == 0 && st.page_buffer@ == dec_nat(default_page(o) as nat)
            && st.active_field == 0
    }
}

/// The state after the edit modal is opened on entry `id`: a message when
/// the entry is not listed; otherwise its title, parent and page.
#[verifier::opaque]
pub open spec fn toc_edit_started(o: App, n: App, id: u128) -> bool {
    if !has_toc(o.toc_preview@, id) {
        &&& n == App { status_message: n.status_message, ..o }
        &&& opt_view(n.status_message) == Some("TOC entry not found"@)
    } else {
        let e = o.toc_preview@[toc_pos(o.toc_preview@, id)];
        &&& n == App { toc_edit_state: n.toc_edit_state, ..o }
        &&& n.toc_edit_state matches Some(st) && st.entry_id == Some(e.id) && st.parent_id == e.parent_id
            && st.title_buffer@ == e.title@ && st.page_buffer@ == dec_nat(e.page_number as nat)
            && st.active_field == 0
    }
}

/// `toc` with the first entry of id `id` retitled, moved to `page` and
/// stamped `now`.
pub open spec fn entry_edited(toc: Seq<TocEntry>, n: Seq<TocEntry>, id: u128, title: Seq<char>, page: int, now: Seq<char>) -> bool {
    if has_toc(toc, id) {
        let i = toc_pos(toc, id);
        let e = toc[i];
        &&& n.len() == toc.len()
        &&& forall|j: int| 0 <= j < toc.len() && j != i ==> n[j] == toc[j]
        &&& n[i].id == e.id && n[i].paper_id == e.paper_id && n[i].parent_id == e.parent_id
        &&& n[i].order_index == e.order_index && n[i].source == e.source && n[i].created_at == e.created_at
        &&& n[i].title@ == title && n[i].page_number == page && n[i].updated_at@ == now
    } else {
        n == toc
    }
}

/// The papers with the first paper of id `pid` stamped `now`.
pub open spec fn paper_stamped(ps: Seq<Paper>, n: Seq<Paper>, pid: u128, now: Seq<char>) -> bool {
    if has_paper(ps, pid) {
        let i = paper_pos(ps, pid);
        &&& n.len() == ps.len()
        &&& forall|j: int| 0 <= j < ps.len() && j != i ==> n[j] == ps[j]
        &&& n[i] == (Paper { updated_at: n[i].updated_at, ..ps[i] })
        &&& n[i].updated_at@ == now
    } else {
        n == ps
    }
}

/// The state after the TOC modal is saved.
///
/// Nothing happens without an open modal. Without a selected paper the
/// modal closes with a message. A blank title or a page that is not a
/// positive number keeps it open with a message. Otherwise a new entry is
/// appended under the modal's parent (or the edited entry is updated), the
/// paper is stamped, the cursor goes to the saved entry and the modal
/// closes.
#[verifier::opaque]
pub open spec fn toc_saved(o: App, n: App) -> bool {
    match o.toc_edit_state {
        None => n == o,
        Some(st) => if o.selected_paper >= o.papers@.len() {
            &&& n == App { status_message: n.status_message, toc_edit_state: None, ..o }
            &&& opt_view(n.status_message) == Some("No paper selected"@)
        } else if trim(st.title_buffer@).len() == 0 {
            &&& n == App { status_message: n.status_message, ..o }
            &&& opt_view(n.status_message) == Some("Title cannot be empty"@)
        } else if page_field(st.page_buffer@) is None {
            &&& n == App { status_message: n.status_message, ..o }
            &&& opt_view(n.status_message) == Some("Page number must be at least 1"@)
        } else {
            let p = o.papers@[o.selected_paper as int];
            let title = trim(st.title_buffer@);
            let page = page_field(st.page_buffer@).unwrap();
            exists|saved: u128, now: Seq<char>|
                #![trigger saved_toc_state(o, n, saved, now)]
                saved_toc_state(o, n, saved, now)
        },
    }
}

/// The TOC and paper lists after a valid save, the saved entry being `saved`
/// (a fresh version-7 id for a new entry) and `now` the RFC 3339 timestamp
/// of the save.
pub open spec fn saved_toc_state(o: App, n: App, saved: u128, now: Seq<char>) -> bool {
    let st = o.toc_edit_state.unwrap();
    let p = o.papers@[o.selected_paper as int];
    let title = trim(st.title_buffer@);
    let page = page_field(st.page_buffer@).unwrap();
    &&& n == App {
        toc_preview: n.toc_preview,
        papers: n.papers,
        selected_toc: n.selected_toc,
        toc_edit_state: None,
        ..o
    }
    &&& is_timestamp(now)
    &&& match st.entry_id {
        None => {
            let e = n.toc_preview@.last();
            &&& v7_marked(saved)
            &&& n.toc_preview@.len() == o.toc_preview@.len() + 1
            &&& n.toc_preview@.drop_last() == o.toc_preview@
            &&& e.id == saved && e.paper_id == p.id && e.parent_id == st.parent_id && e.title@ == title
            &&& e.page_number == page && e.order_index == o.toc_preview@.len() as i32
            &&& e.source == TocSource::Manual && e.created_at@ == now && e.updated_at@ == now
        },
        Some(id) => saved == id && entry_edited(o.toc_preview@, n.toc_preview@, id, title, page, now),
    }
    &&& paper_stamped(o.papers@, n.papers@, p.id, now)
    &&& n.selected_toc == if has_toc(n.toc_preview@, saved) {
        toc_pos(n.toc_preview@, saved)
    } else {
        o.selected_toc as int
    }
}

/// Whether `x` descends from `root` through at most `k` parent links.
pub open spec fn descends(toc: Seq<TocEntry>, x: u128, root: u128, k: nat) -> bool
    decreases k,
{
    x == root || (k > 0 && exists|i: int|
        0 <= i < toc.len() && #[trigger] toc[i].id == x && toc[i].parent_id is Some && descends(
            toc,
            toc[i].parent_id.unwrap(),
            root,
            (k - 1) as nat,
        ))
}

/// Whether entry id `x` is `root` or lies in its subtree.
pub open spec fn in_subtree(toc: Seq<TocEntry>, x: u128, root: u128) -> bool {
    exists|k: nat| descends(toc, x, root, k)
}

/// The entries outside the subtree of `root`, in order.
pub open spec fn outside_subtree(toc: Seq<TocEntry>, all: Seq<TocEntry>, root: u128) -> Seq<TocEntry>
    decreases toc.len(),
{
    if toc.len() == 0 {
        Seq::empty()
    } else {
        let rest = outside_subtree(toc.drop_last(), all, root);
        if in_subtree(all, toc.last().id, root) {
            rest
        } else {
            rest.push(toc.last())
        }
    }
}

fn page_exec(s: &String) -> (r: Option<u32>)
    ensures
        match (r, page_field(s@)) {
            (Some(a), Some(b)) => a == b,
            (None, None) => true,
            _ => false,
        },
{
    let t = trim_str(s.as_str());
    let tc = str_chars(t.as_str());
    match parse_u32(&tc) {
        Some(p) => if p > 0 {
            Some(p)
        } else {
            None
        },
        None => None,
    }
}

fn blank(s: &String) -> (b: bool)
    ensures
        b == (trim(s@).len() == 0),
{
    let t = trim_str(s.as_str());
    str_chars(t.as_str()).len() == 0
}

impl App {
    /// Whether the selected paper's annotated copy is outdated, given
    /// `copy_outdated`, the comparison of that copy with its PDF: only a
    /// selected paper that has an annotated copy and an embed time can have
    /// an outdated copy.
    pub fn is_current_paper_annotated_outdated(&self, copy_outdated: bool) -> (b: bool)
        ensures
            b == (self.selected_paper < self.papers@.len() && self.papers@[self.selected_paper as int].annotated_pdf_path
                is Some && self.papers@[self.selected_paper as int].toc_embedded_at is Some && copy_outdated),
    {
        if self.selected_paper >= self.papers.len() {
            return false;
        }
        let p = &self.papers[self.selected_paper];
        if p.annotated_pdf_path.is_none() || p.toc_embedded_at.is_none() {
            return false;
        }
        copy_outdated
    }

    /// Whether the TOC add/edit modal is open.
    pub fn is_editing_toc(&self) -> (b: bool)
        ensures
            b == self.toc_edit_state is Some,
    {
        self.toc_edit_state.is_some()
    }

    /// Whether the TOC import modal is open.
    pub fn is_importing_toc(&self) -> (b: bool)
        ensures
            b == self.toc_import_state is Some,
    {
        self.toc_import_state.is_some()
    }

    /// Opens the modal that adds an entry under `parent_id`.
    pub fn start_add_toc(&mut self, parent_id: Option<u128>)
        ensures
            toc_add_started(*old(self), *final(self), parent_id),
    {
        if self.selected_paper >= self.papers.len() {
            self.set_status("No paper selected");
            proof {
                reveal(toc_add_started);
            }
        } else {
            let page: u32 = if self.selected_toc < self.toc_preview.len() {
                self.toc_preview[self.selected_toc].page_number
            } else {
                1
            };
            let st = TocEditState {
                entry_id: None,
                parent_id,
                title_buffer: String::new(),
                page_buffer: u32_to_string(page),
                active_field: 0,
            };
            self.set_toc_edit_state(Some(st));
            proof {
                reveal(toc_add_started);
            }
        }
    }

    fn set_toc_edit_state(&mut self, st: Option<TocEditState>)
        ensures
            *final(self) == (App { toc_edit_state: st, ..*old(self) }),
    {
        self.toc_edit_state = st;
    }

    /// Opens the modal that edits entry `entry_id`.
    pub fn start_edit_toc(&mut self, entry_id: u128)
        ensures
            toc_edit_started(*old(self), *final(self), entry_id),
    {
        match find_toc(&self.toc_preview, entry_id) {
            None => {
                self.set_status("TOC entry not found");
                proof {
                    reveal(toc_edit_started);
                }
            },
            Some(i) => {
                let e = &self.toc_preview[i];
                let st = TocEditState {
                    entry_id: Some(e.id),
                    parent_id: e.parent_id,
                    title_buffer: e.title.clone(),
                    page_buffer: u32_to_string(e.page_number),
                    active_field: 0,
                };
                self.set_toc_edit_state(Some(st));
                proof {
                    reveal(toc_edit_started);
                }
            },
        }
    }

    /// Closes the TOC add/edit modal.
    pub fn cancel_toc_modal(&mut self)
        ensures
            *final(self) == (App { toc_edit_state: None, ..*old(self) }),
    {
        self.toc_edit_state = None;
    }

    /// Focuses the other field of the TOC modal (title and page alternate).
    pub fn toc_edit_next_field(&mut self)
        ensures
            *final(self) == (App { toc_edit_state: edit_next(old(self).toc_edit_state), ..*old(self) }),
    {
        let st = edit_next_exec(&self.toc_edit_state);
        self.toc_edit_state = st;
    }

    /// Focuses the other field of the TOC modal, backwards.
    pub fn toc_edit_prev_field(&mut self)
        ensures
            *final(self) == (App { toc_edit_state: edit_prev(old(self).toc_edit_state), ..*old(self) }),
    {
        let st = edit_prev_exec(&self.toc_edit_state);
        self.toc_edit_state = st;
    }

    /// Types a character into the focused field of the TOC modal; the page
    /// field takes ASCII digits only.
    pub fn toc_edit_push_char(&mut self, c: char)
        ensures
            *final(self) == (App { toc_edit_state: final(self).toc_edit_state, ..*old(self) }),
            edit_typed(old(self).toc_edit_state, final(self).toc_edit_state, c),
    {
        let st = edit_push_exec(&self.toc_edit_state, c);
        self.toc_edit_state = st;
    }

    /// Deletes the last character of the focused field of the TOC modal.
    pub fn toc_edit_pop_char(&mut self)
        ensures
            *final(self) == (App { toc_edit_state: final(self).toc_edit_state, ..*old(self) }),
            edit_erased(old(self).toc_edit_state, final(self).toc_edit_state),
    {
        let st = edit_pop_exec(&self.toc_edit_state);
        self.toc_edit_state = st;
    }

    /// Opens the TOC import modal on the PDF outline source.
    pub fn start_import_toc(&mut self)
        ensures
            toc_import_started(*old(self), *final(self)),
    {
        if self.selected_paper >= self.papers.len() {
            self.no_paper_for_import();
        } else {
            self.open_import_modal();
        }
    }

    fn no_paper_for_import(&mut self)
        requires
            old(self).selected_paper >= old(self).papers@.len(),
        ensures
            toc_import_started(*old(self), *final(self)),
    {
        self.set_status("No paper selected");
        proof {
            reveal(toc_import_started);
        }
    }

    fn open_import_modal(&mut self)
        requires
            old(self).selected_paper < old(self).papers@.len(),
        ensures
            toc_import_started(*old(self), *final(self)),
    {
        self.toc_import_state = Some(
            TocImportState {
                source_type: TocImportSourceType::PdfOutline,
                file_path_buffer: String::new(),
                merge_mode: false,
                active_field: 0,
                error_message: None,
            },
        );
        proof {
            reveal(toc_import_started);
        }
    }

    /// Closes the TOC import modal.
    pub fn cancel_import_toc(&mut self)
        ensures
            *final(self) == (App { toc_import_state: None, ..*old(self) }),
    {
        self.toc_import_state = None;
    }

    /// Cycles the import source and clears the error message.
    pub fn toc_import_toggle_source(&mut self)
        ensures
            *final(self) == (App { toc_import_state: import_source_cycled(old(self).toc_import_state), ..*old(self) }),
    {
        let st = import_source_exec(&self.toc_import_state);
        self.toc_import_state = st;
    }

    /// Flips between merging into and replacing the existing TOC.
    pub fn toc_import_toggle_merge(&mut self)
        ensures
            *final(self) == (App { toc_import_state: import_merge_flipped(old(self).toc_import_state), ..*old(self) }),
    {
        let st = import_merge_exec(&self.toc_import_state);
        self.toc_import_state = st;
    }

    /// Focuses the next of the three import fields.
    pub fn toc_import_next_field(&mut self)
        ensures
            *final(self) == (App { toc_import_state: import_next(old(self).toc_import_state), ..*old(self) }),
    {
        let st = import_next_exec(&self.toc_import_state);
        self.toc_import_state = st;
    }

    /// Focuses the previous of the three import fields.
    pub fn toc_import_prev_field(&mut self)
        ensures
            *final(self) == (App { toc_import_state: import_prev(old(self).toc_import_state), ..*old(self) }),
    {
        let st = import_prev_exec(&self.toc_import_state);
        self.toc_import_state = st;
    }

    /// Types a character into the import path.
    pub fn toc_import_push_char(&mut self, c: char)
        ensures
            *final(self) == (App { toc_import_state: final(self).toc_import_state, ..*old(self) }),
            import_path_edited(old(self).toc_import_state, final(self).toc_import_state, Some(c)),
    {
        let st = import_path_exec(&self.toc_import_state, Some(c));
        self.toc_import_state = st;
    }

    /// Deletes the last character of the import path.
    pub fn toc_import_pop_char(&mut self)
        ensures
            *final(self) == (App { toc_import_state: final(self).toc_import_state, ..*old(self) }),
            import_path_edited(old(self).toc_import_state, final(self).toc_import_state, None),
    {
        let st = import_path_exec(&self.toc_import_state, None);
        self.toc_import_state = st;
    }
}

// --------------------------------------------------------- modal fields

/// The edit modal with the other field focused.
pub open spec fn edit_next(o: Option<TocEditState>) -> Option<TocEditState> {
    match o {
        Some(st) => Some(TocEditState { active_field: ((st.active_field + 1) % 2) as usize, ..st }),
        None => None,
    }
}

/// The edit modal with the other field focused, backwards.
pub open spec fn edit_prev(o: Option<TocEditState>) -> Option<TocEditState> {
    match o {
        Some(st) => Some(TocEditState { active_field: if st.active_field == 0 { 1 } else { 0 }, ..st }),
        None => None,
    }
}

/// The edit modal after `c` is typed: into the title when focused, into the
/// page when focused and `c` is a digit.
pub open spec fn edit_typed(o: Option<TocEditState>, n: Option<TocEditState>, c: char) -> bool {
    match o {
        None => n is None,
        Some(st) => n matches Some(x) && x.entry_id == st.entry_id && x.parent_id == st.parent_id
            && x.active_field == st.active_field && x.title_buffer@ == (if st.active_field == 0 {
            st.title_buffer@.push(c)
        } else {
            st.title_buffer@
        }) && x.page_buffer@ == (if st.active_field == 1 && ascii_digit(c) {
            st.page_buffer@.push(c)
        } else {
            st.page_buffer@
        }),
    }
}

/// The edit modal after a backspace in the focused field.
pub open spec fn edit_erased(o: Option<TocEditState>, n: Option<TocEditState>) -> bool {
    match o {
        None => n is None,
        Some(st) => n matches Some(x) && x.entry_id == st.entry_id && x.parent_id == st.parent_id
            && x.active_field == st.active_field && x.title_buffer@ == (if st.active_field == 0
            && st.title_buffer@.len() > 0 {
            st.title_buffer@.drop_last()
        } else {
            st.title_buffer@
        }) && x.page_buffer@ == (if st.active_field == 1 && st.page_buffer@.len() > 0 {
            st.page_buffer@.drop_last()
        } else {
            st.page_buffer@
        }),
    }
}

/// The import modal with the next source.
pub open spec fn import_source_cycled(o: Option<TocImportState>) -> Option<TocImportState> {
    match o {
        Some(st) => Some(
            TocImportState { source_type: source_at(source_pos(st.source_type) + 1), error_message: None, ..st },
        ),
        None => None,
    }
}

/// The import modal with the merge flag flipped.
pub open spec fn import_merge_flipped(o: Option<TocImportState>) -> Option<TocImportState> {
    match o {
        Some(st) => Some(TocImportState { merge_mode: !st.merge_mode, ..st }),
        None => None,
    }
}

/// The import modal with the next field focused.
pub open spec fn import_next(o: Option<TocImportState>) -> Option<TocImportState> {
    match o {
        Some(st) => Some(TocImportState { active_field: ((st.active_field + 1) % 3) as usize, ..st }),
        None => None,
    }
}

/// The import modal with the previous field focused.
pub open spec fn import_prev(o: Option<TocImportState>) -> Option<TocImportState> {
    match o {
        Some(st) => Some(
            TocImportState {
                active_field: if st.active_field == 0 {
                    2
                } else {
                    (st.active_field - 1) as usize
                },
                ..st
            },
        ),
        None => None,
    }
}

/// The import modal after a character is typed into the path (`Some`) or
/// the last one erased (`None`).
pub open spec fn import_path_edited(o: Option<TocImportState>, n: Option<TocImportState>, c: Option<char>) -> bool {
    match o {
        None => n is None,
        Some(st) => n matches Some(x) && x.source_type == st.source_type && x.merge_mode == st.merge_mode
            && x.active_field == st.active_field && x.error_message == st.error_message
            && x.file_path_buffer@ == match c {
            Some(ch) => st.file_path_buffer@.push(ch),
            None => if st.file_path_buffer@.len() > 0 {
                st.file_path_buffer@.drop_last()
            } else {
                st.file_path_buffer@
            },
        },
    }
}

/// The state after the import modal is opened: without a selected paper
/// only a message; otherwise the PDF outline source, an empty path, replace
/// mode, the first field focused and no error.
#[verifier::opaque]
pub open spec fn toc_import_started(o: App, n: App) -> bool {
    if o.selected_paper >= o.papers@.len() {
        &&& n == App { status_message: n.status_message, ..o }
        &&& opt_view(n.status_message) == Some("No paper selected"@)
    } else {
        &&& n == App { toc_import_state: n.toc_import_state, ..o }
        &&& n.toc_import_state matches Some(st) && st.source_type == TocImportSourceType::PdfOutline
            && st.file_path_buffer@.len() == 0 && !st.merge_mode && st.active_field == 0
            && st.error_message is None
    }
}

fn edit_next_exec(o: &Option<TocEditState>) -> (r: Option<TocEditState>)
    ensures
        r == edit_next(*o),
{
    match o {
        Some(st) => {
            let mut s2 = st.clone();
            s2.active_field = (st.active_field % 2 + 1) % 2;
            Some(s2)
        },
        None => None,
    }
}

fn edit_prev_exec(o: &Option<TocEditState>) -> (r: Option<TocEditState>)
    ensures
        r == edit_prev(*o),
{
    match o {
        Some(st) => {
            let mut s2 = st.clone();
            s2.active_field = if st.active_field == 0 { 1 } else { 0 };
            Some(s2)
        },
        None => None,
    }
}

fn edit_push_exec(o: &Option<TocEditState>, c: char) -> (r: Option<TocEditState>)
    ensures
        edit_typed(*o, r, c),
{
    match o {
        Some(st) => {
            let mut s2 = st.clone();
            if st.active_field == 0 {
                string_push(&mut s2.title_buffer, c);
            } else if st.active_field == 1 && '0' <= c && c <= '9' {
                string_push(&mut s2.page_buffer, c);
            }
            Some(s2)
        },
        None => None,
    }
}

fn edit_pop_exec(o: &Option<TocEditState>) -> (r: Option<TocEditState>)
    ensures
        edit_erased(*o, r),
{
    match o {
        Some(st) => {
            let mut s2 = st.clone();
            if st.active_field == 0 {
                string_pop(&mut s2.title_buffer);
            } else if st.active_field == 1 {
                string_pop(&mut s2.page_buffer);
            }
            Some(s2)
        },
        None => None,
    }
}

fn import_source_exec(o: &Option<TocImportState>) -> (r: Option<TocImportState>)
    ensures
        r == import_source_cycled(*o),
{
    match o {
        Some(st) => {
            let mut s2 = st.clone();
            s2.source_type = st.source_type.next();
            s2.error_message = None;
            Some(s2)
        },
        None => None,
    }
}

fn import_merge_exec(o: &Option<TocImportState>) -> (r: Option<TocImportState>)
    ensures
        r == import_merge_flipped(*o),
{
    match o {
        Some(st) => {
            let mut s2 = st.clone();
            s2.merge_mode = !st.merge_mode;
            Some(s2)
        },
        None => None,
    }
}

fn import_next_exec(o: &Option<TocImportState>) -> (r: Option<TocImportState>)
    ensures
        r == import_next(*o),
{
    match o {
        Some(st) => {
            let mut s2 = st.clone();
            s2.active_field = (st.active_field % 3 + 1) % 3;
            Some(s2)
        },
        None => None,
    }
}

fn import_prev_exec(o: &Option<TocImportState>) -> (r: Option<TocImportState>)
    ensures
        r == import_prev(*o),
{
    match o {
        Some(st) => {
            let mut s2 = st.clone();
            s2.active_field = if st.active_field == 0 { 2 } else { st.active_field - 1 };
            Some(s2)
        },
        None => None,
    }
}

fn import_path_exec(o: &Option<TocImportState>, c: Option<char>) -> (r: Option<TocImportState>)
    ensures
        import_path_edited(*o, r, c),
{
    match o {
        Some(st) => {
            let mut s2 = st.clone();
            match c {
                Some(ch) => string_push(&mut s2.file_path_buffer, ch),
                None => {
                    string_pop(&mut s2.file_path_buffer);
                },
            }
            Some(s2)
        },
        None => None,
    }
}

/// The state after the import modal is confirmed.
///
/// Nothing happens without an open modal. Without a selected paper the
/// modal closes with a message. A text or JSON source with a blank path
/// shows an error in the modal. Otherwise the import needs the library
/// database, which this state does not hold: the modal shows that error.
#[verifier::opaque]
pub open spec fn toc_import_confirmed(o: App, n: App) -> bool {
    match o.toc_import_state {
        None => n == o,
        Some(st) => if o.selected_paper >= o.papers@.len() {
            &&& n == App { status_message: n.status_message, toc_import_state: None, ..o }
            &&& opt_view(n.status_message) == Some("No paper selected"@)
        } else {
            let msg = if st.source_type == TocImportSourceType::TextFile && trim(st.file_path_buffer@).len() == 0 {
                "Please specify text file path"@
            } else if st.source_type == TocImportSourceType::JsonFile && trim(st.file_path_buffer@).len()
                == 0 {
                "Please specify JSON file path"@
            } else {
                "No database connection available"@
            };
            &&& n == App { toc_import_state: n.toc_import_state, ..o }
            &&& n.toc_import_state matches Some(x) && x == (TocImportState { error_message: x.error_message, ..st })
                && opt_view(x.error_message) == Some(msg)
        },
    }
}

fn with_import_error(st: &TocImportState) -> (r: TocImportState)
    ensures
        r == (TocImportState { error_message: r.error_message, ..*st }),
        opt_view(r.error_message) == Some(
            if st.source_type == TocImportSourceType::TextFile && trim(st.file_path_buffer@).len() == 0 {
                "Please specify text file path"@
            } else if st.source_type == TocImportSourceType::JsonFile && trim(st.file_path_buffer@).len()
                == 0 {
                "Please specify JSON file path"@
            } else {
                "No database connection available"@
            },
        ),
{
    let empty = blank(&st.file_path_buffer);
    let msg = if st.source_type == TocImportSourceType::TextFile && empty {
        owned("Please specify text file path")
    } else if st.source_type == TocImportSourceType::JsonFile && empty {
        owned("Please specify JSON file path")
    } else {
        owned("No database connection available")
    };
    let mut r = st.clone();
    r.error_message = Some(msg);
    r
}

fn new_entry_list(
    toc: &Vec<TocEntry>,
    id: u128,
    pid: u128,
    parent: Option<u128>,
    title: String,
    page: u32,
    now: &String,
) -> (r: Vec<TocEntry>)
    ensures
        r@.len() == toc@.len() + 1,
        r@.drop_last() == toc@,
        r@.last().id == id && r@.last().paper_id == pid && r@.last().parent_id == parent,
        r@.last().title@ == title@ && r@.last().page_number == page,
        r@.last().order_index == toc@.len() as i32,
        r@.last().source == TocSource::Manual && r@.last().created_at@ == now@ && r@.last().updated_at@ == now@,
{
    let mut r = clone_tocs(toc);
    let order = toc.len() as i32;
    r.push(
        TocEntry {
            id,
            paper_id: pid,
            parent_id: parent,
            title,
            page_number: page,
            order_index: order,
            source: TocSource::Manual,
            created_at: now.clone(),
            updated_at: now.clone(),
        },
    );
    assert(r@.drop_last() =~= toc@);
    r
}

fn edit_entry_list(toc: &Vec<TocEntry>, id: u128, title: &String, page: u32, now: &String) -> (r: Vec<TocEntry>)
    ensures
        entry_edited(toc@, r@, id, title@, page as int, now@),
{
    let mut r = clone_tocs(toc);
    match find_toc(toc, id) {
        Some(i) => {
            let e = &toc[i];
            let ne = TocEntry {
                id: e.id,
                paper_id: e.paper_id,
                parent_id: e.parent_id,
                title: title.clone(),
                page_number: page,
                order_index: e.order_index,
                source: e.source,
                created_at: e.created_at.clone(),
                updated_at: now.clone(),
            };
            r.set(i, ne);
        },
        None => {},
    }
    r
}

fn stamp_paper(ps: &Vec<Paper>, pid: u128, now: &String) -> (r: Vec<Paper>)
    ensures
        paper_stamped(ps@, r@, pid, now@),
{
    let mut r = crate::paper::clone_papers(ps);
    match crate::app::find_paper(ps, pid) {
        Some(i) => {
            let mut p = ps[i].clone();
            p.updated_at = now.clone();
            r.set(i, p);
        },
        None => {},
    }
    r
}

impl App {
    /// Saves the TOC modal: appends the new entry (or updates the edited
    /// one), stamps the paper, selects the saved entry and closes the modal.
    pub fn save_toc_modal(&mut self)
        ensures
            toc_saved(*old(self), *final(self)),
    {
        let st = match &self.toc_edit_state {
            None => {
                proof {
                    reveal(toc_saved);
                }
                return;
            },
            Some(st) => st.clone(),
        };
        if self.selected_paper >= self.papers.len() {
            self.toc_save_without_paper();
        } else if blank(&st.title_buffer) {
            self.toc_save_rejected("Title cannot be empty");
        } else {
            match page_exec(&st.page_buffer) {
                None => self.toc_save_rejected("Page number must be at least 1"),
                Some(page) => self.toc_save_valid(page),
            }
        }
    }

    fn toc_save_without_paper(&mut self)
        requires
            old(self).toc_edit_state is Some,
            old(self).selected_paper >= old(self).papers@.len(),
        ensures
            toc_saved(*old(self), *final(self)),
    {
        self.set_status("No paper selected");
        self.toc_edit_state = None;
        proof {
            reveal(toc_saved);
        }
    }

    fn toc_save_rejected(&mut self, msg: &str)
        requires
            old(self).toc_edit_state is Some,
            old(self).selected_paper < old(self).papers@.len(),
            msg@ == (if trim(old(self).toc_edit_state.unwrap().title_buffer@).len() == 0 {
                "Title cannot be empty"@
            } else {
                "Page number must be at least 1"@
            }),
            trim(old(self).toc_edit_state.unwrap().title_buffer@).len() != 0 ==> page_field(
                old(self).toc_edit_state.unwrap().page_buffer@,
            ) is None,
        ensures
            toc_saved(*old(self), *final(self)),
    {
        self.set_status(msg);
        proof {
            reveal(toc_saved);
        }
    }

    fn toc_save_valid(&mut self, page: u32)
        requires
            old(self).toc_edit_state is Some,
            old(self).selected_paper < old(self).papers@.len(),
            trim(old(self).toc_edit_state.unwrap().title_buffer@).len() != 0,
            page_field(old(self).toc_edit_state.unwrap().page_buffer@) == Some(page as int),
        ensures
            toc_saved(*old(self), *final(self)),
    {
        let st = self.toc_edit_state.clone().unwrap();
        let pid = self.papers[self.selected_paper].id;
        let title = trim_str(st.title_buffer.as_str());
        let now = current_timestamp();
        let (toc, saved) = match st.entry_id {
            None => {
                let id = fresh_id();
                (new_entry_list(&self.toc_preview, id, pid, st.parent_id, title, page, &now), id)
            },
            Some(id) => (edit_entry_list(&self.toc_preview, id, &title, page, &now), id),
        };
        let papers = stamp_paper(&self.papers, pid, &now);
        let sel = match find_toc(&toc, saved) {
            Some(i) => i,
            None => self.selected_toc,
        };
        let ghost o = *self;
        self.apply_toc_save(toc, papers, sel);
        proof {
            assert(saved_toc_state(o, *self, saved, now@));
            reveal(toc_saved);
        }
    }

    fn apply_toc_save(&mut self, toc: Vec<TocEntry>, papers: Vec<Paper>, sel: usize)
        ensures
            *final(self) == (App {
                toc_preview: toc,
                papers: papers,
                selected_toc: sel,
                toc_edit_state: None,
                ..*old(self)
            }),
    {
        self.toc_preview = toc;
        self.papers = papers;
        self.selected_toc = sel;
        self.toc_edit_state = None;
    }

    /// Confirms the TOC import modal.
    pub fn confirm_import_toc(&mut self)
        ensures
            toc_import_confirmed(*old(self), *final(self)),
    {
        if self.toc_import_state.is_none() {
            proof {
                reveal(toc_import_confirmed);
            }
        } else if self.selected_paper >= self.papers.len() {
            self.import_without_paper();
        } else {
            self.import_error();
        }
    }

    fn import_without_paper(&mut self)
        requires
            old(self).toc_import_state is Some,
            old(self).selected_paper >= old(self).papers@.len(),
        ensures
            toc_import_confirmed(*old(self), *final(self)),
    {
        self.set_status("No paper selected");
        self.toc_import_state = None;
        proof {
            reveal(toc_import_confirmed);
        }
    }

    fn import_error(&mut self)
        requires
            old(self).toc_import_state is Some,
            old(self).selected_paper < old(self).papers@.len(),
        ensures
            toc_import_confirmed(*old(self), *final(self)),
    {
        let st = with_import_error(self.toc_import_state.as_ref().unwrap());
        self.toc_import_state = Some(st);
        proof {
            reveal(toc_import_confirmed);
        }
    }

    /// Writes the TOC into an annotated copy of the PDF; that needs the
    /// library database, so this state only reports it.
    pub fn embed_selected_toc(&mut self)
        ensures
            *final(self) == (App { status_message: final(self).status_message, ..*old(self) }),
            opt_view(final(self).status_message) == Some(
                if old(self).selected_paper < old(self).papers@.len() {
                    "No database connection available"@
                } else {
                    "No paper selected to embed TOC"@
                },
            ),
    {
        let msg = if self.selected_paper < self.papers.len() {
            "No database connection available"
        } else {
            "No paper selected to embed TOC"
        };
        self.set_status(msg);
    }
}

/// The number of entries whose id is not in `marked`.
pub open spec fn unmarked(toc: Seq<TocEntry>, marked: Set<u128>) -> nat
    decreases toc.len(),
{
    if toc.len() == 0 {
        0
    } else {
        unmarked(toc.drop_last(), marked) + if marked.contains(toc.last().id) { 0nat } else { 1nat }
    }
}

proof fn lemma_unmarked_mono(toc: Seq<TocEntry>, a: Set<u128>, b: Set<u128>)
    requires
        a.subset_of(b),
    ensures
        unmarked(toc, b) <= unmarked(toc, a),
        (exists|i: int| 0 <= i < toc.len() && !a.contains(toc[i].id) && b.contains(toc[i].id)) ==> unmarked(toc, b)
            < unmarked(toc, a),
    decreases toc.len(),
{
    if toc.len() > 0 {
        lemma_unmarked_mono(toc.drop_last(), a, b);
        if exists|i: int| 0 <= i < toc.len() && !a.contains(toc[i].id) && b.contains(toc[i].id) {
            let i = choose|i: int| 0 <= i < toc.len() && !a.contains(toc[i].id) && b.contains(toc[i].id);
            if i < toc.len() - 1 {
                assert(toc.drop_last()[i] == toc[i]);
            }
        }
    }
}

proof fn lemma_descends_closed(toc: Seq<TocEntry>, list: Seq<u128>, root: u128, x: u128, k: nat)
    requires
        list.contains(root),
        forall|p: int, j: int|
            #![trigger list[p], toc[j]]
            0 <= p < list.len() && 0 <= j < toc.len() && toc[j].parent_id == Some(list[p]) ==> list.contains(
                toc[j].id,
            ),
        descends(toc, x, root, k),
    ensures
        list.contains(x),
    decreases k,
{
    if x != root {
        let i = choose|i: int|
            0 <= i < toc.len() && #[trigger] toc[i].id == x && toc[i].parent_id is Some && descends(
                toc,
                toc[i].parent_id.unwrap(),
                root,
                (k - 1) as nat,
            );
        let par = toc[i].parent_id.unwrap();
        lemma_descends_closed(toc, list, root, par, (k - 1) as nat);
        let p = choose|p: int| 0 <= p < list.len() && list[p] == par;
        assert(toc[i].parent_id == Some(list[p]));
    }
}

/// The ids of `root` and its subtree.
fn subtree_ids(toc: &Vec<TocEntry>, root: u128) -> (r: Vec<u128>)
    ensures
        forall|x: u128| #[trigger] r@.contains(x) <==> in_subtree(toc@, x, root),
{
    let mut list: Vec<u128> = Vec::new();
    list.push(root);
    let mut set = IdSet::new();
    set.insert(root);
    proof {
        assert(descends(toc@, root, root, 0));
        assert(list@[0] == root);
    }
    let mut idx: usize = 0;
    while idx < list.len()
        invariant
            idx <= list@.len(),
            list@.len() >= 1,
            list@[0] == root,
            forall|x: u128| #[trigger] set@.contains(x) <==> list@.contains(x),
            forall|k: int| 0 <= k < list@.len() ==> in_subtree(toc@, #[trigger] list@[k], root),
            forall|p: int, j: int|
                #![trigger list@[p], toc@[j]]
                0 <= p < idx && 0 <= j < toc@.len() && toc@[j].parent_id == Some(list@[p]) ==> list@.contains(
                    toc@[j].id,
                ),
        decreases unmarked(toc@, set@), list@.len() - idx,
    {
        let parent = list[idx];
        let ghost set0 = set@;
        let ghost len0 = list@.len();
        let ghost list0 = list@;
        let mut j: usize = 0;
        while j < toc.len()
            invariant
                j <= toc@.len(),
                idx < len0 <= list@.len(),
                list@.take(len0 as int) == list0,
                list0[idx as int] == parent,
                list@[0] == root,
                forall|x: u128| #[trigger] set@.contains(x) <==> list@.contains(x),
                set0.subset_of(set@),
                forall|x: u128| #[trigger] set0.contains(x) <==> list0.contains(x),
                forall|k: int| 0 <= k < list@.len() ==> in_subtree(toc@, #[trigger] list@[k], root),
                forall|p: int, jj: int|
                    #![trigger list@[p], toc@[jj]]
                    0 <= p < idx && 0 <= jj < toc@.len() && toc@[jj].parent_id == Some(list@[p]) ==> list@.contains(
                        toc@[jj].id,
                    ),
                forall|jj: int| 0 <= jj < j && toc@[jj].parent_id == Some(parent) ==> list@.contains(#[trigger] toc@[jj].id),
                list@.len() > len0 ==> unmarked(toc@, set@) < unmarked(toc@, set0),
                list@.len() == len0 ==> set@ == set0,
            decreases toc@.len() - j,
        {
            let e_id = toc[j].id;
            if toc[j].parent_id == Some(parent) && !set.contains(&e_id) {
                let ghost before = set@;
                let ghost lbefore = list@;
                proof {
                    assert(list0.contains(parent)) by {
                        assert(list0[idx as int] == parent);
                    }
                    assert(list@.contains(parent)) by {
                        assert(list@[idx as int] == list0[idx as int]);
                    }
                    let kp = choose|kp: int| 0 <= kp < list@.len() && list@[kp] == parent;
                    assert(in_subtree(toc@, list@[kp], root));
                    let d = choose|d: nat| descends(toc@, parent, root, d);
                    assert(descends(toc@, e_id, root, d + 1)) by {
                        assert(toc@[j as int].id == e_id);
                    }
                }
                list.push(e_id);
                set.insert(e_id);
                proof {
                    assert(list@.drop_last() =~= lbefore);
                    lemma_unmarked_mono(toc@, set0, set@);
                    assert(!set0.contains(toc@[j as int].id) && set@.contains(toc@[j as int].id));
                    assert(list@.take(len0 as int) =~= list0);
                    assert forall|x: u128| #[trigger] set@.contains(x) <==> list@.contains(x) by {
                        if x == e_id {
                            assert(list@[list@.len() - 1] == x);
                        } else if list@.contains(x) {
                            let q = choose|q: int| 0 <= q < list@.len() && list@[q] == x;
                            assert(q < list@.len() - 1);
                            assert(before.contains(x));
                        } else if before.contains(x) {
                            assert(lbefore.contains(x));
                            let q = choose|q: int| 0 <= q < lbefore.len() && lbefore[q] == x;
                            assert(list@[q] == x);
                        }
                    }
                    assert forall|k: int| 0 <= k < list@.len() implies in_subtree(toc@, #[trigger] list@[k], root) by {
                        if k == list@.len() - 1 {
                            assert(in_subtree(toc@, e_id, root));
                        } else {
                            assert(list@[k] == list@.drop_last()[k]);
                        }
                    }
                    assert forall|p: int, jj: int|
                        #![trigger list@[p], toc@[jj]]
                        0 <= p < idx && 0 <= jj < toc@.len() && toc@[jj].parent_id == Some(list@[p]) implies list@.contains(
                        toc@[jj].id,
                    ) by {
                        assert(list@[p] == list@.drop_last()[p]);
                        assert(list@.drop_last().contains(toc@[jj].id));
                        let q = choose|q: int| 0 <= q < list@.drop_last().len() && list@.drop_last()[q] == toc@[jj].id;
                        assert(list@[q] == toc@[jj].id);
                    }
                    assert forall|jj: int| 0 <= jj < j + 1 && toc@[jj].parent_id == Some(parent) implies list@.contains(
                        #[trigger] toc@[jj].id,
                    ) by {
                        if jj == j {
                            assert(list@[list@.len() - 1] == toc@[jj].id);
                        } else {
                            assert(list@.drop_last().contains(toc@[jj].id));
                            let q = choose|q: int| 0 <= q < list@.drop_last().len() && list@.drop_last()[q] == toc@[jj].id;
                            assert(list@[q] == toc@[jj].id);
                        }
                    }
                }
            } else {
                proof {
                    if toc@[j as int].parent_id == Some(parent) {
                        assert(set@.contains(e_id));
                        assert(list@.contains(toc@[j as int].id));
                    }
                }
            }
            j = j + 1;
        }
        proof {
            assert forall|p: int, jj: int|
                #![trigger list@[p], toc@[jj]]
                0 <= p < idx + 1 && 0 <= jj < toc@.len() && toc@[jj].parent_id == Some(list@[p]) implies list@.contains(
                toc@[jj].id,
            ) by {
                if p == idx {
                    assert(list@[p] == list0[p]);
                }
            }
        }
        idx = idx + 1;
    }
    proof {
        assert forall|x: u128| #[trigger] list@.contains(x) <==> in_subtree(toc@, x, root) by {
            if list@.contains(x) {
                let q = choose|q: int| 0 <= q < list@.len() && list@[q] == x;
                assert(in_subtree(toc@, list@[q], root));
            }
            if in_subtree(toc@, x, root) {
                let k = choose|k: nat| descends(toc@, x, root, k);
                assert(list@.contains(root)) by {
                    assert(list@[0] == root);
                }
                lemma_descends_closed(toc@, list@, root, x, k);
            }
        }
    }
    list
}

fn vec_contains(v: &Vec<u128>, x: u128) -> (b: bool)
    ensures
        b == v@.contains(x),
{
    let mut i: usize = 0;
    while i < v.len()
        invariant
            i <= v@.len(),
            forall|k: int| 0 <= k < i ==> v@[k] != x,
        decreases v@.len() - i,
    {
        if v[i] == x {
            assert(v@[i as int] == x);
            return true;
        }
        i = i + 1;
    }
    false
}

fn outside_exec(toc: &Vec<TocEntry>, ids: &Vec<u128>, root: u128) -> (r: Vec<TocEntry>)
    requires
        forall|x: u128| #[trigger] ids@.contains(x) <==> in_subtree(toc@, x, root),
    ensures
        r@ == outside_subtree(toc@, toc@, root),
{
    let mut r: Vec<TocEntry> = Vec::new();
    let mut i: usize = 0;
    while i < toc.len()
        invariant
            i <= toc@.len(),
            forall|x: u128| #[trigger] ids@.contains(x) <==> in_subtree(toc@, x, root),
            r@ == outside_subtree(toc@.take(i as int), toc@, root),
        decreases toc@.len() - i,
    {
        assert(toc@.take(i + 1).drop_last() =~= toc@.take(i as int));
        if !vec_contains(ids, toc[i].id) {
            r.push(toc[i].clone());
        }
        i = i + 1;
    }
    assert(toc@.take(toc@.len() as int) =~= toc@);
    r
}

/// The state after entry `id` is deleted with its subtree: the entries of
/// the subtree leave the TOC preview, the preview is stored for the selected
/// paper, the cursor is clamped and a message is shown.
#[verifier::opaque]
pub open spec fn toc_deleted(o: App, n: App, id: u128) -> bool {
    let kept = outside_subtree(o.toc_preview@, o.toc_preview@, id);
    &&& n == App {
        toc_preview: n.toc_preview,
        tocs_by_paper: n.tocs_by_paper,
        selected_toc: n.selected_toc,
        status_message: n.status_message,
        ..o
    }
    &&& n.toc_preview@ == kept
    &&& if o.selected_paper < o.papers@.len() {
        let pid = o.papers@[o.selected_paper as int].id;
        &&& n.tocs_by_paper@ == o.tocs_by_paper@.insert(pid, n.tocs_by_paper@[pid])
        &&& n.tocs_by_paper@[pid]@ == kept
    } else {
        n.tocs_by_paper@ == o.tocs_by_paper@
    }
    &&& n.selected_toc == if o.selected_toc >= kept.len() {
        if kept.len() == 0 { 0 } else { kept.len() - 1 }
    } else {
        o.selected_toc as int
    }
    &&& opt_view(n.status_message) == Some("Deleted TOC entry"@)
}

impl App {
    /// Deletes TOC entry `id` and every entry below it.
    pub fn delete_selected_toc(&mut self, id: u128)
        ensures
            toc_deleted(*old(self), *final(self), id),
    {
        let ids = subtree_ids(&self.toc_preview, id);
        let kept = outside_exec(&self.toc_preview, &ids, id);
        let ghost o = *self;
        self.store_current_tocs(&kept);
        let sel = if self.selected_toc >= kept.len() {
            if kept.len() == 0 { 0 } else { kept.len() - 1 }
        } else {
            self.selected_toc
        };
        self.toc_preview = kept;
        self.selected_toc = sel;
        self.set_status("Deleted TOC entry");
        proof {
            reveal(toc_deleted);
        }
    }

    fn store_current_tocs(&mut self, tocs: &Vec<TocEntry>)
        ensures
            *final(self) == (App { tocs_by_paper: final(self).tocs_by_paper, ..*old(self) }),
            if old(self).selected_paper < old(self).papers@.len() {
                let pid = old(self).papers@[old(self).selected_paper as int].id;
                &&& final(self).tocs_by_paper@ == old(self).tocs_by_paper@.insert(pid, final(self).tocs_by_paper@[pid])
                &&& final(self).tocs_by_paper@[pid]@ == tocs@
            } else {
                final(self).tocs_by_paper@ == old(self).tocs_by_paper@
            },
    {
        if self.selected_paper < self.papers.len() {
            let pid = self.papers[self.selected_paper].id;
            self.tocs_by_paper.insert(pid, clone_tocs(tocs));
        }
    }

    /// Indents an entry under its previous sibling; that is a database
    /// operation, and without a database nothing changes.
    pub fn indent_selected_toc(&mut self, id: u128)
        ensures
            *final(self) == *old(self),
    {
    }

    /// Outdents an entry to its grandparent; without a database nothing
    /// changes.
    pub fn outdent_selected_toc(&mut self, id: u128)
        ensures
            *final(self) == *old(self),
    {
    }

    /// Moves an entry up among its siblings; without a database nothing
    /// changes.
    pub fn move_up_selected_toc(&mut self, id: u128)
        ensures
            *final(self) == *old(self),
    {
    }

    /// Moves an entry down among its siblings; without a database nothing
    /// changes.
    pub fn move_down_selected_toc(&mut self, id: u128)
        ensures
            *final(self) == *old(self),
    {
    }

    /// Reloads the selected paper and its TOC from the database; without a
    /// database there is nothing to reload.
    pub fn reload_current_paper_and_tocs(&mut self)
        ensures
            *final(self) == *old(self),
    {
    }
}

} // verus!
