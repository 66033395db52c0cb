//! What the panels show: the text of each row, the depth of each
//! table-of-contents entry in its tree, and how far a panel scrolls.
use vstd::prelude::*;
use crate::app::App;
use crate::app_ops::{join_tags, join_with, texts};
use crate::panel::ActivePanel;
use crate::collections::KeyMap;
use crate::decimal::{dec_int, dec_nat, i64_to_string, u32_to_string, usize_to_string};
use crate::paper::{toc_source_label, Paper, TocEntry};
use crate::selection::CollectionItem;
use crate::text::{owned, string_push_str};

verus! {

// ------------------------------------------------------------ text pieces

/// `unit` written `n` times (`str::repeat`).
pub open spec fn repeated(unit: Seq<char>, n: nat) -> Seq<char>
    decreases n,
{
    if n == 0 {
        Seq::empty()
    } else {
        repeated(unit, (n - 1) as nat) + unit
    }
}

/// The text of an optional field, or `absent` when there is none.
pub open spec fn text_or(o: Option<String>, absent: Seq<char>) -> Seq<char> {
    match o {
        Some(s) => s@,
        None => absent,
    }
}

/// The marker in front of a row: `> ` for the selected one.
pub open spec fn row_prefix(selected: bool) -> Seq<char> {
    if selected {
        "> "@
    } else {
        "  "@
    }
}

fn push_repeated(s: &mut String, unit: &str, n: usize)
    ensures
        final(s)@ == old(s)@ + repeated(unit@, n as nat),
{
    let ghost start = s@;
    let mut i: usize = 0;
    while i < n
        invariant
            i <= n,
            s@ == start + repeated(unit@, i as nat),
        decreases n - i,
    {
        string_push_str(s, unit);
        assert(start + repeated(unit@, (i + 1) as nat) =~= start + repeated(unit@, i as nat)
            + unit@);
        i = i + 1;
    }
    assert(start + repeated(unit@, 0) =~= start);
}

fn text_or_exec(o: &Option<String>, absent: &str) -> (r: String)
    ensures
        r@ == text_or(*o, absent@),
{
    match o {
        Some(s) => s.clone(),
        None => owned(absent),
    }
}

fn prefix_exec(selected: bool) -> (r: String)
    ensures
        r@ == row_prefix(selected),
{
    if selected {
        owned("> ")
    } else {
        owned("  ")
    }
}

// ------------------------------------------------------ collections panel

/// The row of a collection: the marker, the tree branch for nested ones
/// (two spaces per level above the first, then `└─ `), the name and the
/// paper count in brackets.
pub open spec fn collection_row(col: CollectionItem, selected: bool) -> Seq<char> {
    row_prefix(selected) + (if col.depth > 0 {
        repeated("  "@, (col.depth - 1) as nat) + "└─ "@
    } else {
        Seq::empty()
    }) + col.name@ + " ("@ + dec_nat(col.paper_count as nat) + ")"@
}

/// The row the collections panel shows for `col`.
pub fn collection_line(col: &CollectionItem, selected: bool) -> (s: String)
    ensures
        s@ == collection_row(*col, selected),
{
    let mut s = prefix_exec(selected);
    if col.depth > 0 {
        push_repeated(&mut s, "  ", col.depth - 1);
        string_push_str(&mut s, "└─ ");
    } else {
        assert(s@ + Seq::<char>::empty() =~= s@);
    }
    string_push_str(&mut s, col.name.as_str());
    string_push_str(&mut s, " (");
    let count = usize_to_string(col.paper_count);
    string_push_str(&mut s, count.as_str());
    string_push_str(&mut s, ")");
    s
}

// ----------------------------------------------------------- papers panel

/// The tag badge after a title: ` [a, b]`, or nothing without tags.
pub open spec fn tag_badge(tags: Option<Seq<String>>) -> Seq<char> {
    match tags {
        Some(t) if t.len() > 0 => " ["@ + join_with(texts(t), ", "@) + "]"@,
        _ => Seq::empty(),
    }
}

/// The year of a paper as shown, or `-`.
pub open spec fn shown_year(y: Option<i64>) -> Seq<char> {
    match y {
        Some(v) => dec_int(v as int),
        None => "-"@,
    }
}

/// The check box in front of a title in visual mode: `[x] ` for a picked
/// paper, `[ ] ` otherwise, nothing outside visual mode.
pub open spec fn visual_mark(mark: Option<bool>) -> Seq<char> {
    match mark {
        Some(true) => "[x] "@,
        Some(false) => "[ ] "@,
        None => Seq::empty(),
    }
}

/// The three cells of a paper's row: the marker, the visual-mode check box,
/// the title (or `[Untitled]`) and its tag badge; the authors (or `-`); the
/// year (or `-`).
pub open spec fn paper_cells(p: Paper, tags: Option<Seq<String>>, selected: bool, mark: Option<bool>) -> (Seq<char>, Seq<char>, Seq<char>) {
    (
        row_prefix(selected) + visual_mark(mark) + text_or(p.title, "[Untitled]"@) + tag_badge(tags),
        text_or(p.authors, "-"@),
        shown_year(p.year),
    )
}

fn year_exec(y: Option<i64>) -> (r: String)
    ensures
        r@ == shown_year(y),
{
    match y {
        Some(v) => i64_to_string(v),
        None => owned("-"),
    }
}

/// The cells the papers panel shows for `p`, whose tags are `tags`; `mark`
/// is whether the paper is picked, in visual mode only.
pub fn paper_row(p: &Paper, tags: Option<&Vec<String>>, selected: bool, mark: Option<bool>) -> (r: (String, String, String))
    ensures
        (r.0@, r.1@, r.2@) == paper_cells(
            *p,
            match tags {
                Some(t) => Some(t@),
                None => None,
            },
            selected,
            mark,
        ),
{
    let mut title = prefix_exec(selected);
    match mark {
        Some(true) => string_push_str(&mut title, "[x] "),
        Some(false) => string_push_str(&mut title, "[ ] "),
        None => {
            assert(title@ + Seq::<char>::empty() =~= title@);
        },
    }
    let t = text_or_exec(&p.title, "[Untitled]");
    string_push_str(&mut title, t.as_str());
    match tags {
        Some(ts) => {
            if ts.len() > 0 {
                string_push_str(&mut title, " [");
                let joined = join_tags(ts, ", ");
                string_push_str(&mut title, joined.as_str());
                string_push_str(&mut title, "]");
            } else {
                assert(title@ + Seq::<char>::empty() =~= title@);
            }
        },
        None => {
            assert(title@ + Seq::<char>::empty() =~= title@);
        },
    }
    let authors = text_or_exec(&p.authors, "-");
    let year = year_exec(p.year);
    (title, authors, year)
}

/// The title of the papers panel: `Papers`, and in visual mode how many
/// papers are picked.
pub open spec fn papers_title_text(visual: bool, picked: nat) -> Seq<char> {
    if visual {
        "Papers -- VISUAL ("@ + dec_nat(picked) + " selected) --"@
    } else {
        "Papers"@
    }
}

/// The title the papers panel shows.
pub fn papers_title(visual: bool, picked: usize) -> (s: String)
    ensures
        s@ == papers_title_text(visual, picked as nat),
{
    if visual {
        let mut s = owned("Papers -- VISUAL (");
        let n = usize_to_string(picked);
        string_push_str(&mut s, n.as_str());
        string_push_str(&mut s, " selected) --");
        s
    } else {
        owned("Papers")
    }
}

/// The title the collections panel shows: `Collections · i/n`, where `i`
/// counts the selected collection from one (zero without collections).
pub fn collections_title(selected: usize, total: usize) -> (s: String)
    requires
        selected < usize::MAX,
    ensures
        s@ == "Collections · "@ + dec_nat(if total > 0 { selected as nat + 1 } else { 0 }) + "/"@
            + dec_nat(total as nat),
{
    let mut s = owned("Collections · ");
    let i = toc_position(selected, total);
    string_push_str(&mut s, usize_to_string(i).as_str());
    string_push_str(&mut s, "/");
    string_push_str(&mut s, usize_to_string(total).as_str());
    s
}

// ---------------------------------------------------------- details panel

/// The tags of the selected paper as shown: joined by `, `, or `-`.
pub open spec fn tags_text(tags: Seq<String>) -> Seq<char> {
    if tags.len() == 0 {
        "-"@
    } else {
        join_with(texts(tags), ", "@)
    }
}

/// The values the details panel lists for a paper, in order: title,
/// authors, year, journal, DOI, content hash, file path, abstract, tags.
pub open spec fn detail_values(p: Paper, tags: Seq<String>) -> Seq<Seq<char>> {
    seq![
        text_or(p.title, "[Untitled]"@),
        text_or(p.authors, "-"@),
        shown_year(p.year),
        text_or(p.journal, "-"@),
        text_or(p.doi, "-"@),
        p.content_hash@,
        p.file_path@,
        text_or(p.abstract_text, "-"@),
        tags_text(tags),
    ]
}

/// The values the details panel lists for `p`, whose tags are `tags`.
pub fn paper_details(p: &Paper, tags: &Vec<String>) -> (v: Vec<String>)
    ensures
        texts(v@) == detail_values(*p, tags@),
{
    let mut v: Vec<String> = Vec::new();
    v.push(text_or_exec(&p.title, "[Untitled]"));
    v.push(text_or_exec(&p.authors, "-"));
    v.push(year_exec(p.year));
    v.push(text_or_exec(&p.journal, "-"));
    v.push(text_or_exec(&p.doi, "-"));
    v.push(p.content_hash.clone());
    v.push(p.file_path.clone());
    v.push(text_or_exec(&p.abstract_text, "-"));
    if tags.len() == 0 {
        v.push(owned("-"));
    } else {
        v.push(join_tags(tags, ", "));
    }
    assert(texts(v@) =~= detail_values(*p, tags@));
    v
}

/// How far the details panel scrolls: while it is active and the paper has
/// entries, far enough that the selected entry's line (after the
/// `line_count - toc_count` lines before the entries) sits two lines above
/// the bottom once it would fall out of the `height - 2` visible lines.
pub open spec fn details_scroll_spec(
    line_count: int,
    toc_count: int,
    selected_toc: int,
    height: int,
    active: bool,
) -> int {
    let visible = if height >= 2 { height - 2 } else { 0 };
    let before = if line_count >= toc_count { line_count - toc_count } else { 0 };
    let current = before + selected_toc;
    if active && toc_count > 0 && current >= visible {
        current - visible + 2
    } else {
        0
    }
}

/// The scroll of the details panel, `height` rows high, which holds
/// `line_count` lines of which the last `toc_count` are entries.
pub fn details_scroll(line_count: usize, toc_count: usize, selected_toc: usize, height: u16, active: bool) -> (r: u16)
    requires
        line_count + selected_toc + 2 <= usize::MAX,
    ensures
        r == details_scroll_spec(
            line_count as int,
            toc_count as int,
            selected_toc as int,
            height as int,
            active,
        ) as u16,
{
    let visible: usize = if height >= 2 {
        (height - 2) as usize
    } else {
        0
    };
    if active && toc_count > 0 {
        let before: usize = if line_count >= toc_count {
            line_count - toc_count
        } else {
            0
        };
        let current = before + selected_toc;
        if current >= visible {
            let s = current - visible + 2;
            return s as u16;
        }
    }
    0
}

// ---------------------------------------------------- table of contents

/// The depth of an entry given the depths of the entries before it: none
/// for a root, one more than its parent's otherwise (a parent not seen yet
/// counts as a root).
pub open spec fn entry_level(m: Map<u128, int>, e: TocEntry) -> int {
    match e.parent_id {
        None => 0,
        Some(p) => if m.contains_key(p) {
            m[p] + 1
        } else {
            1
        },
    }
}

/// The depth recorded for each id after going through the entries in order;
/// a later entry with the same id replaces an earlier one.
pub open spec fn toc_level_map(s: Seq<TocEntry>) -> Map<u128, int>
    decreases s.len(),
{
    if s.len() == 0 {
        Map::empty()
    } else {
        let m = toc_level_map(s.drop_last());
        m.insert(s.last().id, entry_level(m, s.last()))
    }
}

/// The depth at which the entry at `i` is drawn.
pub open spec fn toc_level(s: Seq<TocEntry>, i: int) -> int {
    toc_level_map(s)[s[i].id]
}

#[verifier::spinoff_prover]
proof fn lemma_level_map_keys(s: Seq<TocEntry>)
    ensures
        forall|k: u128| #[trigger] toc_level_map(s).contains_key(k) <==> exists|j: int|
            0 <= j < s.len() && s[j].id == k,
        forall|k: u128| #[trigger] toc_level_map(s).contains_key(k) ==> 0 <= toc_level_map(s)[k] <= s.len(),
    decreases s.len(),
{
    if s.len() > 0 {
        let t = s.drop_last();
        let m = toc_level_map(t);
        let e = s.last();
        lemma_level_map_keys(t);
        assert(toc_level_map(s) == m.insert(e.id, entry_level(m, e)));
        assert(0 <= entry_level(m, e) <= s.len()) by {
            match e.parent_id {
                Some(p) => {
                    if m.contains_key(p) {
                        assert(m[p] <= t.len());
                    }
                },
                None => {},
            }
        }
        assert forall|k: u128| #[trigger] toc_level_map(s).contains_key(k) implies exists|j: int|
            0 <= j < s.len() && s[j].id == k by {
            if k == e.id {
                assert(s[s.len() - 1].id == k);
            } else {
                assert(m.contains_key(k));
                let j = choose|j: int| 0 <= j < t.len() && t[j].id == k;
                assert(s[j].id == k);
            }
        }
        assert forall|k: u128| (exists|j: int| 0 <= j < s.len() && s[j].id == k) implies #[trigger] toc_level_map(s).contains_key(k) by {
            let j = choose|j: int| 0 <= j < s.len() && s[j].id == k;
            if j < s.len() - 1 {
                assert(t[j].id == k);
                assert(m.contains_key(k));
            } else {
                assert(k == e.id);
            }
        }
        assert forall|k: u128| #[trigger] toc_level_map(s).contains_key(k) implies 0 <= toc_level_map(s)[k] <= s.len() by {
            if k != e.id {
                assert(m.contains_key(k));
            }
        }
    }
}

/// The depth of each entry, in order.
pub fn toc_levels(entries: &Vec<TocEntry>) -> (r: Vec<usize>)
    ensures
        r@.len() == entries@.len(),
        forall|i: int| 0 <= i < r@.len() ==> r@[i] as int == toc_level(entries@, i),
{
    let mut m: KeyMap<u128, usize> = KeyMap::new();
    let mut i: usize = 0;
    while i < entries.len()
        invariant
            i <= entries@.len(),
            forall|k: u128| #[trigger] m@.contains_key(k) <==> toc_level_map(entries@.take(i as int)).contains_key(k),
            forall|k: u128| #[trigger] m@.contains_key(k) ==> m@[k] as int == toc_level_map(entries@.take(i as int))[k],
            forall|k: u128| #[trigger] m@.contains_key(k) ==> m@[k] <= i,
        decreases entries@.len() - i,
    {
        proof {
            lemma_level_map_keys(entries@.take(i as int));
        }
        let ghost before = toc_level_map(entries@.take(i as int));
        let e = &entries[i];
        let lv: usize = match e.parent_id {
            None => 0,
            Some(p) => match m.get(&p) {
                Some(v) => *v + 1,
                None => 1,
            },
        };
        assert(lv as int == entry_level(before, entries@[i as int]));
        m.insert(e.id, lv);
        assert(entries@.take(i + 1).drop_last() =~= entries@.take(i as int));
        i = i + 1;
    }
    assert(entries@.take(entries@.len() as int) =~= entries@);
    proof {
        lemma_level_map_keys(entries@);
    }
    let mut r: Vec<usize> = Vec::new();
    let mut j: usize = 0;
    while j < entries.len()
        invariant
            j <= entries@.len(),
            r@.len() == j,
            forall|k: u128| #[trigger] m@.contains_key(k) <==> toc_level_map(entries@).contains_key(k),
            forall|k: u128| #[trigger] m@.contains_key(k) ==> m@[k] as int == toc_level_map(entries@)[k],
            forall|a: int| 0 <= a < j ==> r@[a] as int == toc_level(entries@, a),
            forall|k: u128| #[trigger] toc_level_map(entries@).contains_key(k) <==> exists|a: int|
                0 <= a < entries@.len() && entries@[a].id == k,
        decreases entries@.len() - j,
    {
        let id = entries[j].id;
        assert(toc_level_map(entries@).contains_key(id));
        let v = match m.get(&id) {
            Some(v) => *v,
            None => 0,
        };
        r.push(v);
        j = j + 1;
    }
    r
}

/// With distinct ids, a root entry is drawn at depth zero.
pub proof fn lemma_toc_root_level(s: Seq<TocEntry>, i: int)
    requires
        0 <= i < s.len(),
        forall|a: int, b: int| 0 <= a < b < s.len() ==> s[a].id != s[b].id,
        s[i].parent_id is None,
    ensures
        toc_level(s, i) == 0,
{
    lemma_level_settled(s, i, s.len() as int);
    assert(s.take(s.len() as int) =~= s);
}

/// With distinct ids, an entry whose parent comes before it is drawn one
/// level deeper than its parent.
pub proof fn lemma_toc_child_level(s: Seq<TocEntry>, i: int, j: int)
    requires
        0 <= j < i < s.len(),
        forall|a: int, b: int| 0 <= a < b < s.len() ==> s[a].id != s[b].id,
        s[i].parent_id == Some(s[j].id),
    ensures
        toc_level(s, i) == toc_level(s, j) + 1,
{
    lemma_level_settled(s, i, s.len() as int);
    lemma_level_settled(s, j, s.len() as int);
    lemma_level_settled(s, j, i);
    assert(s.take(s.len() as int) =~= s);
}

/// With distinct ids, once the entry at `i` has been gone through, its depth
/// stays what it was set to.
proof fn lemma_level_settled(s: Seq<TocEntry>, i: int, k: int)
    requires
        0 <= i < k <= s.len(),
        forall|a: int, b: int| 0 <= a < b < s.len() ==> s[a].id != s[b].id,
    ensures
        toc_level_map(s.take(k)).contains_key(s[i].id),
        toc_level_map(s.take(k))[s[i].id] == entry_level(toc_level_map(s.take(i)), s[i]),
    decreases k,
{
    let t = s.take(k);
    assert(t.drop_last() =~= s.take(k - 1));
    assert(t.last() == s[k - 1]);
    if k - 1 > i {
        lemma_level_settled(s, i, k - 1);
        assert(s[k - 1].id != s[i].id);
    } else {
        assert(k - 1 == i);
    }
}

/// The line of an entry in the details panel: the marker, two spaces per
/// level, `- `, the title, the page and the source.
pub open spec fn details_toc_row(e: TocEntry, level: nat, selected: bool) -> Seq<char> {
    row_prefix(selected) + repeated("  "@, level) + "- "@ + e.title@ + " (p. "@ + dec_nat(
        e.page_number as nat,
    ) + ")"@ + " ["@ + toc_source_label(e.source) + "]"@
}

/// The line the details panel shows for an entry at depth `level`.
pub fn details_toc_line(e: &TocEntry, level: usize, selected: bool) -> (s: String)
    ensures
        s@ == details_toc_row(*e, level as nat, selected),
{
    let mut s = prefix_exec(selected);
    push_repeated(&mut s, "  ", level);
    string_push_str(&mut s, "- ");
    string_push_str(&mut s, e.title.as_str());
    push_page_and_source(&mut s, e);
    s
}

fn push_page_and_source(s: &mut String, e: &TocEntry)
    ensures
        final(s)@ == old(s)@ + " (p. "@ + dec_nat(e.page_number as nat) + ")"@ + " ["@
            + toc_source_label(e.source) + "]"@,
{
    string_push_str(s, " (p. ");
    let page = u32_to_string(e.page_number);
    string_push_str(s, page.as_str());
    string_push_str(s, ")");
    string_push_str(s, " [");
    string_push_str(s, e.source.as_str());
    string_push_str(s, "]");
}

/// The line of an entry in the full-screen view: `▶ ` for the selected one,
/// four spaces per level, the title, a space, the page and the source.
pub open spec fn fullscreen_toc_row(e: TocEntry, level: nat, selected: bool) -> Seq<char> {
    (if selected {
        "▶ "@
    } else {
        "  "@
    }) + repeated("    "@, level) + e.title@ + " "@ + " (p. "@ + dec_nat(e.page_number as nat)
        + ")"@ + " ["@ + toc_source_label(e.source) + "]"@
}

/// The line the full-screen view shows for an entry at depth `level`.
pub fn fullscreen_toc_line(e: &TocEntry, level: usize, selected: bool) -> (s: String)
    ensures
        s@ == fullscreen_toc_row(*e, level as nat, selected),
{
    let mut s = if selected {
        owned("▶ ")
    } else {
        owned("  ")
    };
    push_repeated(&mut s, "    ", level);
    string_push_str(&mut s, e.title.as_str());
    string_push_str(&mut s, " ");
    push_page_and_source(&mut s, e);
    s
}

/// The first entry the full-screen view shows, `visible` rows high: the
/// kept offset while the selected entry is within it, else just far enough
/// to show the selected entry.
pub open spec fn fullscreen_scroll_spec(selected: int, offset: int, visible: int) -> int {
    if selected < offset {
        selected
    } else if selected >= offset + visible {
        (if selected >= visible {
            selected - visible
        } else {
            0
        }) + 1
    } else {
        offset
    }
}

/// The first entry the full-screen view shows.
pub fn fullscreen_toc_scroll(selected: usize, offset: usize, visible: usize) -> (r: usize)
    requires
        offset + visible <= usize::MAX,
        selected < usize::MAX,
    ensures
        r == fullscreen_scroll_spec(selected as int, offset as int, visible as int),
        visible > 0 ==> r <= selected < r + visible,
{
    if selected < offset {
        selected
    } else if selected >= offset + visible {
        let base: usize = if selected >= visible {
            selected - visible
        } else {
            0
        };
        base + 1
    } else {
        offset
    }
}

/// The position shown as `[position/total]`: the selected entry counted
/// from one, or zero without entries.
pub fn toc_position(selected: usize, total: usize) -> (r: usize)
    requires
        selected < usize::MAX,
    ensures
        r == (if total > 0 {
            selected + 1
        } else {
            0
        }),
{
    if total > 0 {
        selected + 1
    } else {
        0
    }
}

// ----------------------------------------------------------------- modals

/// Where a box of `size` starts so that it is centred in `outer`.
pub fn centered_start(outer: u16, size: u16) -> (r: u16)
    ensures
        r == (if outer >= size {
            (outer - size) / 2
        } else {
            0
        }),
{
    if outer >= size {
        (outer - size) / 2
    } else {
        0
    }
}

// ------------------------------------------------------------ status bar

/// The hint the status bar shows for each panel when nothing else is going on.
pub open spec fn panel_hint(p: ActivePanel) -> Seq<char> {
    match p {
        ActivePanel::Collections => " [Collections] j/k: Nav | a/A: New/Sub | r: Rename | E: Export | d: Del | Tab/BackTab: Switch | ?: Help | q: Quit"@,
        ActivePanel::Papers => " [Papers] j/k: Nav | Enter: Open | t: TOC | T: Tags | a: Add | e: Edit | m: JSON | d: Del | Tab/BackTab: Switch | ?: Help | q: Quit"@,
        ActivePanel::Details => " [Details/TOC] j/k: Nav | Enter: Jump | t: Fullscreen | a/e/d: Edit | H/L: Indent | Tab/BackTab: Switch | ?: Help | q: Quit"@,
    }
}

/// The text of the status bar: a pending message first, then the hint of
/// the first open mode (help, rename, export, metadata import, add paper,
/// full-screen contents, delete confirmation, tags, search), then the
/// active filter, then the hint of the focused panel.
pub open spec fn status_text(a: App) -> Seq<char> {
    match a.status_message {
        Some(m) => " "@ + m@ + " | Tab: Switch panel | ?: Help | q: Quit"@,
        None => if a.is_showing_help {
            " Help Mode | Esc / q / ?: Close Help"@
        } else if a.is_renaming_collection {
            " Rename Collection | Enter: Confirm | Esc: Cancel"@
        } else if a.is_exporting_collection {
            " Export Collection | Enter: Export | Tab: Autocomplete | Esc: Cancel"@
        } else if a.is_importing_metadata {
            " Import Metadata | Enter: Import | Tab: Autocomplete | Esc: Cancel"@
        } else if a.is_adding_paper {
            " Add Paper | Enter: Import | Tab: Autocomplete | Esc: Cancel"@
        } else if a.is_viewing_fullscreen_toc {
            " Fullscreen TOC | j/k: Scroll | Enter: Jump to page | Esc/q/t: Exit TOC | ?: Help"@
        } else if a.is_confirming_delete {
            " Confirm Delete | Enter: Delete permanently | Esc / q: Cancel"@
        } else if a.is_editing_tags {
            " Edit Tags | Enter: Save tags | Esc: Cancel"@
        } else if a.is_searching {
            " Search Mode | Type to filter (title/tags) | Tab: Cycle collection | Enter: Done | Esc: Cancel"@
        } else if a.search_query@.len() > 0 {
            " Filtered: '"@ + a.search_query@ + "' ("@ + dec_nat(a.papers@.len()) + " papers) | Esc: Clear filter | /: Edit search | Tab: Switch panel | ?: Help | q: Quit"@
        } else {
            panel_hint(a.active_panel)
        },
    }
}

fn panel_hint_exec(p: ActivePanel) -> (r: String)
    ensures
        r@ == panel_hint(p),
{
    match p {
        ActivePanel::Collections => owned(" [Collections] j/k: Nav | a/A: New/Sub | r: Rename | E: Export | d: Del | Tab/BackTab: Switch | ?: Help | q: Quit"),
        ActivePanel::Papers => owned(" [Papers] j/k: Nav | Enter: Open | t: TOC | T: Tags | a: Add | e: Edit | m: JSON | d: Del | Tab/BackTab: Switch | ?: Help | q: Quit"),
        ActivePanel::Details => owned(" [Details/TOC] j/k: Nav | Enter: Jump | t: Fullscreen | a/e/d: Edit | H/L: Indent | Tab/BackTab: Switch | ?: Help | q: Quit"),
    }
}

fn mode_hint(a: &App) -> (r: String)
    requires
        a.status_message is None,
    ensures
        r@ == status_text(*a),
{
    if a.is_showing_help {
        owned(" Help Mode | Esc / q / ?: Close Help")
    } else if a.is_renaming_collection {
        owned(" Rename Collection | Enter: Confirm | Esc: Cancel")
    } else if a.is_exporting_collection {
        owned(" Export Collection | Enter: Export | Tab: Autocomplete | Esc: Cancel")
    } else if a.is_importing_metadata {
        owned(" Import Metadata | Enter: Import | Tab: Autocomplete | Esc: Cancel")
    } else if a.is_adding_paper {
        owned(" Add Paper | Enter: Import | Tab: Autocomplete | Esc: Cancel")
    } else if a.is_viewing_fullscreen_toc {
        owned(" Fullscreen TOC | j/k: Scroll | Enter: Jump to page | Esc/q/t: Exit TOC | ?: Help")
    } else if a.is_confirming_delete {
        owned(" Confirm Delete | Enter: Delete permanently | Esc / q: Cancel")
    } else if a.is_editing_tags {
        owned(" Edit Tags | Enter: Save tags | Esc: Cancel")
    } else if a.is_searching {
        owned(" Search Mode | Type to filter (title/tags) | Tab: Cycle collection | Enter: Done | Esc: Cancel")
    } else if a.search_query.as_str().unicode_len() > 0 {
        let mut s = owned(" Filtered: '");
        string_push_str(&mut s, a.search_query.as_str());
        string_push_str(&mut s, "' (");
        let n = usize_to_string(a.papers.len());
        string_push_str(&mut s, n.as_str());
        string_push_str(&mut s, " papers) | Esc: Clear filter | /: Edit search | Tab: Switch panel | ?: Help | q: Quit");
        s
    } else {
        panel_hint_exec(a.active_panel)
    }
}

impl App {
    /// The text of the status bar.
    pub fn status_line(&self) -> (r: String)
        ensures
            r@ == status_text(*self),
    {
        match &self.status_message {
            Some(m) => {
                let mut s = owned(" ");
                string_push_str(&mut s, m.as_str());
                string_push_str(&mut s, " | Tab: Switch panel | ?: Help | q: Quit");
                s
            },
            None => mode_hint(self),
        }
    }

    /// The collection the search bar names: the one the search is scoped
    /// to (the last one when the index runs past the end), or `All Papers`
    /// without collections.
    pub fn search_scope_name(&self) -> (r: String)
        ensures
            r@ == (if self.collections@.len() > 0 {
                self.collections@[if self.search_collection_index < self.collections@.len() {
                    self.search_collection_index as int
                } else {
                    self.collections@.len() - 1
                }].name@
            } else {
                "All Papers"@
            }),
    {
        if self.collections.len() > 0 {
            let last = self.collections.len() - 1;
            let idx = if self.search_collection_index < last {
                self.search_collection_index
            } else {
                last
            };
            self.collections[idx].name.clone()
        } else {
            owned("All Papers")
        }
    }

    /// The floating window drawn over the panels, if any.
    pub fn overlay(&self) -> (r: Overlay)
        ensures
            r == overlay_of(*self),
    {
        if self.active_picker.is_some() {
            Overlay::Picker
        } else if self.is_creating_collection {
            Overlay::CreateCollection
        } else if self.is_renaming_collection {
            Overlay::RenameCollection
        } else if self.is_exporting_collection {
            Overlay::ExportCollection
        } else if self.is_importing_metadata {
            Overlay::ImportMetadata
        } else if self.is_adding_paper {
            Overlay::AddPaper
        } else if self.is_editing_metadata {
            Overlay::EditMetadata
        } else if self.toc_edit_state.is_some() {
            Overlay::EditToc
        } else if self.toc_import_state.is_some() {
            Overlay::ImportToc
        } else if self.is_editing_tags {
            Overlay::EditTags
        } else if self.is_confirming_delete {
            Overlay::ConfirmDelete
        } else if self.is_showing_help {
            Overlay::Help
        } else {
            Overlay::Nothing
        }
    }
}

/// The floating windows, in the order in which one hides the next.
#[derive(Debug, Clone, Copy, PartialEq, Eq, Structural)]
pub enum Overlay {
    Picker,
    CreateCollection,
    RenameCollection,
    ExportCollection,
    ImportMetadata,
    AddPaper,
    EditMetadata,
    EditToc,
    ImportToc,
    EditTags,
    ConfirmDelete,
    Help,
    Nothing,
}

/// The floating window of a state: the first that is open, in the order of
/// `Overlay`.
pub open spec fn overlay_of(a: App) -> Overlay {
    if a.active_picker is Some {
        Overlay::Picker
    } else if a.is_creating_collection {
        Overlay::CreateCollection
    } else if a.is_renaming_collection {
        Overlay::RenameCollection
    } else if a.is_exporting_collection {
        Overlay::ExportCollection
    } else if a.is_importing_metadata {
        Overlay::ImportMetadata
    } else if a.is_adding_paper {
        Overlay::AddPaper
    } else if a.is_editing_metadata {
        Overlay::EditMetadata
    } else if a.toc_edit_state is Some {
        Overlay::EditToc
    } else if a.toc_import_state is Some {
        Overlay::ImportToc
    } else if a.is_editing_tags {
        Overlay::EditTags
    } else if a.is_confirming_delete {
        Overlay::ConfirmDelete
    } else if a.is_showing_help {
        Overlay::Help
    } else {
        Overlay::Nothing
    }
}

} // verus!
