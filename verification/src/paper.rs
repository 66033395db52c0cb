//! Library records shown by the interface: papers and table-of-contents
//! entries.
use vstd::prelude::*;

verus! {

/// A paper of the library.
#[derive(Debug)]
pub struct Paper {
    pub id: u128,
    pub file_path: String,
    pub content_hash: String,
    pub title: Option<String>,
    pub authors: Option<String>,
    pub year: Option<i64>,
    pub journal: Option<String>,
    pub doi: Option<String>,
    pub abstract_text: Option<String>,
    pub text_path: Option<String>,
    pub annotated_pdf_path: Option<String>,
    pub toc_embedded_at: Option<String>,
    pub created_at: String,
    pub updated_at: String,
}

/// A copy of an optional string.
pub fn clone_opt(s: &Option<String>) -> (r: Option<String>)
    ensures
        r == *s,
{
    match s {
        Some(v) => Some(v.clone()),
        None => None,
    }
}

impl Clone for Paper {
    fn clone(&self) -> (r: Self)
        ensures
            r == *self,
    {
        Paper {
            id: self.id,
            file_path: self.file_path.clone(),
            content_hash: self.content_hash.clone(),
            title: clone_opt(&self.title),
            authors: clone_opt(&self.authors),
            year: self.year,
            journal: clone_opt(&self.journal),
            doi: clone_opt(&self.doi),
            abstract_text: clone_opt(&self.abstract_text),
            text_path: clone_opt(&self.text_path),
            annotated_pdf_path: clone_opt(&self.annotated_pdf_path),
            toc_embedded_at: clone_opt(&self.toc_embedded_at),
            created_at: self.created_at.clone(),
            updated_at: self.updated_at.clone(),
        }
    }
}

/// Where a table-of-contents entry came from.
#[derive(Debug, Clone, Copy, PartialEq, Eq, Structural)]
pub enum TocSource {
    Manual,
    PdfOutline,
    TextFile,
    JsonFile,
}

impl TocSource {
    /// Short label shown next to an entry.
    pub fn as_str(&self) -> (s: &'static str)
        ensures
            s@ == toc_source_label(*self),
    {
        match self {
            TocSource::Manual => "manual",
            TocSource::PdfOutline => "pdf",
            TocSource::TextFile => "text",
            TocSource::JsonFile => "json",
        }
    }
}

/// The label of each source.
pub open spec fn toc_source_label(s: TocSource) -> Seq<char> {
    match s {
        TocSource::Manual => "manual"@,
        TocSource::PdfOutline => "pdf"@,
        TocSource::TextFile => "text"@,
        TocSource::JsonFile => "json"@,
    }
}

/// An entry of a paper's table of contents.
#[derive(Debug)]
pub struct TocEntry {
    pub id: u128,
    pub paper_id: u128,
    pub parent_id: Option<u128>,
    pub title: String,
    pub page_number: u32,
    pub order_index: i32,
    pub source: TocSource,
    pub created_at: String,
    pub updated_at: String,
}

impl Clone for TocEntry {
    fn clone(&self) -> (r: Self)
        ensures
            r == *self,
    {
        TocEntry {
            id: self.id,
            paper_id: self.paper_id,
            parent_id: self.parent_id,
            title: self.title.clone(),
            page_number: self.page_number,
            order_index: self.order_index,
            source: self.source,
            created_at: self.created_at.clone(),
            updated_at: self.updated_at.clone(),
        }
    }
}

/// A copy of a list of papers.
pub fn clone_papers(v: &Vec<Paper>) -> (r: Vec<Paper>)
    ensures
        r@ == v@,
{
    let mut r: Vec<Paper> = Vec::new();
    let mut i: usize = 0;
    while i < v.len()
        invariant
            i <= v@.len(),
            r@ =~= v@.subrange(0, i as int),
        decreases v@.len() - i,
    {
        r.push(v[i].clone());
        i = i + 1;
    }
    assert(r@ =~= v@);
    r
}

/// A copy of a list of table-of-contents entries.
pub fn clone_tocs(v: &Vec<TocEntry>) -> (r: Vec<TocEntry>)
    ensures
        r@ == v@,
{
    let mut r: Vec<TocEntry> = Vec::new();
    let mut i: usize = 0;
    while i < v.len()
        invariant
            i <= v@.len(),
            r@ =~= v@.subrange(0, i as int),
        decreases v@.len() - i,
    {
        r.push(v[i].clone());
        i = i + 1;
    }
    assert(r@ =~= v@);
    r
}

/// A copy of a list of strings.
pub fn clone_strings(v: &Vec<String>) -> (r: Vec<String>)
    ensures
        r@ == v@,
{
    let mut r: Vec<String> = Vec::new();
    let mut i: usize = 0;
    while i < v.len()
        invariant
            i <= v@.len(),
            r@ =~= v@.subrange(0, i as int),
        decreases v@.len() - i,
    {
        r.push(v[i].clone());
        i = i + 1;
    }
    assert(r@ =~= v@);
    r
}

} // verus!
