//! State of the table-of-contents modals: adding and editing one entry,
//! and importing a whole outline.
use vstd::prelude::*;
use crate::paper::clone_opt;

verus! {

/// Source type selector in TOC import modal.
#[derive(Debug, Clone, Copy, PartialEq, Eq, Structural)]
pub enum TocImportSourceType {
    PdfOutline,
    TextFile,
    JsonFile,
}

/// Position of a source type in the selector (0, 1, 2).
pub open spec fn source_pos(t: TocImportSourceType) -> int {
    match t {
        TocImportSourceType::PdfOutline => 0,
        TocImportSourceType::TextFile => 1,
        TocImportSourceType::JsonFile => 2,
    }
}

/// The source type at position `i`, taken modulo 3.
pub open spec fn source_at(i: int) -> TocImportSourceType {
    let j = i % 3;
    if j == 0 {
        TocImportSourceType::PdfOutline
    } else if j == 1 {
        TocImportSourceType::TextFile
    } else {
        TocImportSourceType::JsonFile
    }
}

/// The label shown for a source type.
pub open spec fn source_name(t: TocImportSourceType) -> Seq<char> {
    match t {
        TocImportSourceType::PdfOutline => "PDF Outline (internal)"@,
        TocImportSourceType::TextFile => "Indented Text File"@,
        TocImportSourceType::JsonFile => "JSON File"@,
    }
}

impl Default for TocImportSourceType {
    fn default() -> (t: Self)
        ensures
            t == TocImportSourceType::PdfOutline,
    {
        TocImportSourceType::PdfOutline
    }
}

impl TocImportSourceType {
    /// The next source in the cycle PDF outline, text file, JSON file.
    pub fn next(self) -> (r: Self)
        ensures
            r == source_at(source_pos(self) + 1),
    {
        match self {
            TocImportSourceType::PdfOutline => TocImportSourceType::TextFile,
            TocImportSourceType::TextFile => TocImportSourceType::JsonFile,
            TocImportSourceType::JsonFile => TocImportSourceType::PdfOutline,
        }
    }

    /// The previous source in the cycle.
    pub fn prev(self) -> (r: Self)
        ensures
            r == source_at(source_pos(self) + 2),
    {
        match self {
            TocImportSourceType::PdfOutline => TocImportSourceType::JsonFile,
            TocImportSourceType::TextFile => TocImportSourceType::PdfOutline,
            TocImportSourceType::JsonFile => TocImportSourceType::TextFile,
        }
    }

    /// The label shown in the import modal.
    pub fn name(self) -> (s: &'static str)
        ensures
            s@ == source_name(self),
    {
        proof {
            reveal_strlit("PDF Outline (internal)");
            reveal_strlit("Indented Text File");
            reveal_strlit("JSON File");
        }
        match self {
            TocImportSourceType::PdfOutline => "PDF Outline (internal)",
            TocImportSourceType::TextFile => "Indented Text File",
            TocImportSourceType::JsonFile => "JSON File",
        }
    }
}

/// `prev` undoes `next` and the reverse; three steps of `next` come back to
/// the start.
pub proof fn lemma_source_cycle(t: TocImportSourceType)
    ensures
        source_at(source_pos(source_at(source_pos(t) + 1)) + 2) == t,
        source_at(source_pos(source_at(source_pos(t) + 2)) + 1) == t,
        source_at(source_pos(source_at(source_pos(source_at(source_pos(t) + 1)) + 1)) + 1) == t,
{
}

/// State of the TOC entry add/edit modal.
#[derive(Debug)]
pub struct TocEditState {
    /// Entry being edited, or `None` when adding a new one.
    pub entry_id: Option<u128>,
    /// Parent under which the entry is created.
    pub parent_id: Option<u128>,
    /// Title text buffer.
    pub title_buffer: String,
    /// Page number text buffer.
    pub page_buffer: String,
    /// Focused field (0 = title, 1 = page).
    pub active_field: usize,
}

impl Clone for TocEditState {
    fn clone(&self) -> (r: Self)
        ensures
            r == *self,
    {
        TocEditState {
            entry_id: self.entry_id,
            parent_id: self.parent_id,
            title_buffer: self.title_buffer.clone(),
            page_buffer: self.page_buffer.clone(),
            active_field: self.active_field,
        }
    }
}

/// State of the TOC import modal.
#[derive(Debug)]
pub struct TocImportState {
    /// Selected import source.
    pub source_type: TocImportSourceType,
    /// Path buffer for a text or JSON import.
    pub file_path_buffer: String,
    /// Whether to merge into the existing TOC rather than replace it.
    pub merge_mode: bool,
    /// Focused field (0 = source, 1 = file path, 2 = merge mode).
    pub active_field: usize,
    /// Error message of the last attempt, if it failed.
    pub error_message: Option<String>,
}

impl Clone for TocImportState {
    fn clone(&self) -> (r: Self)
        ensures
            r == *self,
    {
        TocImportState {
            source_type: self.source_type,
            file_path_buffer: self.file_path_buffer.clone(),
            merge_mode: self.merge_mode,
            active_field: self.active_field,
            error_message: clone_opt(&self.error_message),
        }
    }
}

} // verus!
