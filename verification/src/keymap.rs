//! The key map: which action a key press stands for, in each panel and in
//! each modal state of the application.
use vstd::prelude::*;
use crate::action::Action;
use crate::app::App;
use crate::keys::{KeyCode, KeyEvent, KeyModifiers};
use crate::navigation::Motion;
use crate::panel::{ActivePanel, LayoutMode};

verus! {

/// The value of a decimal digit character.
pub open spec fn digit_of(c: char) -> usize {
    (c as u32 - 48) as usize
}

/// Whether `c` is one of `1` to `9`.
pub open spec fn nonzero_digit(c: char) -> bool {
    '1' <= c && c <= '9'
}

fn digit_exec(c: char) -> (d: usize)
    requires
        '0' <= c <= '9',
    ensures
        d == digit_of(c),
        d <= 9,
{
    (c as u32 - 48) as usize
}

// ------------------------------------------------------------- normal mode

/// Control bindings that hold in every panel.
pub open spec fn ctrl_global(code: KeyCode) -> Option<Action> {
    match code {
        KeyCode::Char(c) => if c == 'c' || c == 'q' {
            Some(Action::Quit)
        } else if c == 'p' {
            Some(Action::QuickOpenModalOpen)
        } else if c == 'w' {
            Some(Action::ToggleLayoutMode)
        } else if c == 'd' {
            Some(Action::Motion(Motion::HalfPageDown))
        } else if c == 'u' {
            Some(Action::Motion(Motion::HalfPageUp))
        } else {
            None
        },
        _ => None,
    }
}

/// The action of a character key in a panel.
pub open spec fn char_key(c: char, panel: ActivePanel) -> Option<Action> {
    let coll = panel == ActivePanel::Collections;
    let papers = panel == ActivePanel::Papers;
    let details = panel == ActivePanel::Details;
    if c == 'h' {
        Some(Action::PanelLeft)
    } else if c == 'l' {
        Some(Action::PanelRight)
    } else if c == 'p' {
        Some(Action::QuickOpenModalOpen)
    } else if c == 'W' || c == 'z' {
        Some(Action::ToggleLayoutMode)
    } else if c == '}' {
        Some(Action::Motion(Motion::HalfPageDown))
    } else if c == '{' {
        Some(Action::Motion(Motion::HalfPageUp))
    } else if c == 'J' {
        if coll || papers { Some(Action::Motion(Motion::HalfPageDown)) } else { None }
    } else if c == 'K' {
        if coll || papers { Some(Action::Motion(Motion::HalfPageUp)) } else { None }
    } else if c == 'c' {
        if papers { Some(Action::CollectionMembershipModalOpen) } else { None }
    } else if c == 'S' {
        Some(Action::CyclePaperSort)
    } else if c == 'k' {
        Some(Action::MoveUp)
    } else if c == 'j' {
        Some(Action::MoveDown)
    } else if c == 'q' {
        Some(Action::Quit)
    } else if c == '/' || c == 's' {
        Some(Action::Search)
    } else if c == 'e' {
        Some(Action::EditMetadata)
    } else if c == '?' {
        Some(Action::HelpModalToggle)
    } else if c == 't' {
        if papers {
            Some(Action::TagModalOpen)
        } else if details {
            Some(Action::OpenFullscreenToc)
        } else {
            None
        }
    } else if c == 'V' {
        if papers { Some(Action::VisualModeToggle) } else { None }
    } else if c == 'T' {
        if papers { Some(Action::EditTagsModalOpen) } else { None }
    } else if c == 'd' {
        if coll {
            Some(Action::DeleteConfirmOpen)
        } else if papers {
            Some(Action::RemoveFromCollection)
        } else {
            None
        }
    } else if c == 'D' {
        if coll || papers { Some(Action::DeleteConfirmOpen) } else { None }
    } else if c == 'o' {
        if papers { Some(Action::Open) } else { None }
    } else if c == 'a' {
        if papers {
            Some(Action::AddPaperModalOpen)
        } else if coll {
            Some(Action::CreateCollectionModalOpen)
        } else {
            None
        }
    } else if c == 'A' {
        if coll { Some(Action::CreateSubcollectionModalOpen) } else { None }
    } else if c == 'r' {
        if coll { Some(Action::RenameCollectionModalOpen) } else { None }
    } else if c == 'E' {
        if coll { Some(Action::ExportCollectionModalOpen) } else { None }
    } else if c == 'm' {
        if papers { Some(Action::ImportMetadataModalOpen) } else { None }
    } else if c == '0' {
        Some(Action::Motion(Motion::First))
    } else if nonzero_digit(c) {
        Some(Action::CountDigit(digit_of(c)))
    } else if c == 'G' {
        Some(Action::Motion(Motion::Last))
    } else {
        None
    }
}

/// The action of a key in a panel, once no Control binding applied.
pub open spec fn panel_key(key: KeyEvent, panel: ActivePanel, toc_page: Option<u32>) -> Option<Action> {
    match key.code {
        KeyCode::Tab => if key.modifiers.shift {
            Some(Action::PreviousPanel)
        } else {
            Some(Action::NextPanel)
        },
        KeyCode::BackTab => Some(Action::PreviousPanel),
        KeyCode::Up => Some(Action::MoveUp),
        KeyCode::Down => Some(Action::MoveDown),
        KeyCode::Esc => Some(Action::SearchCancel),
        KeyCode::Enter => match panel {
            ActivePanel::Papers => Some(Action::Open),
            ActivePanel::Details => match toc_page {
                Some(p) => Some(Action::OpenAtPage(p)),
                None => None,
            },
            ActivePanel::Collections => Some(Action::FocusPapers),
        },
        KeyCode::Char(c) => char_key(c, panel),
        _ => None,
    }
}

/// The action of a key given the focused panel and the page of the selected
/// TOC entry: the Control bindings first, then the panel's keys.
pub open spec fn context_action(key: KeyEvent, panel: ActivePanel, toc_page: Option<u32>) -> Option<Action> {
    if key.modifiers.control && ctrl_global(key.code) is Some {
        ctrl_global(key.code)
    } else {
        panel_key(key, panel, toc_page)
    }
}

fn ctrl_global_exec(code: KeyCode) -> (r: Option<Action>)
    ensures
        r == ctrl_global(code),
{
    match code {
        KeyCode::Char(c) => if c == 'c' || c == 'q' {
            Some(Action::Quit)
        } else if c == 'p' {
            Some(Action::QuickOpenModalOpen)
        } else if c == 'w' {
            Some(Action::ToggleLayoutMode)
        } else if c == 'd' {
            Some(Action::Motion(Motion::HalfPageDown))
        } else if c == 'u' {
            Some(Action::Motion(Motion::HalfPageUp))
        } else {
            None
        },
        _ => None,
    }
}

fn char_key_exec(c: char, panel: ActivePanel) -> (r: Option<Action>)
    ensures
        r == char_key(c, panel),
{
    let coll = panel == ActivePanel::Collections;
    let papers = panel == ActivePanel::Papers;
    let details = panel == ActivePanel::Details;
    if c == 'h' {
        Some(Action::PanelLeft)
    } else if c == 'l' {
        Some(Action::PanelRight)
    } else if c == 'p' {
        Some(Action::QuickOpenModalOpen)
    } else if c == 'W' || c == 'z' {
        Some(Action::ToggleLayoutMode)
    } else if c == '}' {
        Some(Action::Motion(Motion::HalfPageDown))
    } else if c == '{' {
        Some(Action::Motion(Motion::HalfPageUp))
    } else if c == 'J' {
        if coll || papers { Some(Action::Motion(Motion::HalfPageDown)) } else { None }
    } else if c == 'K' {
        if coll || papers { Some(Action::Motion(Motion::HalfPageUp)) } else { None }
    } else if c == 'c' {
        if papers { Some(Action::CollectionMembershipModalOpen) } else { None }
    } else if c == 'S' {
        Some(Action::CyclePaperSort)
    } else if c == 'k' {
        Some(Action::MoveUp)
    } else if c == 'j' {
        Some(Action::MoveDown)
    } else if c == 'q' {
        Some(Action::Quit)
    } else if c == '/' || c == 's' {
        Some(Action::Search)
    } else if c == 'e' {
        Some(Action::EditMetadata)
    } else if c == '?' {
        Some(Action::HelpModalToggle)
    } else if c == 't' {
        if papers {
            Some(Action::TagModalOpen)
        } else if details {
            Some(Action::OpenFullscreenToc)
        } else {
            None
        }
    } else if c == 'V' {
        if papers { Some(Action::VisualModeToggle) } else { None }
    } else if c == 'T' {
        if papers { Some(Action::EditTagsModalOpen) } else { None }
    } else if c == 'd' {
        if coll {
            Some(Action::DeleteConfirmOpen)
        } else if papers {
            Some(Action::RemoveFromCollection)
        } else {
            None
        }
    } else if c == 'D' {
        if coll || papers { Some(Action::DeleteConfirmOpen) } else { None }
    } else if c == 'o' {
        if papers { Some(Action::Open) } else { None }
    } else if c == 'a' {
        if papers {
            Some(Action::AddPaperModalOpen)
        } else if coll {
            Some(Action::CreateCollectionModalOpen)
        } else {
            None
        }
    } else if c == 'A' {
        if coll { Some(Action::CreateSubcollectionModalOpen) } else { None }
    } else if c == 'r' {
        if coll { Some(Action::RenameCollectionModalOpen) } else { None }
    } else if c == 'E' {
        if coll { Some(Action::ExportCollectionModalOpen) } else { None }
    } else if c == 'm' {
        if papers { Some(Action::ImportMetadataModalOpen) } else { None }
    } else if c == '0' {
        Some(Action::Motion(Motion::First))
    } else if '1' <= c && c <= '9' {
        Some(Action::CountDigit(digit_exec(c)))
    } else if c == 'G' {
        Some(Action::Motion(Motion::Last))
    } else {
        None
    }
}

/// Maps a key press to an action given the focused panel and the page of
/// the selected TOC entry (when the Details panel shows one).
pub fn map_key_event_with_context(key: KeyEvent, active_panel: ActivePanel, selected_toc_page: Option<u32>) -> (r:
    Option<Action>)
    ensures
        r == context_action(key, active_panel, selected_toc_page),
{
    if key.modifiers.control {
        let g = ctrl_global_exec(key.code);
        if g.is_some() {
            return g;
        }
    }
    match key.code {
        KeyCode::Tab => if key.modifiers.shift {
            Some(Action::PreviousPanel)
        } else {
            Some(Action::NextPanel)
        },
        KeyCode::BackTab => Some(Action::PreviousPanel),
        KeyCode::Up => Some(Action::MoveUp),
        KeyCode::Down => Some(Action::MoveDown),
        KeyCode::Esc => Some(Action::SearchCancel),
        KeyCode::Enter => match active_panel {
            ActivePanel::Papers => Some(Action::Open),
            ActivePanel::Details => match selected_toc_page {
                Some(p) => Some(Action::OpenAtPage(p)),
                None => None,
            },
            ActivePanel::Collections => Some(Action::FocusPapers),
        },
        KeyCode::Char(c) => char_key_exec(c, active_panel),
        _ => None,
    }
}

/// Maps a key press to an action with the Papers panel focused.
pub fn map_key_event(key: KeyEvent) -> (r: Option<Action>)
    ensures
        r == context_action(key, ActivePanel::Papers, None),
{
    map_key_event_with_context(key, ActivePanel::Papers, None)
}

// ------------------------------------------------------------- modal states

/// The text-input modals that share one key scheme.
#[derive(Debug, Clone, Copy, PartialEq, Eq, Structural)]
pub enum TextModal {
    AddPaper,
    CreateCollection,
    RenameCollection,
    ExportCollection,
    ImportMetadata,
    EditTags,
}

/// The actions of a text-input modal: cancel, confirm, path completion (for
/// the modals that take a path), backspace and a typed character.
pub open spec fn text_modal_action(m: TextModal, key: KeyEvent) -> Option<Action> {
    if key.modifiers.control {
        match key.code {
            KeyCode::Char(c) => if c == 'c' || c == 'q' { Some(Action::Quit) } else { None },
            _ => None,
        }
    } else {
        match key.code {
            KeyCode::Esc => Some(
                match m {
                    TextModal::AddPaper => Action::AddPaperModalCancel,
                    TextModal::CreateCollection => Action::CreateCollectionModalCancel,
                    TextModal::RenameCollection => Action::RenameCollectionModalCancel,
                    TextModal::ExportCollection => Action::ExportCollectionModalCancel,
                    TextModal::ImportMetadata => Action::ImportMetadataModalCancel,
                    TextModal::EditTags => Action::EditTagsModalCancel,
                },
            ),
            KeyCode::Enter => Some(
                match m {
                    TextModal::AddPaper => Action::AddPaperModalConfirm,
                    TextModal::CreateCollection => Action::CreateCollectionModalConfirm,
                    TextModal::RenameCollection => Action::RenameCollectionModalConfirm,
                    TextModal::ExportCollection => Action::ExportCollectionModalConfirm,
                    TextModal::ImportMetadata => Action::ImportMetadataModalConfirm,
                    TextModal::EditTags => Action::EditTagsModalConfirm,
                },
            ),
            KeyCode::Tab => match m {
                TextModal::AddPaper => Some(Action::AddPaperModalAutocomplete),
                TextModal::ExportCollection => Some(Action::ExportCollectionModalAutocomplete),
                TextModal::ImportMetadata => Some(Action::ImportMetadataModalAutocomplete),
                _ => None,
            },
            KeyCode::Backspace => Some(
                match m {
                    TextModal::AddPaper => Action::AddPaperModalBackspace,
                    TextModal::CreateCollection => Action::CreateCollectionModalBackspace,
                    TextModal::RenameCollection => Action::RenameCollectionModalBackspace,
                    TextModal::ExportCollection => Action::ExportCollectionModalBackspace,
                    TextModal::ImportMetadata => Action::ImportMetadataModalBackspace,
                    TextModal::EditTags => Action::EditTagsModalBackspace,
                },
            ),
            KeyCode::Char(c) => Some(
                match m {
                    TextModal::AddPaper => Action::AddPaperModalInput(c),
                    TextModal::CreateCollection => Action::CreateCollectionModalInput(c),
                    TextModal::RenameCollection => Action::RenameCollectionModalInput(c),
                    TextModal::ExportCollection => Action::ExportCollectionModalInput(c),
                    TextModal::ImportMetadata => Action::ImportMetadataModalInput(c),
                    TextModal::EditTags => Action::EditTagsModalInput(c),
                },
            ),
            _ => None,
        }
    }
}

fn text_modal_exec(m: TextModal, key: KeyEvent) -> (r: Option<Action>)
    ensures
        r == text_modal_action(m, key),
{
    if key.modifiers.control {
        return match key.code {
            KeyCode::Char(c) => if c == 'c' || c == 'q' { Some(Action::Quit) } else { None },
            _ => None,
        };
    }
    match key.code {
        KeyCode::Esc => Some(
            match m {
                TextModal::AddPaper => Action::AddPaperModalCancel,
                TextModal::CreateCollection => Action::CreateCollectionModalCancel,
                TextModal::RenameCollection => Action::RenameCollectionModalCancel,
                TextModal::ExportCollection => Action::ExportCollectionModalCancel,
                TextModal::ImportMetadata => Action::ImportMetadataModalCancel,
                TextModal::EditTags => Action::EditTagsModalCancel,
            },
        ),
        KeyCode::Enter => Some(
            match m {
                TextModal::AddPaper => Action::AddPaperModalConfirm,
                TextModal::CreateCollection => Action::CreateCollectionModalConfirm,
                TextModal::RenameCollection => Action::RenameCollectionModalConfirm,
                TextModal::ExportCollection => Action::ExportCollectionModalConfirm,
                TextModal::ImportMetadata => Action::ImportMetadataModalConfirm,
                TextModal::EditTags => Action::EditTagsModalConfirm,
            },
        ),
        KeyCode::Tab => match m {
            TextModal::AddPaper => Some(Action::AddPaperModalAutocomplete),
            TextModal::ExportCollection => Some(Action::ExportCollectionModalAutocomplete),
            TextModal::ImportMetadata => Some(Action::ImportMetadataModalAutocomplete),
            _ => None,
        },
        KeyCode::Backspace => Some(
            match m {
                TextModal::AddPaper => Action::AddPaperModalBackspace,
                TextModal::CreateCollection => Action::CreateCollectionModalBackspace,
                TextModal::RenameCollection => Action::RenameCollectionModalBackspace,
                TextModal::ExportCollection => Action::ExportCollectionModalBackspace,
                TextModal::ImportMetadata => Action::ImportMetadataModalBackspace,
                TextModal::EditTags => Action::EditTagsModalBackspace,
            },
        ),
        KeyCode::Char(c) => Some(
            match m {
                TextModal::AddPaper => Action::AddPaperModalInput(c),
                TextModal::CreateCollection => Action::CreateCollectionModalInput(c),
                TextModal::RenameCollection => Action::RenameCollectionModalInput(c),
                TextModal::ExportCollection => Action::ExportCollectionModalInput(c),
                TextModal::ImportMetadata => Action::ImportMetadataModalInput(c),
                TextModal::EditTags => Action::EditTagsModalInput(c),
            },
        ),
        _ => None,
    }
}

/// The keys of the metadata editor (`toc == false`) and of the TOC entry
/// editor (`toc == true`): save, cancel, field cycling, text input.
pub open spec fn field_modal_action(toc: bool, key: KeyEvent) -> Option<Action> {
    let next = if toc { Action::TocEditModalNextField } else { Action::EditMetadataNextField };
    let prev = if toc { Action::TocEditModalPrevField } else { Action::EditMetadataPrevField };
    let save = if toc { Action::TocEditModalSave } else { Action::EditMetadataSave };
    if key.modifiers.control {
        match key.code {
            KeyCode::Char(c) => if c == 'c' || c == 'q' {
                Some(Action::Quit)
            } else if c == 's' {
                Some(save)
            } else {
                None
            },
            _ => None,
        }
    } else {
        match key.code {
            KeyCode::Esc => Some(if toc { Action::TocEditModalCancel } else { Action::EditMetadataCancel }),
            KeyCode::Enter => Some(save),
            KeyCode::Tab => Some(if key.modifiers.shift { prev } else { next }),
            KeyCode::BackTab => Some(prev),
            KeyCode::Down => Some(next),
            KeyCode::Up => Some(prev),
            KeyCode::Backspace => Some(
                if toc { Action::TocEditModalBackspace } else { Action::EditMetadataBackspace },
            ),
            KeyCode::Char(c) => Some(
                if toc { Action::TocEditModalInput(c) } else { Action::EditMetadataInput(c) },
            ),
            _ => None,
        }
    }
}

fn field_modal_exec(toc: bool, key: KeyEvent) -> (r: Option<Action>)
    ensures
        r == field_modal_action(toc, key),
{
    let next = if toc { Action::TocEditModalNextField } else { Action::EditMetadataNextField };
    let prev = if toc { Action::TocEditModalPrevField } else { Action::EditMetadataPrevField };
    let save = if toc { Action::TocEditModalSave } else { Action::EditMetadataSave };
    if key.modifiers.control {
        return match key.code {
            KeyCode::Char(c) => if c == 'c' || c == 'q' {
                Some(Action::Quit)
            } else if c == 's' {
                Some(save)
            } else {
                None
            },
            _ => None,
        };
    }
    match key.code {
        KeyCode::Esc => Some(if toc { Action::TocEditModalCancel } else { Action::EditMetadataCancel }),
        KeyCode::Enter => Some(save),
        KeyCode::Tab => Some(if key.modifiers.shift { prev } else { next }),
        KeyCode::BackTab => Some(prev),
        KeyCode::Down => Some(next),
        KeyCode::Up => Some(prev),
        KeyCode::Backspace => Some(if toc { Action::TocEditModalBackspace } else { Action::EditMetadataBackspace }),
        KeyCode::Char(c) => Some(if toc { Action::TocEditModalInput(c) } else { Action::EditMetadataInput(c) }),
        _ => None,
    }
}

/// The keys of an open picker.
pub open spec fn picker_action(key: KeyEvent, multi_select: bool) -> Option<Action> {
    if key.modifiers.control {
        match key.code {
            KeyCode::Char(c) => if c == 'c' || c == 'q' {
                Some(Action::Quit)
            } else if c == 'd' {
                Some(Action::PickerPageDown)
            } else if c == 'u' {
                Some(Action::PickerPageUp)
            } else if c == 'j' || c == 'n' {
                Some(Action::PickerMoveDown)
            } else if c == 'k' || c == 'p' {
                Some(Action::PickerMoveUp)
            } else {
                None
            },
            _ => None,
        }
    } else {
        match key.code {
            KeyCode::Esc => Some(Action::PickerCancel),
            KeyCode::Enter => Some(Action::PickerConfirm),
            KeyCode::PageDown => Some(Action::PickerPageDown),
            KeyCode::PageUp => Some(Action::PickerPageUp),
            KeyCode::Down => Some(Action::PickerMoveDown),
            KeyCode::Up => Some(Action::PickerMoveUp),
            KeyCode::Backspace => Some(Action::PickerBackspace),
            KeyCode::Char(c) => if c == '}' {
                Some(Action::PickerPageDown)
            } else if c == '{' {
                Some(Action::PickerPageUp)
            } else if c == 'j' {
                Some(Action::PickerMoveDown)
            } else if c == 'k' {
                Some(Action::PickerMoveUp)
            } else if c == ' ' && multi_select {
                Some(Action::PickerToggleItem)
            } else {
                Some(Action::PickerInput(c))
            },
            _ => None,
        }
    }
}

fn picker_exec(key: KeyEvent, multi_select: bool) -> (r: Option<Action>)
    ensures
        r == picker_action(key, multi_select),
{
    if key.modifiers.control {
        return match key.code {
            KeyCode::Char(c) => if c == 'c' || c == 'q' {
                Some(Action::Quit)
            } else if c == 'd' {
                Some(Action::PickerPageDown)
            } else if c == 'u' {
                Some(Action::PickerPageUp)
            } else if c == 'j' || c == 'n' {
                Some(Action::PickerMoveDown)
            } else if c == 'k' || c == 'p' {
                Some(Action::PickerMoveUp)
            } else {
                None
            },
            _ => None,
        };
    }
    match key.code {
        KeyCode::Esc => Some(Action::PickerCancel),
        KeyCode::Enter => Some(Action::PickerConfirm),
        KeyCode::PageDown => Some(Action::PickerPageDown),
        KeyCode::PageUp => Some(Action::PickerPageUp),
        KeyCode::Down => Some(Action::PickerMoveDown),
        KeyCode::Up => Some(Action::PickerMoveUp),
        KeyCode::Backspace => Some(Action::PickerBackspace),
        KeyCode::Char(c) => if c == '}' {
            Some(Action::PickerPageDown)
        } else if c == '{' {
            Some(Action::PickerPageUp)
        } else if c == 'j' {
            Some(Action::PickerMoveDown)
        } else if c == 'k' {
            Some(Action::PickerMoveUp)
        } else if c == ' ' && multi_select {
            Some(Action::PickerToggleItem)
        } else {
            Some(Action::PickerInput(c))
        },
        _ => None,
    }
}

/// The keys of the TOC import modal, which depend on the focused field
/// (0 = source, 1 = file path, 2 = merge mode).
pub open spec fn toc_import_action(key: KeyEvent, field: usize) -> Option<Action> {
    if key.modifiers.control {
        match key.code {
            KeyCode::Char(c) => if c == 'c' || c == 'q' { Some(Action::Quit) } else { None },
            _ => None,
        }
    } else {
        match key.code {
            KeyCode::Esc => Some(Action::TocImportModalCancel),
            KeyCode::Tab => Some(
                if key.modifiers.shift { Action::TocImportModalPrevField } else { Action::TocImportModalNextField },
            ),
            KeyCode::BackTab => Some(Action::TocImportModalPrevField),
            KeyCode::Down => Some(Action::TocImportModalNextField),
            KeyCode::Up => Some(Action::TocImportModalPrevField),
            KeyCode::Right => Some(
                if field != 0 { Action::TocImportModalNextField } else { Action::TocImportModalToggleSource },
            ),
            KeyCode::Left => Some(
                if field != 0 { Action::TocImportModalPrevField } else { Action::TocImportModalToggleSource },
            ),
            KeyCode::Backspace => if field == 1 { Some(Action::TocImportModalBackspace) } else { None },
            KeyCode::Char(c) => if c == ' ' && field == 0 {
                Some(Action::TocImportModalToggleSource)
            } else if field == 1 {
                Some(Action::TocImportModalInput(c))
            } else if c == ' ' && field == 2 {
                Some(Action::TocImportModalToggleMerge)
            } else {
                None
            },
            KeyCode::Enter => Some(Action::TocImportModalConfirm),
            _ => None,
        }
    }
}

fn toc_import_exec(key: KeyEvent, field: usize) -> (r: Option<Action>)
    ensures
        r == toc_import_action(key, field),
{
    if key.modifiers.control {
        return match key.code {
            KeyCode::Char(c) => if c == 'c' || c == 'q' { Some(Action::Quit) } else { None },
            _ => None,
        };
    }
    match key.code {
        KeyCode::Esc => Some(Action::TocImportModalCancel),
        KeyCode::Tab => Some(
            if key.modifiers.shift { Action::TocImportModalPrevField } else { Action::TocImportModalNextField },
        ),
        KeyCode::BackTab => Some(Action::TocImportModalPrevField),
        KeyCode::Down => Some(Action::TocImportModalNextField),
        KeyCode::Up => Some(Action::TocImportModalPrevField),
        KeyCode::Right => Some(
            if field != 0 { Action::TocImportModalNextField } else { Action::TocImportModalToggleSource },
        ),
        KeyCode::Left => Some(
            if field != 0 { Action::TocImportModalPrevField } else { Action::TocImportModalToggleSource },
        ),
        KeyCode::Backspace => if field == 1 { Some(Action::TocImportModalBackspace) } else { None },
        KeyCode::Char(c) => if c == ' ' && field == 0 {
            Some(Action::TocImportModalToggleSource)
        } else if field == 1 {
            Some(Action::TocImportModalInput(c))
        } else if c == ' ' && field == 2 {
            Some(Action::TocImportModalToggleMerge)
        } else {
            None
        },
        KeyCode::Enter => Some(Action::TocImportModalConfirm),
        _ => None,
    }
}

/// The keys of search input mode.
pub open spec fn search_input_action(key: KeyEvent) -> Option<Action> {
    if key.modifiers.control && match key.code {
        KeyCode::Char(c) => c == 'c' || c == 'q',
        _ => false,
    } {
        Some(Action::Quit)
    } else {
        match key.code {
            KeyCode::Esc => Some(Action::SearchCancel),
            KeyCode::Enter => Some(Action::SearchConfirm),
            KeyCode::Tab => Some(Action::SearchCycleCollection),
            KeyCode::Backspace => Some(Action::SearchBackspace),
            KeyCode::Char(c) => Some(Action::SearchInput(c)),
            _ => None,
        }
    }
}

/// Whether the key is Control with `c` or `q`.
pub open spec fn ctrl_quit(key: KeyEvent) -> bool {
    key.modifiers.control && match key.code {
        KeyCode::Char(c) => c == 'c' || c == 'q',
        _ => false,
    }
}

fn ctrl_quit_exec(key: KeyEvent) -> (b: bool)
    ensures
        b == ctrl_quit(key),
{
    key.modifiers.control && match key.code {
        KeyCode::Char(c) => c == 'c' || c == 'q',
        _ => false,
    }
}

/// The keys of the help modal.
pub open spec fn help_action(key: KeyEvent) -> Option<Action> {
    if ctrl_quit(key) {
        Some(Action::Quit)
    } else {
        match key.code {
            KeyCode::Esc | KeyCode::Enter => Some(Action::HelpModalToggle),
            KeyCode::Char(c) => if c == 'q' || c == '?' { Some(Action::HelpModalToggle) } else { None },
            _ => None,
        }
    }
}

/// The keys of the delete confirmation.
pub open spec fn delete_confirm_action(key: KeyEvent) -> Option<Action> {
    if ctrl_quit(key) {
        Some(Action::Quit)
    } else {
        match key.code {
            KeyCode::Enter => Some(Action::DeleteConfirmExecute),
            KeyCode::Esc => Some(Action::DeleteConfirmCancel),
            KeyCode::Char(c) => if c == 'q' { Some(Action::DeleteConfirmCancel) } else { None },
            _ => None,
        }
    }
}

/// The selected TOC entry, if the cursor is on one.
pub open spec fn current_toc_entry(a: App) -> Option<crate::paper::TocEntry> {
    if a.selected_toc < a.toc_preview@.len() {
        Some(a.toc_preview@[a.selected_toc as int])
    } else {
        None
    }
}

/// The page of the selected TOC entry, if any.
pub open spec fn current_toc_page(a: App) -> Option<u32> {
    match current_toc_entry(a) {
        Some(t) => Some(t.page_number),
        None => None,
    }
}

/// The id of the selected TOC entry, if any.
pub open spec fn current_toc_id(a: App) -> Option<u128> {
    match current_toc_entry(a) {
        Some(t) => Some(t.id),
        None => None,
    }
}

/// `g`, `G`, `0` and the other digits: count prefixes and the `gg` chord.
pub open spec fn count_keys(c: char, a: App) -> Option<Action> {
    if c == 'g' {
        if a.pending_chord == Some('g') {
            match a.pending_count {
                Some(n) => Some(Action::Motion(Motion::Absolute(n))),
                None => Some(Action::Motion(Motion::First)),
            }
        } else {
            Some(Action::PendingChord('g'))
        }
    } else if c == 'G' {
        match a.pending_count {
            Some(n) => Some(Action::Motion(Motion::Absolute(n))),
            None => Some(Action::Motion(Motion::Last)),
        }
    } else if c == '0' {
        if a.pending_count is Some {
            Some(Action::CountDigit(0))
        } else {
            Some(Action::Motion(Motion::First))
        }
    } else if nonzero_digit(c) {
        Some(Action::CountDigit(digit_of(c)))
    } else {
        None
    }
}

/// The keys of the fullscreen TOC view.
pub open spec fn fullscreen_toc_action(key: KeyEvent, a: App) -> Option<Action> {
    if ctrl_quit(key) {
        Some(Action::Quit)
    } else if key.modifiers.control && key.code == KeyCode::Char('d') {
        Some(Action::Motion(Motion::HalfPageDown))
    } else if key.modifiers.control && key.code == KeyCode::Char('u') {
        Some(Action::Motion(Motion::HalfPageUp))
    } else {
        match key.code {
            KeyCode::Up => Some(Action::MoveUp),
            KeyCode::Down => Some(Action::MoveDown),
            KeyCode::Enter => match current_toc_page(a) {
                Some(p) => Some(Action::OpenAtPage(p)),
                None => None,
            },
            KeyCode::Esc => if a.pending_count is Some || a.pending_chord is Some {
                Some(Action::ResetNavigationState)
            } else {
                Some(Action::CloseFullscreenToc)
            },
            KeyCode::Char(c) => if c == 'k' {
                Some(Action::MoveUp)
            } else if c == 'j' {
                Some(Action::MoveDown)
            } else if c == '}' {
                Some(Action::Motion(Motion::HalfPageDown))
            } else if c == '{' {
                Some(Action::Motion(Motion::HalfPageUp))
            } else if count_keys(c, a) is Some {
                count_keys(c, a)
            } else if c == 'q' || c == 't' {
                Some(Action::CloseFullscreenToc)
            } else if c == '?' {
                Some(Action::HelpModalToggle)
            } else {
                None
            },
            _ => None,
        }
    }
}

/// The keys of visual mode (without Control); `None` lets the key fall
/// through to the normal keys.
pub open spec fn visual_action(key: KeyEvent) -> Option<Action> {
    match key.code {
        KeyCode::Char(c) => if c == ' ' {
            Some(Action::VisualModeToggleItem)
        } else if c == 'd' {
            Some(Action::BatchRemoveFromCollection)
        } else if c == 'D' {
            Some(Action::BatchDeleteConfirm)
        } else {
            None
        },
        KeyCode::Esc => Some(Action::VisualModeCancel),
        KeyCode::Delete => Some(Action::BatchDeleteConfirm),
        _ => None,
    }
}

/// What Esc does in normal mode before the panel keys: reset a pending
/// count or chord, then clear a search, then leave single-panel layout.
pub open spec fn esc_action(a: App) -> Option<Action> {
    if a.pending_count is Some || a.pending_chord is Some {
        Some(Action::ResetNavigationState)
    } else if a.search_query@.len() > 0 {
        Some(Action::SearchCancel)
    } else if a.layout_mode == LayoutMode::SinglePanel {
        Some(Action::ToggleLayoutMode)
    } else {
        None
    }
}

/// The chord and count keys of normal mode (without Control); `None` lets
/// the key fall through.
pub open spec fn chord_action(key: KeyEvent, a: App) -> Option<Action> {
    if a.pending_chord == Some('Z') {
        if key.code == KeyCode::Char('Z') || key.code == KeyCode::Char('Q') {
            Some(Action::Quit)
        } else {
            Some(Action::ResetNavigationState)
        }
    } else if key.code == KeyCode::Char('Z') {
        Some(Action::PendingChord('Z'))
    } else {
        match key.code {
            KeyCode::Char(c) => count_keys(c, a),
            _ => None,
        }
    }
}

/// The TOC editing keys of the Details panel; `None` lets the key fall
/// through.
pub open spec fn details_action(key: KeyEvent, a: App) -> Option<Action> {
    let id = current_toc_id(a);
    match key.code {
        KeyCode::Char(c) => if c == 'a' {
            Some(Action::TocAddEntry { parent_id: None })
        } else if c == 'A' {
            Some(Action::TocAddEntry { parent_id: id })
        } else if c == 'E' {
            Some(Action::TocEmbed)
        } else if c == 'i' {
            Some(Action::TocImportModalOpen)
        } else {
            match id {
                Some(t) => if c == 'e' {
                    Some(Action::TocEditEntry { id: t })
                } else if c == 'd' {
                    Some(Action::TocDeleteEntry { id: t })
                } else if c == 'H' {
                    Some(Action::TocOutdent { id: t })
                } else if c == 'L' {
                    Some(Action::TocIndent { id: t })
                } else if c == 'K' {
                    Some(Action::TocMoveUp { id: t })
                } else if c == 'J' {
                    Some(Action::TocMoveDown { id: t })
                } else {
                    None
                },
                None => None,
            }
        },
        _ => None,
    }
}

/// The keys of normal mode: visual mode, Esc, Control bindings, chords and
/// counts, TOC editing in the Details panel, then the panel keys.
pub open spec fn normal_action(key: KeyEvent, a: App) -> Option<Action> {
    let ctrl = key.modifiers.control;
    if a.visual_mode && !ctrl && visual_action(key) is Some {
        visual_action(key)
    } else if key.code == KeyCode::Esc && esc_action(a) is Some {
        esc_action(a)
    } else if ctrl && ctrl_global(key.code) is Some {
        ctrl_global(key.code)
    } else if !ctrl && chord_action(key, a) is Some {
        chord_action(key, a)
    } else if a.active_panel == ActivePanel::Details && details_action(key, a) is Some {
        details_action(key, a)
    } else {
        context_action(
            key,
            a.active_panel,
            if a.active_panel == ActivePanel::Details { current_toc_page(a) } else { None },
        )
    }
}

/// The action a key press stands for in the current state of the
/// application: an open picker or modal takes the keys first, in a fixed
/// order, then normal mode.
pub open spec fn app_action(key: KeyEvent, a: App) -> Option<Action> {
    if a.active_picker is Some {
        picker_action(key, a.active_picker.unwrap().multi_select)
    } else if a.is_editing_metadata {
        field_modal_action(false, key)
    } else if a.toc_edit_state is Some {
        field_modal_action(true, key)
    } else if a.toc_import_state is Some {
        toc_import_action(key, a.toc_import_state.unwrap().active_field)
    } else if a.is_searching {
        search_input_action(key)
    } else if a.is_adding_paper {
        text_modal_action(TextModal::AddPaper, key)
    } else if a.is_showing_help {
        help_action(key)
    } else if a.is_confirming_delete {
        delete_confirm_action(key)
    } else if a.is_editing_tags {
        text_modal_action(TextModal::EditTags, key)
    } else if a.is_viewing_fullscreen_toc {
        fullscreen_toc_action(key, a)
    } else if a.is_creating_collection {
        text_modal_action(TextModal::CreateCollection, key)
    } else if a.is_renaming_collection {
        text_modal_action(TextModal::RenameCollection, key)
    } else if a.is_exporting_collection {
        text_modal_action(TextModal::ExportCollection, key)
    } else if a.is_importing_metadata {
        text_modal_action(TextModal::ImportMetadata, key)
    } else {
        normal_action(key, a)
    }
}

fn count_keys_exec(c: char, a: &App) -> (r: Option<Action>)
    ensures
        r == count_keys(c, *a),
{
    if c == 'g' {
        if a.pending_chord == Some('g') {
            match a.pending_count {
                Some(n) => Some(Action::Motion(Motion::Absolute(n))),
                None => Some(Action::Motion(Motion::First)),
            }
        } else {
            Some(Action::PendingChord('g'))
        }
    } else if c == 'G' {
        match a.pending_count {
            Some(n) => Some(Action::Motion(Motion::Absolute(n))),
            None => Some(Action::Motion(Motion::Last)),
        }
    } else if c == '0' {
        if a.pending_count.is_some() {
            Some(Action::CountDigit(0))
        } else {
            Some(Action::Motion(Motion::First))
        }
    } else if '1' <= c && c <= '9' {
        Some(Action::CountDigit(digit_exec(c)))
    } else {
        None
    }
}

fn current_toc_exec(a: &App) -> (r: Option<(u128, u32)>)
    ensures
        r is Some == current_toc_entry(*a) is Some,
        r matches Some(p) ==> p.0 == current_toc_id(*a).unwrap() && p.1 == current_toc_page(*a).unwrap(),
{
    if a.selected_toc < a.toc_preview.len() {
        let t = &a.toc_preview[a.selected_toc];
        Some((t.id, t.page_number))
    } else {
        None
    }
}

fn fullscreen_toc_exec(key: KeyEvent, a: &App) -> (r: Option<Action>)
    ensures
        r == fullscreen_toc_action(key, *a),
{
    if ctrl_quit_exec(key) {
        return Some(Action::Quit);
    }
    if key.modifiers.control && key.code == KeyCode::Char('d') {
        return Some(Action::Motion(Motion::HalfPageDown));
    }
    if key.modifiers.control && key.code == KeyCode::Char('u') {
        return Some(Action::Motion(Motion::HalfPageUp));
    }
    match key.code {
        KeyCode::Up => Some(Action::MoveUp),
        KeyCode::Down => Some(Action::MoveDown),
        KeyCode::Enter => match current_toc_exec(a) {
            Some(p) => Some(Action::OpenAtPage(p.1)),
            None => None,
        },
        KeyCode::Esc => if a.pending_count.is_some() || a.pending_chord.is_some() {
            Some(Action::ResetNavigationState)
        } else {
            Some(Action::CloseFullscreenToc)
        },
        KeyCode::Char(c) => if c == 'k' {
            Some(Action::MoveUp)
        } else if c == 'j' {
            Some(Action::MoveDown)
        } else if c == '}' {
            Some(Action::Motion(Motion::HalfPageDown))
        } else if c == '{' {
            Some(Action::Motion(Motion::HalfPageUp))
        } else {
            let counted = count_keys_exec(c, a);
            if counted.is_some() {
                counted
            } else if c == 'q' || c == 't' {
                Some(Action::CloseFullscreenToc)
            } else if c == '?' {
                Some(Action::HelpModalToggle)
            } else {
                None
            }
        },
        _ => None,
    }
}

fn search_input_exec(key: KeyEvent) -> (r: Option<Action>)
    ensures
        r == search_input_action(key),
{
    if ctrl_quit_exec(key) {
        return Some(Action::Quit);
    }
    match key.code {
        KeyCode::Esc => Some(Action::SearchCancel),
        KeyCode::Enter => Some(Action::SearchConfirm),
        KeyCode::Tab => Some(Action::SearchCycleCollection),
        KeyCode::Backspace => Some(Action::SearchBackspace),
        KeyCode::Char(c) => Some(Action::SearchInput(c)),
        _ => None,
    }
}

fn help_exec(key: KeyEvent) -> (r: Option<Action>)
    ensures
        r == help_action(key),
{
    if ctrl_quit_exec(key) {
        return Some(Action::Quit);
    }
    match key.code {
        KeyCode::Esc | KeyCode::Enter => Some(Action::HelpModalToggle),
        KeyCode::Char(c) => if c == 'q' || c == '?' { Some(Action::HelpModalToggle) } else { None },
        _ => None,
    }
}

fn delete_confirm_exec(key: KeyEvent) -> (r: Option<Action>)
    ensures
        r == delete_confirm_action(key),
{
    if ctrl_quit_exec(key) {
        return Some(Action::Quit);
    }
    match key.code {
        KeyCode::Enter => Some(Action::DeleteConfirmExecute),
        KeyCode::Esc => Some(Action::DeleteConfirmCancel),
        KeyCode::Char(c) => if c == 'q' { Some(Action::DeleteConfirmCancel) } else { None },
        _ => None,
    }
}

fn visual_exec(key: KeyEvent) -> (r: Option<Action>)
    ensures
        r == visual_action(key),
{
    match key.code {
        KeyCode::Char(c) => if c == ' ' {
            Some(Action::VisualModeToggleItem)
        } else if c == 'd' {
            Some(Action::BatchRemoveFromCollection)
        } else if c == 'D' {
            Some(Action::BatchDeleteConfirm)
        } else {
            None
        },
        KeyCode::Esc => Some(Action::VisualModeCancel),
        KeyCode::Delete => Some(Action::BatchDeleteConfirm),
        _ => None,
    }
}

fn esc_exec(a: &App) -> (r: Option<Action>)
    ensures
        r == esc_action(*a),
{
    if a.pending_count.is_some() || a.pending_chord.is_some() {
        Some(Action::ResetNavigationState)
    } else if crate::text::str_chars(a.search_query.as_str()).len() > 0 {
        Some(Action::SearchCancel)
    } else if a.layout_mode == LayoutMode::SinglePanel {
        Some(Action::ToggleLayoutMode)
    } else {
        None
    }
}

fn chord_exec(key: KeyEvent, a: &App) -> (r: Option<Action>)
    ensures
        r == chord_action(key, *a),
{
    if a.pending_chord == Some('Z') {
        if key.code == KeyCode::Char('Z') || key.code == KeyCode::Char('Q') {
            Some(Action::Quit)
        } else {
            Some(Action::ResetNavigationState)
        }
    } else if key.code == KeyCode::Char('Z') {
        Some(Action::PendingChord('Z'))
    } else {
        match key.code {
            KeyCode::Char(c) => count_keys_exec(c, a),
            _ => None,
        }
    }
}

fn details_exec(key: KeyEvent, a: &App) -> (r: Option<Action>)
    ensures
        r == details_action(key, *a),
{
    let cur = current_toc_exec(a);
    let id = match cur {
        Some(p) => Some(p.0),
        None => None,
    };
    match key.code {
        KeyCode::Char(c) => if c == 'a' {
            Some(Action::TocAddEntry { parent_id: None })
        } else if c == 'A' {
            Some(Action::TocAddEntry { parent_id: id })
        } else if c == 'E' {
            Some(Action::TocEmbed)
        } else if c == 'i' {
            Some(Action::TocImportModalOpen)
        } else {
            match id {
                Some(t) => if c == 'e' {
                    Some(Action::TocEditEntry { id: t })
                } else if c == 'd' {
                    Some(Action::TocDeleteEntry { id: t })
                } else if c == 'H' {
                    Some(Action::TocOutdent { id: t })
                } else if c == 'L' {
                    Some(Action::TocIndent { id: t })
                } else if c == 'K' {
                    Some(Action::TocMoveUp { id: t })
                } else if c == 'J' {
                    Some(Action::TocMoveDown { id: t })
                } else {
                    None
                },
                None => None,
            }
        },
        _ => None,
    }
}

fn normal_exec(key: KeyEvent, a: &App) -> (r: Option<Action>)
    ensures
        r == normal_action(key, *a),
{
    let ctrl = key.modifiers.control;
    if a.visual_mode && !ctrl {
        let v = visual_exec(key);
        if v.is_some() {
            return v;
        }
    }
    if key.code == KeyCode::Esc {
        let e = esc_exec(a);
        if e.is_some() {
            return e;
        }
    }
    if ctrl {
        let g = ctrl_global_exec(key.code);
        if g.is_some() {
            return g;
        }
    }
    if !ctrl {
        let ch = chord_exec(key, a);
        if ch.is_some() {
            return ch;
        }
    }
    if a.active_panel == ActivePanel::Details {
        let d = details_exec(key, a);
        if d.is_some() {
            return d;
        }
    }
    let page = if a.active_panel == ActivePanel::Details {
        match current_toc_exec(a) {
            Some(p) => Some(p.1),
            None => None,
        }
    } else {
        None
    };
    map_key_event_with_context(key, a.active_panel, page)
}

/// Maps a key press to an action in the current state of the application.
pub fn map_key_event_for_app(key: KeyEvent, app: &App) -> (r: Option<Action>)
    ensures
        r == app_action(key, *app),
{
    match &app.active_picker {
        Some(p) => {
            return picker_exec(key, p.multi_select);
        },
        None => {},
    }
    if app.is_editing_metadata {
        return field_modal_exec(false, key);
    }
    if app.toc_edit_state.is_some() {
        return field_modal_exec(true, key);
    }
    match &app.toc_import_state {
        Some(st) => {
            return toc_import_exec(key, st.active_field);
        },
        None => {},
    }
    if app.is_searching {
        return search_input_exec(key);
    }
    if app.is_adding_paper {
        return text_modal_exec(TextModal::AddPaper, key);
    }
    if app.is_showing_help {
        return help_exec(key);
    }
    if app.is_confirming_delete {
        return delete_confirm_exec(key);
    }
    if app.is_editing_tags {
        return text_modal_exec(TextModal::EditTags, key);
    }
    if app.is_viewing_fullscreen_toc {
        return fullscreen_toc_exec(key, app);
    }
    if app.is_creating_collection {
        return text_modal_exec(TextModal::CreateCollection, key);
    }
    if app.is_renaming_collection {
        return text_modal_exec(TextModal::RenameCollection, key);
    }
    if app.is_exporting_collection {
        return text_modal_exec(TextModal::ExportCollection, key);
    }
    if app.is_importing_metadata {
        return text_modal_exec(TextModal::ImportMetadata, key);
    }
    normal_exec(key, app)
}

/// In normal mode `?` opens or closes the help, whichever panel is focused,
/// whatever TOC page is selected and whatever modifiers other than Control
/// are held.
pub proof fn lemma_question_mark_toggles_help(m: KeyModifiers, panel: ActivePanel, page: Option<u32>)
    requires
        !m.control,
    ensures
        context_action(KeyEvent { code: KeyCode::Char('?'), modifiers: m }, panel, page) == Some(
            Action::HelpModalToggle,
        ),
{
}

/// In the application, `?` without Control opens the help when no picker,
/// modal, search or visual mode takes the key and no `Z` chord is pending,
/// and closes it again while the help is the open modal.
pub proof fn lemma_question_mark_in_app(m: KeyModifiers, a: App)
    requires
        !m.control,
        a.active_picker is None,
        !a.is_editing_metadata,
        a.toc_edit_state is None,
        a.toc_import_state is None,
        !a.is_searching,
        !a.is_adding_paper,
        !a.is_confirming_delete || a.is_showing_help,
        !a.is_editing_tags || a.is_showing_help,
        !a.is_viewing_fullscreen_toc || a.is_showing_help,
        !a.is_creating_collection || a.is_showing_help,
        !a.is_renaming_collection || a.is_showing_help,
        !a.is_exporting_collection || a.is_showing_help,
        !a.is_importing_metadata || a.is_showing_help,
        !a.visual_mode,
        a.pending_chord != Some('Z'),
    ensures
        app_action(KeyEvent { code: KeyCode::Char('?'), modifiers: m }, a) == Some(Action::HelpModalToggle),
{
    let key = KeyEvent { code: KeyCode::Char('?'), modifiers: m };
    if a.active_panel == ActivePanel::Details {
        assert(details_action(key, a) is None);
    }
}

} // verus!
