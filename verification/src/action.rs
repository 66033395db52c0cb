//! The actions that key presses are mapped to and that the application
//! state machine performs.
use vstd::prelude::*;
use crate::navigation::Motion;

verus! {

/// A user-level action.
#[derive(Debug, Clone, Copy, PartialEq, Eq, Structural)]
pub enum Action {
    Quit,
    NextPanel,
    PreviousPanel,
    PanelLeft,
    PanelRight,
    FocusPapers,
    ToggleLayoutMode,
    CyclePaperSort,
    Motion(Motion),
    CountDigit(usize),
    PendingChord(char),
    ResetNavigationState,
    MoveUp,
    MoveDown,
    Open,
    OpenAtPage(u32),
    Search,
    SearchInput(char),
    SearchBackspace,
    SearchConfirm,
    SearchCancel,
    SearchCycleCollection,
    EditMetadata,
    EditMetadataNextField,
    EditMetadataPrevField,
    EditMetadataInput(char),
    EditMetadataBackspace,
    EditMetadataSave,
    EditMetadataCancel,
    OpenToc,
    TocAddEntry { parent_id: Option<u128> },
    TocEditEntry { id: u128 },
    TocDeleteEntry { id: u128 },
    TocIndent { id: u128 },
    TocOutdent { id: u128 },
    TocMoveUp { id: u128 },
    TocMoveDown { id: u128 },
    TocEmbed,
    TocEditModalNextField,
    TocEditModalPrevField,
    TocEditModalInput(char),
    TocEditModalBackspace,
    TocEditModalSave,
    TocEditModalCancel,
    TocImportModalOpen,
    TocImportModalNextField,
    TocImportModalPrevField,
    TocImportModalToggleSource,
    TocImportModalToggleMerge,
    TocImportModalInput(char),
    TocImportModalBackspace,
    TocImportModalConfirm,
    TocImportModalCancel,
    ExportLibrary,
    AddPaperModalOpen,
    AddPaperModalInput(char),
    AddPaperModalBackspace,
    AddPaperModalCancel,
    AddPaperModalConfirm,
    AddPaperModalAutocomplete,
    CreateCollectionModalOpen,
    CreateSubcollectionModalOpen,
    CreateCollectionModalInput(char),
    CreateCollectionModalBackspace,
    CreateCollectionModalCancel,
    CreateCollectionModalConfirm,
    RenameCollectionModalOpen,
    RenameCollectionModalInput(char),
    RenameCollectionModalBackspace,
    RenameCollectionModalCancel,
    RenameCollectionModalConfirm,
    ExportCollectionModalOpen,
    ExportCollectionModalInput(char),
    ExportCollectionModalBackspace,
    ExportCollectionModalCancel,
    ExportCollectionModalAutocomplete,
    ExportCollectionModalConfirm,
    ImportMetadataModalOpen,
    ImportMetadataModalInput(char),
    ImportMetadataModalBackspace,
    ImportMetadataModalCancel,
    ImportMetadataModalAutocomplete,
    ImportMetadataModalConfirm,
    OpenFullscreenToc,
    CloseFullscreenToc,
    EditTagsModalOpen,
    EditTagsModalInput(char),
    EditTagsModalBackspace,
    EditTagsModalCancel,
    EditTagsModalConfirm,
    DeleteConfirmOpen,
    DeleteConfirmCancel,
    DeleteConfirmExecute,
    RemoveFromCollection,
    BatchRemoveFromCollection,
    HelpModalToggle,
    VisualModeToggle,
    VisualModeCancel,
    VisualModeToggleItem,
    BatchDeleteConfirm,
    QuickOpenModalOpen,
    CollectionMembershipModalOpen,
    TagModalOpen,
    PickerInput(char),
    PickerBackspace,
    PickerMoveDown,
    PickerMoveUp,
    PickerPageDown,
    PickerPageUp,
    PickerToggleItem,
    PickerConfirm,
    PickerCancel,
}

} // verus!
