//! The engine's notification kinds and document classifications.
//!
//! Each notification carries an integer classification code; the mapping
//! to a closed enumeration keeps an explicit fallback variant for codes a
//! future engine build may add, so unrecognized codes degrade gracefully
//! instead of failing.

use vstd::prelude::*;

verus! {

/// The kind of a notification the engine delivers to the registered
/// handler.
#[derive(Debug, Clone, Copy, PartialEq, Eq)]
pub enum CallbackType {
    InvalidateTiles,
    InvalidateVisibleCursor,
    TextSelection,
    TextSelectionStart,
    TextSelectionEnd,
    CursorVisible,
    GraphicSelection,
    HyperlinkClicked,
    StateChanged,
    StatusIndicatorStart,
    StatusIndicatorSetValue,
    StatusIndicatorFinish,
    SearchNotFound,
    DocumentSizeChanged,
    SetPart,
    SearchResultSelection,
    UnoCommandResult,
    CellCursor,
    MousePointer,
    CellFormula,
    DocumentPassword,
    DocumentPasswordModify,
    Error,
    ContextMenu,
    InvalidateViewCursor,
    TextViewSelection,
    CellViewCursor,
    GraphicViewSelection,
    ViewCursorVisible,
    ViewLock,
    RedlineTableSizeChanged,
    RedlineTableEntryModified,
    Comment,
    InvalidateHeader,
    CellAddress,
    RulerUpdate,
    Window,
    ValidityListButton,
    ClipboardChanged,
    ContextChanged,
    SignatureStatus,
    ProfileFrame,
    CellSelectionArea,
    CellAutoFillArea,
    TableSelected,
    ReferenceMarks,
    JSDialog,
    CalcFunctionList,
    TabStopList,
    FormFieldButton,
    InvalidateSheetGeometry,
    ValidityInputHelp,
    DocumentBackgroundColor,
    CommandedBlocked,
    CellCursorFollowJump,
    ContentControl,
    PrintRanges,
    FontsMissing,
    MediaShape,
    ExportFile,
    ViewRenderState,
    ApplicationBackgroundColor,
    A11YFocusChanged,
    A11YCaretChanged,
    A11YTextSelectionChanged,
    ColorPalettes,
    DocumentPasswordReset,
    A11YFocusedCellChanged,
    A11YEditingInSelectionState,
    A11YSelectionChanged,
    CoreLog,
    /// A code this build of the library does not recognize.
    Unknown(i32),
}

impl CallbackType {
    /// The notification kind a classification code denotes.
    pub open spec fn spec_from_code(value: i32) -> CallbackType {
        if value == 0 {
            CallbackType::InvalidateTiles
        } else if value == 1 {
            CallbackType::InvalidateVisibleCursor
        } else if value == 2 {
            CallbackType::TextSelection
        } else if value == 3 {
            CallbackType::TextSelectionStart
        } else if value == 4 {
            CallbackType::TextSelectionEnd
        } else if value == 5 {
            CallbackType::CursorVisible
        } else if value == 6 {
            CallbackType::GraphicSelection
        } else if value == 7 {
            CallbackType::HyperlinkClicked
        } else if value == 8 {
            CallbackType::StateChanged
        } else if value == 9 {
            CallbackType::StatusIndicatorStart
        } else if value == 10 {
            CallbackType::StatusIndicatorSetValue
        } else if value == 11 {
            CallbackType::StatusIndicatorFinish
        } else if value == 12 {
            CallbackType::SearchNotFound
        } else if value == 13 {
            CallbackType::DocumentSizeChanged
        } else if value == 14 {
            CallbackType::SetPart
        } else if value == 15 {
            CallbackType::SearchResultSelection
        } else if value == 16 {
            CallbackType::UnoCommandResult
        } else if value == 17 {
            CallbackType::CellCursor
        } else if value == 18 {
            CallbackType::MousePointer
        } else if value == 19 {
            CallbackType::CellFormula
        } else if value == 20 {
            CallbackType::DocumentPassword
        } else if value == 21 {
            CallbackType::DocumentPasswordModify
        } else if value == 22 {
            CallbackType::Error
        } else if value == 23 {
            CallbackType::ContextMenu
        } else if value == 24 {
            CallbackType::InvalidateViewCursor
        } else if value == 25 {
            CallbackType::TextViewSelection
        } else if value == 26 {
            CallbackType::CellViewCursor
        } else if value == 27 {
            CallbackType::GraphicViewSelection
        } else if value == 28 {
            CallbackType::ViewCursorVisible
        } else if value == 29 {
            CallbackType::ViewLock
        } else if value == 30 {
            CallbackType::RedlineTableSizeChanged
        } else if value == 31 {
            CallbackType::RedlineTableEntryModified
        } else if value == 32 {
            CallbackType::Comment
        } else if value == 33 {
            CallbackType::InvalidateHeader
        } else if value == 34 {
            CallbackType::CellAddress
        } else if value == 35 {
            CallbackType::RulerUpdate
        } else if value == 36 {
            CallbackType::Window
        } else if value == 37 {
            CallbackType::ValidityListButton
        } else if value == 38 {
            CallbackType::ClipboardChanged
        } else if value == 39 {
            CallbackType::ContextChanged
        } else if value == 40 {
            CallbackType::SignatureStatus
        } else if value == 41 {
            CallbackType::ProfileFrame
        } else if value == 42 {
            CallbackType::CellSelectionArea
        } else if value == 43 {
            CallbackType::CellAutoFillArea
        } else if value == 44 {
            CallbackType::TableSelected
        } else if value == 45 {
            CallbackType::ReferenceMarks
        } else if value == 46 {
            CallbackType::JSDialog
        } else if value == 47 {
            CallbackType::CalcFunctionList
        } else if value == 48 {
            CallbackType::TabStopList
        } else if value == 49 {
            CallbackType::FormFieldButton
        } else if value == 50 {
            CallbackType::InvalidateSheetGeometry
        } else if value == 51 {
            CallbackType::ValidityInputHelp
        } else if value == 52 {
            CallbackType::DocumentBackgroundColor
        } else if value == 53 {
            CallbackType::CommandedBlocked
        } else if value == 54 {
            CallbackType::CellCursorFollowJump
        } else if value == 55 {
            CallbackType::ContentControl
        } else if value == 56 {
            CallbackType::PrintRanges
        } else if value == 57 {
            CallbackType::FontsMissing
        } else if value == 58 {
            CallbackType::MediaShape
        } else if value == 59 {
            CallbackType::ExportFile
        } else if value == 60 {
            CallbackType::ViewRenderState
        } else if value == 61 {
            CallbackType::ApplicationBackgroundColor
        } else if value == 62 {
            CallbackType::A11YFocusChanged
        } else if value == 63 {
            CallbackType::A11YCaretChanged
        } else if value == 64 {
            CallbackType::A11YTextSelectionChanged
        } else if value == 65 {
            CallbackType::ColorPalettes
        } else if value == 66 {
            CallbackType::DocumentPasswordReset
        } else if value == 67 {
            CallbackType::A11YFocusedCellChanged
        } else if value == 68 {
            CallbackType::A11YEditingInSelectionState
        } else if value == 69 {
            CallbackType::A11YSelectionChanged
        } else if value == 70 {
            CallbackType::CoreLog
        } else {
            CallbackType::Unknown(value)
        }
    }

    /// The classification code of this notification kind.
    pub open spec fn spec_code(self) -> int {
        match self {
            CallbackType::InvalidateTiles => 0,
            CallbackType::InvalidateVisibleCursor => 1,
            CallbackType::TextSelection => 2,
            CallbackType::TextSelectionStart => 3,
            CallbackType::TextSelectionEnd => 4,
            CallbackType::CursorVisible => 5,
            CallbackType::GraphicSelection => 6,
            CallbackType::HyperlinkClicked => 7,
            CallbackType::StateChanged => 8,
            CallbackType::StatusIndicatorStart => 9,
            CallbackType::StatusIndicatorSetValue => 10,
            CallbackType::StatusIndicatorFinish => 11,
            CallbackType::SearchNotFound => 12,
            CallbackType::DocumentSizeChanged => 13,
            CallbackType::SetPart => 14,
            CallbackType::SearchResultSelection => 15,
            CallbackType::UnoCommandResult => 16,
            CallbackType::CellCursor => 17,
            CallbackType::MousePointer => 18,
            CallbackType::CellFormula => 19,
            CallbackType::DocumentPassword => 20,
            CallbackType::DocumentPasswordModify => 21,
            CallbackType::Error => 22,
            CallbackType::ContextMenu => 23,
            CallbackType::InvalidateViewCursor => 24,
            CallbackType::TextViewSelection => 25,
            CallbackType::CellViewCursor => 26,
            CallbackType::GraphicViewSelection => 27,
            CallbackType::ViewCursorVisible => 28,
            CallbackType::ViewLock => 29,
            CallbackType::RedlineTableSizeChanged => 30,
            CallbackType::RedlineTableEntryModified => 31,
            CallbackType::Comment => 32,
            CallbackType::InvalidateHeader => 33,
            CallbackType::CellAddress => 34,
            CallbackType::RulerUpdate => 35,
            CallbackType::Window => 36,
            CallbackType::ValidityListButton => 37,
            CallbackType::ClipboardChanged => 38,
            CallbackType::ContextChanged => 39,
            CallbackType::SignatureStatus => 40,
            CallbackType::ProfileFrame => 41,
            CallbackType::CellSelectionArea => 42,
            CallbackType::CellAutoFillArea => 43,
            CallbackType::TableSelected => 44,
            CallbackType::ReferenceMarks => 45,
            CallbackType::JSDialog => 46,
            CallbackType::CalcFunctionList => 47,
            CallbackType::TabStopList => 48,
            CallbackType::FormFieldButton => 49,
            CallbackType::InvalidateSheetGeometry => 50,
            CallbackType::ValidityInputHelp => 51,
            CallbackType::DocumentBackgroundColor => 52,
            CallbackType::CommandedBlocked => 53,
            CallbackType::CellCursorFollowJump => 54,
            CallbackType::ContentControl => 55,
            CallbackType::PrintRanges => 56,
            CallbackType::FontsMissing => 57,
            CallbackType::MediaShape => 58,
            CallbackType::ExportFile => 59,
            CallbackType::ViewRenderState => 60,
            CallbackType::ApplicationBackgroundColor => 61,
            CallbackType::A11YFocusChanged => 62,
            CallbackType::A11YCaretChanged => 63,
            CallbackType::A11YTextSelectionChanged => 64,
            CallbackType::ColorPalettes => 65,
            CallbackType::DocumentPasswordReset => 66,
            CallbackType::A11YFocusedCellChanged => 67,
            CallbackType::A11YEditingInSelectionState => 68,
            CallbackType::A11YSelectionChanged => 69,
            CallbackType::CoreLog => 70,
            CallbackType::Unknown(value) => value as int,
        }
    }

    /// Maps a classification code to its notification kind, keeping
    /// unrecognized codes in the fallback variant.
    pub fn from_primitive(value: i32) -> (r: CallbackType)
        ensures
            r == CallbackType::spec_from_code(value),
    {
        if value == 0 {
            CallbackType::InvalidateTiles
        } else if value == 1 {
            CallbackType::InvalidateVisibleCursor
        } else if value == 2 {
            CallbackType::TextSelection
        } else if value == 3 {
            CallbackType::TextSelectionStart
        } else if value == 4 {
            CallbackType::TextSelectionEnd
        } else if value == 5 {
            CallbackType::CursorVisible
        } else if value == 6 {
            CallbackType::GraphicSelection
        } else if value == 7 {
            CallbackType::HyperlinkClicked
        } else if value == 8 {
            CallbackType::StateChanged
        } else if value == 9 {
            CallbackType::StatusIndicatorStart
        } else if value == 10 {
            CallbackType::StatusIndicatorSetValue
        } else if value == 11 {
            CallbackType::StatusIndicatorFinish
        } else if value == 12 {
            CallbackType::SearchNotFound
        } else if value == 13 {
            CallbackType::DocumentSizeChanged
        } else if value == 14 {
            CallbackType::SetPart
        } else if value == 15 {
            CallbackType::SearchResultSelection
        } else if value == 16 {
            CallbackType::UnoCommandResult
        } else if value == 17 {
            CallbackType::CellCursor
        } else if value == 18 {
            CallbackType::MousePointer
        } else if value == 19 {
            CallbackType::CellFormula
        } else if value == 20 {
            CallbackType::DocumentPassword
        } else if value == 21 {
            CallbackType::DocumentPasswordModify
        } else if value == 22 {
            CallbackType::Error
        } else if value == 23 {
            CallbackType::ContextMenu
        } else if value == 24 {
            CallbackType::InvalidateViewCursor
        } else if value == 25 {
            CallbackType::TextViewSelection
        } else if value == 26 {
            CallbackType::CellViewCursor
        } else if value == 27 {
            CallbackType::GraphicViewSelection
        } else if value == 28 {
            CallbackType::ViewCursorVisible
        } else if value == 29 {
            CallbackType::ViewLock
        } else if value == 30 {
            CallbackType::RedlineTableSizeChanged
        } else if value == 31 {
            CallbackType::RedlineTableEntryModified
        } else if value == 32 {
            CallbackType::Comment
        } else if value == 33 {
            CallbackType::InvalidateHeader
        } else if value == 34 {
            CallbackType::CellAddress
        } else if value == 35 {
            CallbackType::RulerUpdate
        } else if value == 36 {
            CallbackType::Window
        } else if value == 37 {
            CallbackType::ValidityListButton
        } else if value == 38 {
            CallbackType::ClipboardChanged
        } else if value == 39 {
            CallbackType::ContextChanged
        } else if value == 40 {
            CallbackType::SignatureStatus
        } else if value == 41 {
            CallbackType::ProfileFrame
        } else if value == 42 {
            CallbackType::CellSelectionArea
        } else if value == 43 {
            CallbackType::CellAutoFillArea
        } else if value == 44 {
            CallbackType::TableSelected
        } else if value == 45 {
            CallbackType::ReferenceMarks
        } else if value == 46 {
            CallbackType::JSDialog
        } else if value == 47 {
            CallbackType::CalcFunctionList
        } else if value == 48 {
            CallbackType::TabStopList
        } else if value == 49 {
            CallbackType::FormFieldButton
        } else if value == 50 {
            CallbackType::InvalidateSheetGeometry
        } else if value == 51 {
            CallbackType::ValidityInputHelp
        } else if value == 52 {
            CallbackType::DocumentBackgroundColor
        } else if value == 53 {
            CallbackType::CommandedBlocked
        } else if value == 54 {
            CallbackType::CellCursorFollowJump
        } else if value == 55 {
            CallbackType::ContentControl
        } else if value == 56 {
            CallbackType::PrintRanges
        } else if value == 57 {
            CallbackType::FontsMissing
        } else if value == 58 {
            CallbackType::MediaShape
        } else if value == 59 {
            CallbackType::ExportFile
        } else if value == 60 {
            CallbackType::ViewRenderState
        } else if value == 61 {
            CallbackType::ApplicationBackgroundColor
        } else if value == 62 {
            CallbackType::A11YFocusChanged
        } else if value == 63 {
            CallbackType::A11YCaretChanged
        } else if value == 64 {
            CallbackType::A11YTextSelectionChanged
        } else if value == 65 {
            CallbackType::ColorPalettes
        } else if value == 66 {
            CallbackType::DocumentPasswordReset
        } else if value == 67 {
            CallbackType::A11YFocusedCellChanged
        } else if value == 68 {
            CallbackType::A11YEditingInSelectionState
        } else if value == 69 {
            CallbackType::A11YSelectionChanged
        } else if value == 70 {
            CallbackType::CoreLog
        } else {
            CallbackType::Unknown(value)
        }
    }

    /// The classification code of this notification kind.
    pub fn code(&self) -> (r: i32)
        ensures
            r as int == self.spec_code(),
    {
        match self {
            CallbackType::InvalidateTiles => 0,
            CallbackType::InvalidateVisibleCursor => 1,
            CallbackType::TextSelection => 2,
            CallbackType::TextSelectionStart => 3,
            CallbackType::TextSelectionEnd => 4,
            CallbackType::CursorVisible => 5,
            CallbackType::GraphicSelection => 6,
            CallbackType::HyperlinkClicked => 7,
            CallbackType::StateChanged => 8,
            CallbackType::StatusIndicatorStart => 9,
            CallbackType::StatusIndicatorSetValue => 10,
            CallbackType::StatusIndicatorFinish => 11,
            CallbackType::SearchNotFound => 12,
            CallbackType::DocumentSizeChanged => 13,
            CallbackType::SetPart => 14,
            CallbackType::SearchResultSelection => 15,
            CallbackType::UnoCommandResult => 16,
            CallbackType::CellCursor => 17,
            CallbackType::MousePointer => 18,
            CallbackType::CellFormula => 19,
            CallbackType::DocumentPassword => 20,
            CallbackType::DocumentPasswordModify => 21,
            CallbackType::Error => 22,
            CallbackType::ContextMenu => 23,
            CallbackType::InvalidateViewCursor => 24,
            CallbackType::TextViewSelection => 25,
            CallbackType::CellViewCursor => 26,
            CallbackType::GraphicViewSelection => 27,
            CallbackType::ViewCursorVisible => 28,
            CallbackType::ViewLock => 29,
            CallbackType::RedlineTableSizeChanged => 30,
            CallbackType::RedlineTableEntryModified => 31,
            CallbackType::Comment => 32,
            CallbackType::InvalidateHeader => 33,
            CallbackType::CellAddress => 34,
            CallbackType::RulerUpdate => 35,
            CallbackType::Window => 36,
            CallbackType::ValidityListButton => 37,
            CallbackType::ClipboardChanged => 38,
            CallbackType::ContextChanged => 39,
            CallbackType::SignatureStatus => 40,
            CallbackType::ProfileFrame => 41,
            CallbackType::CellSelectionArea => 42,
            CallbackType::CellAutoFillArea => 43,
            CallbackType::TableSelected => 44,
            CallbackType::ReferenceMarks => 45,
            CallbackType::JSDialog => 46,
            CallbackType::CalcFunctionList => 47,
            CallbackType::TabStopList => 48,
            CallbackType::FormFieldButton => 49,
            CallbackType::InvalidateSheetGeometry => 50,
            CallbackType::ValidityInputHelp => 51,
            CallbackType::DocumentBackgroundColor => 52,
            CallbackType::CommandedBlocked => 53,
            CallbackType::CellCursorFollowJump => 54,
            CallbackType::ContentControl => 55,
            CallbackType::PrintRanges => 56,
            CallbackType::FontsMissing => 57,
            CallbackType::MediaShape => 58,
            CallbackType::ExportFile => 59,
            CallbackType::ViewRenderState => 60,
            CallbackType::ApplicationBackgroundColor => 61,
            CallbackType::A11YFocusChanged => 62,
            CallbackType::A11YCaretChanged => 63,
            CallbackType::A11YTextSelectionChanged => 64,
            CallbackType::ColorPalettes => 65,
            CallbackType::DocumentPasswordReset => 66,
            CallbackType::A11YFocusedCellChanged => 67,
            CallbackType::A11YEditingInSelectionState => 68,
            CallbackType::A11YSelectionChanged => 69,
            CallbackType::CoreLog => 70,
            CallbackType::Unknown(value) => *value,
        }
    }
}

/// The classification of a loaded document.
#[derive(Debug, Clone, Copy, PartialEq, Eq)]
pub enum DocumentType {
    Text,
    Spreadsheet,
    Presentation,
    Drawing,
    /// A raw classification code this library does not recognize.
    Other(i32),
}

impl DocumentType {
    /// The document classification a raw code denotes.
    pub open spec fn spec_from_code(value: i32) -> DocumentType {
        if value == 0 {
            DocumentType::Text
        } else if value == 1 {
            DocumentType::Spreadsheet
        } else if value == 2 {
            DocumentType::Presentation
        } else if value == 3 {
            DocumentType::Drawing
        } else {
            DocumentType::Other(value)
        }
    }

    /// Maps a raw classification code to its document type, keeping
    /// unrecognized codes in the fallback variant.
    pub fn from_primitive(value: i32) -> (r: DocumentType)
        ensures
            r == DocumentType::spec_from_code(value),
    {
        if value == 0 {
            DocumentType::Text
        } else if value == 1 {
            DocumentType::Spreadsheet
        } else if value == 2 {
            DocumentType::Presentation
        } else if value == 3 {
            DocumentType::Drawing
        } else {
            DocumentType::Other(value)
        }
    }
}

} // verus!
