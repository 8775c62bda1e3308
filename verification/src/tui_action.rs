//! The actions a user can trigger, and what handling one asks of the application.
use vstd::prelude::*;

verus! {

/// Output format for generated show notes.
#[derive(Clone, Copy, Debug, PartialEq, Eq, Hash)]
pub enum ShowNoteKind {
    Html,
    Markdown,
}

impl ShowNoteKind {
    /// The lowercase name of the format.
    pub fn as_str(self) -> (r: &'static str)
        ensures
            self == ShowNoteKind::Html ==> r@ == "html"@,
            self == ShowNoteKind::Markdown ==> r@ == "markdown"@,
    {
        match self {
            ShowNoteKind::Html => "html",
            ShowNoteKind::Markdown => "markdown",
        }
    }
}

/// Whether the application keeps running after an action.
#[derive(Clone, Copy, Debug, PartialEq, Eq, Hash)]
pub enum TuiActionResponse {
    Continue,
    ShouldQuit,
}

/// Every action a key binding can trigger.
#[derive(Clone, Debug, PartialEq, Eq, Hash)]
pub enum TuiAction {
    Quit,
    Save,
    ShowHelp,
    ShowAlias,
    ShowPath,
    StartFilter,
    MoveUp,
    MoveDown,
    SwitchPane,
    TogglePlay,
    FocusPlaylist,
    FocusLibrary,
    Rename,
    Notes,
    ReorderUp,
    ReorderDown,
    LaunchFile,
    LoadPlaylist,
    MoveToLibrary,
    MoveToPlaylist,
    LaunchMpv,
    AddUrl,
    Delete,
    FuzzyNotes,
    EditSources,
    GenerateShowNotes(ShowNoteKind),
    RenameSubmit(String),
    UrlSubmit(String),
    Refresh,
}

} // verus!
