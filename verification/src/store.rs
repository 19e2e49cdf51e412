//! What passes between the rules and the code that touches the disk.
//!
//! The library never opens a file. Its caller reports what it found where the
//! state file should be ([`FileRead`]), carries out what the library decides
//! ([`SaveAction`], [`LoadResult`]), and reports a write that succeeded. The
//! ghost types beside them hold the same with texts as sequences of
//! characters; [`file_after_save`] and [`file_after_load`] say what carrying
//! a decision out does to the file.

use crate::state::WindowState;
use vstd::prelude::*;

verus! {

/// What an attempt to read the state file found.
#[derive(Debug, PartialEq, Eq)]
pub enum FileRead {
    /// No file is there.
    Missing,
    /// A file is there, but the attempt to read it failed.
    Unreadable,
    /// The file was read, but its bytes are no text.
    NotText,
    /// The file's text.
    Text(String),
}

/// The state file as the rules see it.
pub enum FileContent {
    Missing,
    Unreadable,
    NotText,
    Text(Seq<char>),
}

impl View for FileRead {
    type V = FileContent;

    open spec fn view(&self) -> FileContent {
        match self {
            FileRead::Missing => FileContent::Missing,
            FileRead::Unreadable => FileContent::Unreadable,
            FileRead::NotText => FileContent::NotText,
            FileRead::Text(text) => FileContent::Text(text@),
        }
    }
}

/// What the caller of a save has to do.
#[derive(Debug, PartialEq, Eq)]
pub enum SaveAction {
    /// Replace the state file's text by `text`. Where that succeeds, the
    /// manager is to be told that the file was written at the time `at`.
    Write { text: String, at: u128 },
    /// Nothing: the window is too small for its size to be kept.
    TooSmall,
    /// Nothing: the last write is less than a second old.
    Throttled,
}

/// A save's decision as the rules see it.
pub enum SaveEffect {
    Write { text: Seq<char>, at: u128 },
    TooSmall,
    Throttled,
}

impl View for SaveAction {
    type V = SaveEffect;

    open spec fn view(&self) -> SaveEffect {
        match self {
            SaveAction::Write { text, at } => SaveEffect::Write { text: text@, at: *at },
            SaveAction::TooSmall => SaveEffect::TooSmall,
            SaveAction::Throttled => SaveEffect::Throttled,
        }
    }
}

/// What a load gives back, and what its caller has to do.
#[derive(Debug, Clone, Copy, PartialEq, Eq, Structural)]
pub struct LoadResult {
    /// The size to restore, if there is one.
    pub state: Option<WindowState>,
    /// Whether the state file is to be deleted, because it holds no record.
    pub remove_file: bool,
}

/// The state file once a save's decision has been carried out. A write may
/// fail; this library says nothing of what a failed write leaves behind.
pub open spec fn file_after_save(before: FileContent, effect: SaveEffect) -> FileContent {
    match effect {
        SaveEffect::Write { text, at } => FileContent::Text(text),
        _ => before,
    }
}

/// The time of the last successful write once a save's decision has been
/// carried out: that of the decision where a write was decided and
/// `written` says that it succeeded, else the time before.
pub open spec fn last_save_after(
    last_save: Option<u128>,
    effect: SaveEffect,
    written: bool,
) -> Option<u128> {
    match effect {
        SaveEffect::Write { text, at } => if written {
            Some(at)
        } else {
            last_save
        },
        _ => last_save,
    }
}

/// The state file once a load's decision has been carried out.
pub open spec fn file_after_load(before: FileContent, result: LoadResult) -> FileContent {
    if result.remove_file {
        FileContent::Missing
    } else {
        before
    }
}

} // verus!
