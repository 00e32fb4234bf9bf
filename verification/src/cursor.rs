//! The cursor store: what the cursor file means, and where a journal is
//! opened because of it.

use vstd::prelude::*;

verus! {

/// Where reading of the journal begins.
#[derive(Clone, Debug, PartialEq, Eq)]
pub enum JournalSeek {
    /// At the earliest record that the journal retains.
    Head,
    /// At the position that the cursor names.
    Cursor { cursor: String },
}

/// What a seek target is in contracts.
pub enum SeekModel {
    Head,
    Cursor { cursor: Seq<char> },
}

impl View for JournalSeek {
    type V = SeekModel;

    open spec fn view(&self) -> SeekModel {
        match self {
            JournalSeek::Head => SeekModel::Head,
            JournalSeek::Cursor { cursor } => SeekModel::Cursor { cursor: cursor@ },
        }
    }
}

/// The cursor that a cursor file holds. `contents` is the whole text of the
/// file, or `None` for a file that is not there. A missing file and an empty
/// one hold no cursor; any other text is the cursor, taken as it stands.
pub open spec fn stored_cursor(contents: Option<Seq<char>>) -> Option<Seq<char>> {
    match contents {
        Some(text) if text.len() > 0 => Some(text),
        _ => None,
    }
}

/// Where a journal is opened for a stored cursor: at the cursor, or at the
/// head where there is none.
pub open spec fn seek_target(cursor: Option<Seq<char>>) -> SeekModel {
    match cursor {
        Some(cursor) => SeekModel::Cursor { cursor },
        None => SeekModel::Head,
    }
}

/// Reads the cursor out of the cursor file's contents.
pub fn read_cursor(contents: Option<String>) -> (cursor: Option<String>)
    ensures
        cursor.deep_view() == stored_cursor(contents.deep_view()),
{
    match contents {
        Some(text) => {
            if text.as_str().is_empty() {
                None
            } else {
                Some(text)
            }
        },
        None => None,
    }
}

/// Decides from the cursor file's contents where the journal is opened:
/// without a file, or with an empty one, at the head; else at the cursor that
/// the file holds.
pub fn journal_seek_target(contents: Option<String>) -> (target: JournalSeek)
    ensures
        target@ == seek_target(stored_cursor(contents.deep_view())),
        contents is None || contents->0@.len() == 0 ==> target == JournalSeek::Head,
{
    match read_cursor(contents) {
        Some(cursor) => JournalSeek::Cursor { cursor },
        None => JournalSeek::Head,
    }
}

} // verus!
