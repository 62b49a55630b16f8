//! Notes and where their Markdown files live.

use vstd::prelude::*;
use vstd::string::StringExecFns;

verus! {

/// Directory that holds the index and every note file.
pub const NOTES_DIR: &'static str = "notes";

/// Path of the JSON index, inside [`NOTES_DIR`].
pub const NOTES_JSON_FILE: &'static str = "notes/notes.json";

/// An instant in UTC: whole seconds since 1970-01-01T00:00:00Z, and the
/// nanoseconds into that second.
#[derive(Clone, Copy, Debug, PartialEq, Eq, Structural)]
pub struct Timestamp {
    pub secs: i64,
    pub nanos: u32,
}

/// One record of the index.
#[derive(Debug, PartialEq, Eq)]
pub struct Note {
    /// Display key, and stem of the note's file name.
    pub title: String,
    /// Full text of the note.
    pub content: String,
    /// When the note was created.
    pub date: Timestamp,
}

/// What a [`Note`] means in contracts.
pub ghost struct NoteView {
    pub title: Seq<char>,
    pub content: Seq<char>,
    pub date: Timestamp,
}

impl View for Note {
    type V = NoteView;

    open spec fn view(&self) -> NoteView {
        NoteView { title: self.title@, content: self.content@, date: self.date }
    }
}

impl Clone for Note {
    fn clone(&self) -> (copy: Note)
        ensures
            copy == *self,
    {
        Note { title: self.title.clone(), content: self.content.clone(), date: self.date }
    }
}

/// Whether `c` separates the parts of a path.
pub open spec fn is_separator(c: char) -> bool {
    c == '/' || c == '\\'
}

/// A title is not empty and holds no path separator, so that the file
/// named after it lies in the notes directory.
pub open spec fn valid_title(title: Seq<char>) -> bool {
    title.len() > 0 && forall|i: int| 0 <= i < title.len() ==> !is_separator(#[trigger] title[i])
}

/// Whether `title` can name a note.
pub fn title_is_valid(title: &str) -> (ok: bool)
    ensures
        ok == valid_title(title@),
{
    let mut clean = true;
    for c in it: title.chars()
        invariant
            it.seq() == title@,
            clean == (forall|i: int|
                0 <= i < it.index() ==> !is_separator(#[trigger] title@[i])),
    {
        if c == '/' || c == '\\' {
            clean = false;
        }
    }
    clean && !title.is_empty()
}

/// The note titled `title` with the text `content`, created at `date`;
/// `None` for a title that cannot name a note.
pub fn create_new_note(title: &str, content: String, date: Timestamp) -> (note: Option<Note>)
    ensures
        match note {
            Some(n) => valid_title(title@) && n@ == (NoteView {
                title: title@,
                content: content@,
                date,
            }),
            None => !valid_title(title@),
        },
{
    if title_is_valid(title) {
        Some(Note { title: String::from_str(title), content, date })
    } else {
        None
    }
}

/// Suffix of a note's file name.
pub const NOTE_SUFFIX: &'static str = ".md";

/// The path `notes/<title>.md`: the file named after the title, in the
/// notes directory.
pub open spec fn path_of(title: Seq<char>) -> Seq<char> {
    NOTES_DIR@ + "/"@ + title + NOTE_SUFFIX@
}

/// Path of the Markdown file that belongs to the note titled `title`.
pub fn note_path(title: &str) -> (path: String)
    ensures
        path@ == path_of(title@),
{
    let mut path = String::from_str(NOTES_DIR);
    path.append("/");
    path.append(title);
    path.append(NOTE_SUFFIX);
    path
}

/// The file of a note with a valid title lies directly in the notes
/// directory: the only separator in its path is the one after the
/// directory's name.
pub proof fn law_valid_title_stays_in_directory(title: Seq<char>)
    requires
        valid_title(title),
    ensures
        forall|i: int|
            0 <= i < path_of(title).len() ==> (is_separator(#[trigger] path_of(title)[i]) <==> i
                == NOTES_DIR@.len()),
{
    reveal_strlit("notes");
    reveal_strlit("/");
    reveal_strlit(".md");
}

} // verus!
