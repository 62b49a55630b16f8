//! The note store: what the index file holds, and what loading, saving
//! and appending make of it.
//!
//! The caller reads and decodes the file and hands the outcome in as an
//! [`IndexFile`]; it encodes and writes what [`save`] hands back.

use vstd::prelude::*;
use crate::note::Note;

verus! {

/// The index file as the caller found it, or as it is to be written.
#[derive(Debug, PartialEq, Eq)]
pub enum IndexFile {
    /// There is no such file.
    Missing,
    /// The file is there and could not be read.
    Unreadable,
    /// The file was read and is no sequence of note records.
    Malformed,
    /// The file holds these notes, in this order.
    Notes(Vec<Note>),
}

/// What an [`IndexFile`] means in contracts.
pub ghost enum IndexView {
    Missing,
    Unreadable,
    Malformed,
    Notes(Seq<Note>),
}

impl View for IndexFile {
    type V = IndexView;

    open spec fn view(&self) -> IndexView {
        match self {
            IndexFile::Missing => IndexView::Missing,
            IndexFile::Unreadable => IndexView::Unreadable,
            IndexFile::Malformed => IndexView::Malformed,
            IndexFile::Notes(notes) => IndexView::Notes(notes@),
        }
    }
}

/// Diagnostic for an index file that could not be read.
pub const READ_FAILURE: &'static str = "Erro ao ler o arquivo";

/// Diagnostic for a malformed index file.
pub const CORRUPT_INDEX: &'static str = "Erro ao desserializar as notas";

/// Why the store gave no notes.
#[derive(Clone, Copy, Debug, PartialEq, Eq, Structural)]
pub enum StoreError {
    /// The index file could not be read.
    Io,
    /// The index file is malformed.
    CorruptIndex,
}

impl StoreError {
    /// The diagnostic to print before the command ends.
    pub fn message(&self) -> (text: &'static str)
        ensures
            text@ == match self {
                StoreError::Io => READ_FAILURE@,
                StoreError::CorruptIndex => CORRUPT_INDEX@,
            },
    {
        match self {
            StoreError::Io => READ_FAILURE,
            StoreError::CorruptIndex => CORRUPT_INDEX,
        }
    }
}

/// The notes that an index file stands for. A missing file is an empty
/// store, not an error.
pub open spec fn loaded(file: IndexView) -> Result<Seq<Note>, StoreError> {
    match file {
        IndexView::Missing => Ok(Seq::empty()),
        IndexView::Unreadable => Err(StoreError::Io),
        IndexView::Malformed => Err(StoreError::CorruptIndex),
        IndexView::Notes(notes) => Ok(notes),
    }
}

/// The index file that holds exactly `notes`.
pub open spec fn saved(notes: Seq<Note>) -> IndexView {
    IndexView::Notes(notes)
}

/// The notes that `file` stands for once `note` has joined them.
pub open spec fn appended(file: IndexView, note: Note) -> Result<Seq<Note>, StoreError> {
    match loaded(file) {
        Ok(notes) => Ok(notes.push(note)),
        Err(e) => Err(e),
    }
}

/// A result of the store as a mathematical value.
pub open spec fn result_view(r: Result<Vec<Note>, StoreError>) -> Result<Seq<Note>, StoreError> {
    match r {
        Ok(notes) => Ok(notes@),
        Err(e) => Err(e),
    }
}

/// The notes of the index, in order. A missing file gives no notes; an
/// unreadable or malformed one gives an error and no partial result.
pub fn load(file: &IndexFile) -> (r: Result<Vec<Note>, StoreError>)
    ensures
        result_view(r) == loaded(file@),
{
    match file {
        IndexFile::Missing => Ok(Vec::new()),
        IndexFile::Unreadable => Err(StoreError::Io),
        IndexFile::Malformed => Err(StoreError::CorruptIndex),
        IndexFile::Notes(notes) => Ok(notes.clone()),
    }
}

/// The index file that replaces whatever was there: it holds all of
/// `notes` and nothing else.
pub fn save(notes: Vec<Note>) -> (file: IndexFile)
    ensures
        file@ == saved(notes@),
{
    IndexFile::Notes(notes)
}

/// Loads the index and adds `note` at the end. The caller persists the
/// result with [`save`].
pub fn append(file: &IndexFile, note: Note) -> (r: Result<Vec<Note>, StoreError>)
    ensures
        result_view(r) == appended(file@, note),
{
    match load(file) {
        Ok(mut notes) => {
            notes.push(note);
            Ok(notes)
        },
        Err(e) => Err(e),
    }
}

/// Saving and then loading gives back the same notes, field for field
/// and in the same order.
pub proof fn law_save_then_load(notes: Seq<Note>)
    ensures
        loaded(saved(notes)) == Ok::<Seq<Note>, StoreError>(notes),
{
}

/// Loading is a function of the index file: two loads of one file, with
/// no save between them, give the same result.
pub proof fn law_load_is_repeatable(
    file: IndexView,
    first: Result<Vec<Note>, StoreError>,
    second: Result<Vec<Note>, StoreError>,
)
    requires
        result_view(first) == loaded(file),
        result_view(second) == loaded(file),
    ensures
        result_view(first) == result_view(second),
{
}

/// Loading a missing index gives the empty sequence, not an error.
pub proof fn law_missing_index_is_empty()
    ensures
        loaded(IndexView::Missing) == Ok::<Seq<Note>, StoreError>(Seq::empty()),
{
}

/// What was appended is what a later load ends with: after a save of the
/// result, the index holds the earlier notes and then `note`.
pub proof fn law_append_then_load(file: IndexView, note: Note)
    requires
        loaded(file) is Ok,
    ensures
        appended(file, note) is Ok,
        loaded(saved(appended(file, note)->Ok_0)) == Ok::<Seq<Note>, StoreError>(
            loaded(file)->Ok_0.push(note),
        ),
{
}

} // verus!
