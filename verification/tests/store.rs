use mdnotes::note::{create_new_note, Note, Timestamp};
use mdnotes::store::{append, load, save, IndexFile, StoreError, CORRUPT_INDEX, READ_FAILURE};

fn stored(title: &str, content: &str, secs: i64) -> Note {
    Note {
        title: title.to_string(),
        content: content.to_string(),
        date: Timestamp { secs, nanos: 0 },
    }
}

#[test]
fn load_of_missing_index_is_empty() {
    assert_eq!(load(&IndexFile::Missing), Ok(Vec::new()));
}

#[test]
fn load_of_malformed_index_is_corrupt() {
    assert_eq!(load(&IndexFile::Malformed), Err(StoreError::CorruptIndex));
}

#[test]
fn load_of_unreadable_index_is_io_error() {
    assert_eq!(load(&IndexFile::Unreadable), Err(StoreError::Io));
}

#[test]
fn load_gives_the_notes_in_order() {
    let notes = vec![stored("b", "2", 20), stored("a", "1", 10), stored("c", "3", 30)];
    let file = IndexFile::Notes(notes.clone());
    assert_eq!(load(&file), Ok(notes));
}

#[test]
fn save_then_load_round_trips() {
    let notes = vec![stored("a", "alpha", 1), stored("b", "", 2), stored("a", "again", 3)];
    let file = save(notes.clone());
    assert_eq!(file, IndexFile::Notes(notes.clone()));
    assert_eq!(load(&file), Ok(notes));
}

#[test]
fn save_then_load_round_trips_empty() {
    let file = save(Vec::new());
    assert_eq!(load(&file), Ok(Vec::new()));
}

#[test]
fn load_twice_gives_the_same() {
    let file = save(vec![stored("a", "alpha", 1), stored("b", "beta", 2)]);
    let first = load(&file);
    let second = load(&file);
    assert_eq!(first, second);
    let bad = IndexFile::Malformed;
    assert_eq!(load(&bad), load(&bad));
    let none = IndexFile::Missing;
    assert_eq!(load(&none), load(&none));
}

#[test]
fn append_to_missing_index_starts_the_store() {
    let n = stored("todo", "buy milk", 5);
    assert_eq!(append(&IndexFile::Missing, n.clone()), Ok(vec![n]));
}

#[test]
fn append_adds_at_the_end() {
    let file = save(vec![stored("a", "1", 1), stored("b", "2", 2)]);
    let r = append(&file, stored("c", "3", 3));
    assert_eq!(r, Ok(vec![stored("a", "1", 1), stored("b", "2", 2), stored("c", "3", 3)]));
}

#[test]
fn append_to_malformed_index_fails() {
    assert_eq!(append(&IndexFile::Malformed, stored("a", "1", 1)), Err(StoreError::CorruptIndex));
}

#[test]
fn append_to_unreadable_index_fails() {
    assert_eq!(append(&IndexFile::Unreadable, stored("a", "1", 1)), Err(StoreError::Io));
}

#[test]
fn append_keeps_duplicate_titles() {
    let file = save(vec![stored("a", "1", 1)]);
    assert_eq!(
        append(&file, stored("a", "2", 2)),
        Ok(vec![stored("a", "1", 1), stored("a", "2", 2)])
    );
}

#[test]
fn created_note_is_loaded_back() {
    let date = Timestamp { secs: 1_700_000_000, nanos: 0 };
    let created = create_new_note("todo", "buy milk".to_string(), date).unwrap();
    let notes = append(&IndexFile::Missing, created).unwrap();
    let loaded = load(&save(notes)).unwrap();
    assert_eq!(loaded.len(), 1);
    assert_eq!(loaded[0].title, "todo");
    assert_eq!(loaded[0].content, "buy milk");
    assert_eq!(loaded[0].date, date);
}

#[test]
fn store_errors_have_diagnostics() {
    assert_eq!(StoreError::Io.message(), "Erro ao ler o arquivo");
    assert_eq!(StoreError::CorruptIndex.message(), "Erro ao desserializar as notas");
    assert_eq!(StoreError::Io.message(), READ_FAILURE);
    assert_eq!(StoreError::CorruptIndex.message(), CORRUPT_INDEX);
}
