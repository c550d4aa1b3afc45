use catbash::errors::AppError;
use catbash::store::FileStore;

#[test]
fn staging_is_idempotent() {
    let mut store = FileStore::new();
    store.write_to_file("first content", "run.sh");
    store.write_to_file("second content", "run.sh");
    assert_eq!(
        store.read_from_file("run.sh"),
        Ok("second content".to_string())
    );
}

#[test]
fn staging_then_retrieving_round_trips() {
    let mut store = FileStore::new();
    store.write_to_file("echo hi\n", "run.sh");
    assert_eq!(store.read_from_file("run.sh"), Ok("echo hi\n".to_string()));
}

#[test]
fn captured_value_is_persisted_verbatim() {
    let mut store = FileStore::new();
    store.write_to_file("echo hi", "run.sh");
    let captured = "hi\n";
    store.write_to_file(captured, "out.txt");
    assert_eq!(store.read_from_file("out.txt"), Ok("hi\n".to_string()));
    assert_eq!(store.read_from_file("run.sh"), Ok("echo hi".to_string()));
}

#[test]
fn retrieving_a_missing_file_fails() {
    let store = FileStore::new();
    assert_eq!(
        store.read_from_file("absent.txt"),
        Err(AppError::FileNotFound(
            "File not found in given path".to_string()
        ))
    );
}

#[test]
fn deletion_removes_the_file() {
    let mut store = FileStore::new();
    store.write_to_file("echo hi", "temp.txt");
    store.write_to_file("other", "keep.txt");
    assert!(store.file_exists("temp.txt"));
    assert_eq!(store.delete_file("temp.txt"), Ok(()));
    assert!(!store.file_exists("temp.txt"));
    assert!(store.file_exists("keep.txt"));
}

#[test]
fn deleting_a_missing_file_fails() {
    let mut store = FileStore::new();
    assert_eq!(
        store.delete_file("absent.txt"),
        Err(AppError::FileNotFound(
            "File not found in given path".to_string()
        ))
    );
}

#[test]
fn writing_after_deletion_recreates_the_file() {
    let mut store = FileStore::new();
    store.write_to_file("one", "f.txt");
    store.delete_file("f.txt").unwrap();
    store.write_to_file("two", "f.txt");
    assert_eq!(store.read_from_file("f.txt"), Ok("two".to_string()));
}
