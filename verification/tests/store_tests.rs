use noe::{Handle, NoteError};

fn listed(handle: &Handle) -> Vec<(u16, String, bool)> {
    let notes = handle.list_notes().expect("listing should succeed");
    let mut rows: Vec<(u16, String, bool)> = notes
        .as_vec()
        .iter()
        .map(|n| (n.number, n.text.clone(), n.done))
        .collect();
    rows.sort();
    rows
}

#[test]
fn round_trip_single_note() {
    let mut handle = Handle::open(":memory:").expect("open should succeed");
    let n = handle.new_note(String::from("hello"), None).expect("create should succeed");
    let rows = listed(&handle);
    assert_eq!(rows.len(), 1);
    assert_eq!(rows[0], (n, String::from("hello"), false));
}

#[test]
fn empty_store_lists_nothing() {
    let handle = Handle::open(":memory:").expect("open should succeed");
    assert_eq!(listed(&handle).len(), 0);
}

#[test]
fn scenario_create_mark_remove() {
    let mut handle = Handle::open(":memory:").expect("open should succeed");
    assert_eq!(handle.new_note(String::from("buy milk"), None), Ok(1));
    assert_eq!(handle.new_note(String::from("walk dog"), Some(5)), Ok(5));
    assert_eq!(handle.new_note(String::from("call mom"), None), Ok(6));

    handle.done_note(5).expect("marking done should succeed");
    let rows = listed(&handle);
    assert_eq!(
        rows,
        vec![
            (1, String::from("buy milk"), false),
            (5, String::from("walk dog"), true),
            (6, String::from("call mom"), false),
        ]
    );

    handle.remove_note(1).expect("removal should succeed");
    let rows = listed(&handle);
    assert_eq!(
        rows,
        vec![
            (5, String::from("walk dog"), true),
            (6, String::from("call mom"), false),
        ]
    );
}

#[test]
fn missing_number_is_a_silent_noop() {
    let mut handle = Handle::open(":memory:").expect("open should succeed");
    handle.new_note(String::from("keep me"), None).expect("create should succeed");
    let before = listed(&handle);

    assert_eq!(handle.done_note(999), Ok(()));
    assert_eq!(handle.remove_note(999), Ok(()));
    assert_eq!(listed(&handle), before);
}

#[test]
fn collision_falls_back_on_live_store() {
    let mut handle = Handle::open(":memory:").expect("open should succeed");
    assert_eq!(handle.new_note(String::from("first"), None), Ok(1));
    assert_eq!(handle.new_note(String::from("second"), Some(1)), Ok(2));
}

#[test]
fn undone_clears_the_flag() {
    let mut handle = Handle::open(":memory:").expect("open should succeed");
    let n = handle.new_note(String::from("toggle"), None).expect("create should succeed");
    handle.done_note(n).expect("marking done should succeed");
    handle.undone_note(n).expect("marking undone should succeed");
    let rows = listed(&handle);
    assert_eq!(rows[0].2, false);
}

#[test]
fn open_fails_where_nothing_can_be_created() {
    let result = Handle::open("/nonexistent-noe-dir/notes.db");
    assert!(matches!(result, Err(NoteError::StorageUnavailable)));
}

#[test]
fn store_exhausts_at_the_numeric_ceiling() {
    let mut handle = Handle::open(":memory:").expect("open should succeed");
    assert_eq!(handle.new_note(String::from("last slot"), Some(65535)), Ok(65535));
    assert_eq!(
        handle.new_note(String::from("one too many"), None),
        Err(NoteError::IdentifierSpaceExhausted)
    );
    assert_eq!(listed(&handle).len(), 1);
}

#[test]
fn note_text_keeps_escapes_verbatim() {
    let mut handle = Handle::open(":memory:").expect("open should succeed");
    let n = handle.new_note(String::from("line\\nbreak"), None).expect("create should succeed");
    let rows = listed(&handle);
    assert_eq!(rows[0], (n, String::from("line\\nbreak"), false));
}
