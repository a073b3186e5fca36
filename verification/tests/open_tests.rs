use noe::Handle;

fn wipe(handle: &mut Handle) {
    let notes = handle.list_notes().expect("listing should succeed");
    let numbers: Vec<u16> = notes.as_vec().iter().map(|n| n.number).collect();
    for number in numbers {
        handle.remove_note(number).expect("removal should succeed");
    }
}

fn listed_rows(handle: &Handle) -> Vec<(u16, String, bool)> {
    let notes = handle.list_notes().expect("listing should succeed");
    let mut rows: Vec<(u16, String, bool)> = notes
        .as_vec()
        .iter()
        .map(|n| (n.number, n.text.clone(), n.done))
        .collect();
    rows.sort();
    rows
}

#[test]
fn open_is_idempotent() {
    let path = "/tmp/noe_idempotent_open.db";

    let mut handle = Handle::open(path).expect("first open should succeed");
    wipe(&mut handle);
    handle.new_note(String::from("survives"), None).expect("create should succeed");
    handle.new_note(String::from("reopening"), Some(7)).expect("create should succeed");
    let before = listed_rows(&handle);
    assert_eq!(before.len(), 2);
    drop(handle);

    let handle = Handle::open(path).expect("second open should succeed");
    assert_eq!(listed_rows(&handle), before);
    drop(handle);

    let handle = Handle::open(path).expect("third open should succeed");
    assert_eq!(listed_rows(&handle), before);
}
