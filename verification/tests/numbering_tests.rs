use noe::{allocate_number, NoteError};

#[test]
fn auto_on_empty_assigns_one() {
    let used: Vec<u16> = Vec::new();
    assert_eq!(allocate_number(&used, None), Ok(1));
}

#[test]
fn auto_never_fills_gaps() {
    let used: Vec<u16> = vec![1, 3, 5];
    assert_eq!(allocate_number(&used, None), Ok(6));
}

#[test]
fn requested_free_is_honoured() {
    let used: Vec<u16> = vec![1];
    assert_eq!(allocate_number(&used, Some(10)), Ok(10));
}

#[test]
fn requested_collision_falls_back() {
    let used: Vec<u16> = vec![1, 3, 5];
    assert_eq!(allocate_number(&used, Some(3)), Ok(6));
}

#[test]
fn requested_zero_is_honoured_when_free() {
    let used: Vec<u16> = Vec::new();
    assert_eq!(allocate_number(&used, Some(0)), Ok(0));
}

#[test]
fn requested_max_is_honoured_when_free() {
    let used: Vec<u16> = Vec::new();
    assert_eq!(allocate_number(&used, Some(65535)), Ok(65535));
}

#[test]
fn exhausted_when_max_taken_and_auto_forced() {
    let used: Vec<u16> = vec![65535];
    assert_eq!(allocate_number(&used, None), Err(NoteError::IdentifierSpaceExhausted));
}

#[test]
fn exhausted_when_request_collides_at_max() {
    let used: Vec<u16> = vec![65535];
    assert_eq!(
        allocate_number(&used, Some(65535)),
        Err(NoteError::IdentifierSpaceExhausted)
    );
}
