use image_transfer::error::{PickError, TaskError};
use image_transfer::picker::{after_decode, first_selection, pick_delivery, single_selection};
use image_transfer::picture::Picture;

fn strings(items: &[&str]) -> Vec<String> {
    items.iter().map(|s| s.to_string()).collect()
}

fn dot() -> Picture {
    Picture::from_rgba(1, 1, vec![9, 8, 7, 6], "/tmp/a.png".to_string()).unwrap()
}

#[test]
fn a_closed_dialog_is_a_cancellation() {
    assert_eq!(single_selection(None), Err(PickError::DialogCancelled));
}

#[test]
fn an_empty_selection_is_a_cancellation() {
    assert_eq!(single_selection(Some(Vec::new())), Err(PickError::DialogCancelled));
}

#[test]
fn one_selected_path_is_the_choice() {
    assert_eq!(single_selection(Some(strings(&["/tmp/a.png"]))), Ok("/tmp/a.png".to_string()));
}

#[test]
fn more_than_one_selected_path_is_rejected() {
    assert_eq!(
        single_selection(Some(strings(&["/tmp/a.png", "/tmp/b.png"]))),
        Err(PickError::DialogMultiSelectRejected)
    );
    assert_eq!(
        single_selection(Some(strings(&["a", "b", "c"]))),
        Err(PickError::DialogMultiSelectRejected)
    );
}

#[test]
fn first_selection_takes_the_first_of_any_number() {
    assert_eq!(first_selection(None), None);
    assert_eq!(first_selection(Some(Vec::new())), None);
    assert_eq!(first_selection(Some(strings(&["a"]))), Some("a".to_string()));
    assert_eq!(first_selection(Some(strings(&["a", "b", "c"]))), Some("a".to_string()));
}

#[test]
fn a_decoded_image_is_the_pick_s_result() {
    assert_eq!(after_decode("/tmp/a.png".to_string(), Ok(dot())), Ok(dot()));
}

#[test]
fn a_file_that_does_not_decode_fails_with_path_and_reason() {
    assert_eq!(
        after_decode("/tmp/a.txt".to_string(), Err("not an image".to_string())),
        Err(PickError::DecodeFailed("/tmp/a.txt".to_string(), "not an image".to_string()))
    );
}

#[test]
fn a_pick_s_result_is_sent_as_it_is() {
    assert_eq!(pick_delivery(Ok(dot())), Ok(dot()));
    assert_eq!(
        pick_delivery(Err(PickError::DialogCancelled)),
        Err(TaskError::Pick(PickError::DialogCancelled))
    );
}

#[test]
fn choices_of_the_user_are_no_failures() {
    assert!(TaskError::Pick(PickError::DialogCancelled).dismissal());
    assert!(TaskError::Pick(PickError::DialogMultiSelectRejected).dismissal());
    assert!(!TaskError::Pick(PickError::DecodeFailed(String::new(), String::new())).dismissal());
}
