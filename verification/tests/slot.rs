use image_transfer::error::{PickError, RunError, TaskError};
use image_transfer::handle::{task_pair, Status};
use image_transfer::picture::Picture;
use image_transfer::slot::{Delivery, Slot, SlotEvent, SlotState};

fn picture(label: &str) -> Picture {
    Picture::from_rgba(2, 1, vec![1, 2, 3, 4, 5, 6, 7, 8], label.to_string()).unwrap()
}

fn populated(label: &str) -> Slot {
    let mut slot = Slot::new("input-1".to_string());
    let task = slot.request().unwrap();
    assert!(task.complete(Ok(picture(label))).is_ok());
    assert_eq!(slot.poll(), SlotEvent::Loaded);
    slot
}

#[test]
fn a_new_slot_is_empty() {
    let slot = Slot::new("output".to_string());
    assert_eq!(slot.name(), "output");
    assert_eq!(slot.state(), SlotState::Empty);
    assert!(!slot.is_pending());
    assert_eq!(slot.picture(), &None);
}

#[test]
fn a_poll_without_a_task_finds_nothing() {
    let mut slot = Slot::new("output".to_string());
    assert_eq!(slot.poll(), SlotEvent::Idle);
    assert_eq!(slot.state(), SlotState::Empty);
    let mut shown = populated("a.png");
    assert_eq!(shown.poll(), SlotEvent::Idle);
    assert_eq!(shown.state(), SlotState::Populated);
}

#[test]
fn a_request_makes_the_slot_pending() {
    let mut slot = Slot::new("input-1".to_string());
    let task = slot.request();
    assert!(task.is_some());
    assert_eq!(slot.state(), SlotState::Pending);
    assert!(slot.is_pending());
    assert_eq!(slot.poll(), SlotEvent::Waiting);
    assert_eq!(slot.poll(), SlotEvent::Waiting);
    assert_eq!(slot.state(), SlotState::Pending);
}

#[test]
fn a_request_while_pending_is_ignored() {
    let mut slot = Slot::new("input-1".to_string());
    let first = slot.request().unwrap();
    assert!(slot.request().is_none());
    assert!(slot.request().is_none());
    assert_eq!(slot.state(), SlotState::Pending);
    assert!(first.complete(Ok(picture("first.png"))).is_ok());
    assert_eq!(slot.poll(), SlotEvent::Loaded);
    assert_eq!(slot.picture().as_ref().unwrap().label(), "first.png");
    assert!(slot.request().is_some());
}

#[test]
fn a_delivered_image_populates_the_slot() {
    let mut slot = Slot::new("input-1".to_string());
    let task = slot.request().unwrap();
    assert!(task.complete(Ok(picture("a.png"))).is_ok());
    assert_eq!(slot.poll(), SlotEvent::Loaded);
    assert_eq!(slot.state(), SlotState::Populated);
    assert_eq!(slot.picture(), &Some(picture("a.png")));
    assert_eq!(slot.poll(), SlotEvent::Idle);
    assert_eq!(slot.picture(), &Some(picture("a.png")));
}

#[test]
fn a_failure_marks_the_slot_failed() {
    let mut slot = Slot::new("output".to_string());
    let task = slot.request().unwrap();
    let error = TaskError::Run(RunError::ProcessFailed(Some(1)));
    assert!(task.complete(Err(error.clone())).is_ok());
    assert_eq!(slot.poll(), SlotEvent::Failed(Some(error)));
    assert_eq!(slot.state(), SlotState::Failed);
    assert_eq!(slot.picture(), &None);
    assert_eq!(slot.poll(), SlotEvent::Idle);
    assert_eq!(slot.state(), SlotState::Failed);
}

#[test]
fn a_task_that_ends_without_a_word_marks_the_slot_failed() {
    let mut slot = Slot::new("output".to_string());
    let task = slot.request().unwrap();
    drop(task);
    assert_eq!(slot.poll(), SlotEvent::Failed(None));
    assert_eq!(slot.state(), SlotState::Failed);
    assert!(!slot.is_pending());
}

#[test]
fn a_failure_keeps_the_image_of_before() {
    let mut slot = populated("old.png");
    let task = slot.request().unwrap();
    let error = TaskError::Pick(PickError::DecodeFailed("x".to_string(), "bad".to_string()));
    assert!(task.complete(Err(error.clone())).is_ok());
    assert_eq!(slot.poll(), SlotEvent::Failed(Some(error)));
    assert_eq!(slot.state(), SlotState::Failed);
    assert_eq!(slot.picture(), &Some(picture("old.png")));
}

#[test]
fn a_cancelled_dialog_leaves_the_slot_as_before() {
    let mut empty = Slot::new("input-1".to_string());
    let task = empty.request().unwrap();
    assert!(task.complete(Err(TaskError::Pick(PickError::DialogCancelled))).is_ok());
    assert_eq!(empty.poll(), SlotEvent::Dismissed);
    assert_eq!(empty.state(), SlotState::Empty);

    let mut shown = populated("old.png");
    let task = shown.request().unwrap();
    assert!(task.complete(Err(TaskError::Pick(PickError::DialogMultiSelectRejected))).is_ok());
    assert_eq!(shown.poll(), SlotEvent::Dismissed);
    assert_eq!(shown.state(), SlotState::Populated);
    assert_eq!(shown.picture(), &Some(picture("old.png")));
}

#[test]
fn the_old_image_stays_on_display_while_a_new_pick_is_pending() {
    let mut slot = populated("old.png");
    let task = slot.request().unwrap();
    assert_eq!(slot.state(), SlotState::Pending);
    assert_eq!(slot.picture(), &Some(picture("old.png")));
    assert_eq!(slot.poll(), SlotEvent::Waiting);
    assert_eq!(slot.picture(), &Some(picture("old.png")));
    assert!(task.complete(Ok(picture("new.png"))).is_ok());
    assert_eq!(slot.poll(), SlotEvent::Loaded);
    assert_eq!(slot.state(), SlotState::Populated);
    assert_eq!(slot.picture(), &Some(picture("new.png")));
}

#[test]
fn a_new_image_clears_a_failure() {
    let mut slot = Slot::new("output".to_string());
    drop(slot.request().unwrap());
    assert_eq!(slot.poll(), SlotEvent::Failed(None));
    let retry = slot.request().unwrap();
    assert_eq!(slot.state(), SlotState::Pending);
    assert!(retry.complete(Ok(picture("out.jpg"))).is_ok());
    assert_eq!(slot.poll(), SlotEvent::Loaded);
    assert_eq!(slot.state(), SlotState::Populated);
}

#[test]
fn a_result_is_taken_once() {
    let mut slot = Slot::new("output".to_string());
    let task = slot.request().unwrap();
    assert!(task.complete(Ok(picture("out.jpg"))).is_ok());
    assert_eq!(slot.poll(), SlotEvent::Loaded);
    for _ in 0..3 {
        assert_eq!(slot.poll(), SlotEvent::Idle);
        assert_eq!(slot.state(), SlotState::Populated);
    }
}

#[test]
fn unloading_needs_the_policy_and_an_image() {
    let mut slot = populated("a.png");
    assert!(!slot.unload(false));
    assert_eq!(slot.state(), SlotState::Populated);
    assert!(slot.unload(true));
    assert_eq!(slot.state(), SlotState::Empty);
    assert_eq!(slot.picture(), &None);
    assert!(!slot.unload(true));
}

#[test]
fn a_pending_or_failed_slot_is_not_unloaded() {
    let mut pending = populated("a.png");
    let _task = pending.request().unwrap();
    assert!(!pending.unload(true));
    assert_eq!(pending.picture(), &Some(picture("a.png")));

    let mut failed = populated("a.png");
    drop(failed.request().unwrap());
    assert_eq!(failed.poll(), SlotEvent::Failed(None));
    assert!(!failed.unload(true));
    assert_eq!(failed.state(), SlotState::Failed);
}

#[test]
fn abandoning_gives_the_task_up() {
    let mut slot = populated("a.png");
    let task = slot.request().unwrap();
    slot.abandon();
    assert_eq!(slot.state(), SlotState::Populated);
    assert!(task.complete(Ok(picture("late.png"))).is_err());
    assert_eq!(slot.poll(), SlotEvent::Idle);
    assert_eq!(slot.picture(), &Some(picture("a.png")));
    slot.abandon();
    assert_eq!(slot.state(), SlotState::Populated);
}

#[test]
fn a_handle_is_attached_unless_a_task_is_at_work() {
    let mut slot = Slot::new("output".to_string());
    let (first, first_handle) = task_pair::<Delivery>();
    assert!(slot.attach(first_handle).is_none());
    assert_eq!(slot.state(), SlotState::Pending);
    let (_second, second_handle) = task_pair::<Delivery>();
    assert!(slot.attach(second_handle).is_some());
    assert!(first.complete(Ok(picture("out.jpg"))).is_ok());
    assert_eq!(slot.poll(), SlotEvent::Loaded);
    assert_eq!(slot.picture().as_ref().unwrap().label(), "out.jpg");
}

#[test]
fn settle_applies_each_answer() {
    let mut slot = Slot::new("output".to_string());
    assert_eq!(slot.settle(Status::Ready(Ok(picture("x")))), SlotEvent::Idle);
    assert_eq!(slot.state(), SlotState::Empty);
    let _task = slot.request().unwrap();
    assert_eq!(slot.settle(Status::Pending), SlotEvent::Waiting);
    assert_eq!(slot.state(), SlotState::Pending);
    assert_eq!(slot.settle(Status::Ready(Ok(picture("x")))), SlotEvent::Loaded);
    assert_eq!(slot.state(), SlotState::Populated);
    let _again = slot.request().unwrap();
    assert_eq!(slot.settle(Status::Closed), SlotEvent::Failed(None));
    assert_eq!(slot.state(), SlotState::Failed);
    assert_eq!(slot.picture(), &Some(picture("x")));
}
