use futures::channel::oneshot::Canceled;
use image_transfer::handle::{task_pair, Handle, Status};

#[test]
fn a_new_handle_is_not_spent_and_pending() {
    let (completer, mut handle) = task_pair::<u32>();
    assert!(!handle.spent());
    assert_eq!(handle.try_take(), Status::Pending);
    assert_eq!(handle.try_take(), Status::Pending);
    assert!(!handle.spent());
    assert_eq!(completer.complete(1), Ok(()));
}

#[test]
fn the_result_is_ready_once_and_closed_ever_after() {
    let (completer, mut handle) = task_pair::<String>();
    assert_eq!(completer.complete("done".to_string()), Ok(()));
    assert_eq!(handle.try_take(), Status::Ready("done".to_string()));
    assert!(handle.spent());
    for _ in 0..5 {
        assert_eq!(handle.try_take(), Status::Closed);
        assert!(handle.spent());
    }
}

#[test]
fn a_task_that_ends_without_a_result_closes_the_handle() {
    let (completer, mut handle) = task_pair::<u32>();
    drop(completer);
    assert_eq!(handle.try_take(), Status::Closed);
    assert!(handle.spent());
    assert_eq!(handle.try_take(), Status::Closed);
}

#[test]
fn sending_to_a_dropped_handle_gives_the_value_back() {
    let (completer, handle) = task_pair::<u32>();
    drop(handle);
    assert_eq!(completer.complete(7), Err(7));
}

#[test]
fn each_pair_is_a_channel_of_its_own() {
    let (first, mut first_handle) = task_pair::<u32>();
    let (second, mut second_handle) = task_pair::<u32>();
    assert_eq!(second.complete(2), Ok(()));
    assert_eq!(first_handle.try_take(), Status::Pending);
    assert_eq!(second_handle.try_take(), Status::Ready(2));
    assert_eq!(first.complete(1), Ok(()));
    assert_eq!(first_handle.try_take(), Status::Ready(1));
}

fn fresh() -> Handle<u32> {
    let (_completer, handle) = task_pair::<u32>();
    handle
}

#[test]
fn settle_makes_pending_of_no_value_yet() {
    let mut handle = fresh();
    assert_eq!(handle.settle(Ok(None)), Status::Pending);
    assert!(!handle.spent());
}

#[test]
fn settle_makes_ready_of_a_value_and_spends_the_handle() {
    let mut handle = fresh();
    assert_eq!(handle.settle(Ok(Some(3))), Status::Ready(3));
    assert!(handle.spent());
}

#[test]
fn settle_makes_closed_of_a_sender_that_is_gone() {
    let mut handle = fresh();
    assert_eq!(handle.settle(Err(Canceled)), Status::Closed);
    assert!(handle.spent());
}

#[test]
fn a_spent_handle_answers_closed_whatever_is_read() {
    let mut handle = fresh();
    assert_eq!(handle.settle(Ok(Some(3))), Status::Ready(3));
    assert_eq!(handle.settle(Ok(Some(4))), Status::Closed);
    assert_eq!(handle.settle(Ok(None)), Status::Closed);
    assert_eq!(handle.settle(Err(Canceled)), Status::Closed);
    assert!(handle.spent());
}
