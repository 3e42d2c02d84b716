//! What the file picker's answer means for the slot that asked.

use crate::error::{PickError, TaskError};
use crate::picture::Picture;
use crate::slot::Delivery;
use vstd::prelude::*;

verus! {

/// The one path that the picker's answer selects: `selection` is `None`
/// where the dialog was closed, and else the selected paths.
///
/// No path is a cancelled dialog; more than one is rejected.
pub open spec fn selected(selection: Option<Vec<String>>) -> Result<String, PickError> {
    match selection {
        None => Err(PickError::DialogCancelled),
        Some(paths) => if paths@.len() == 0 {
            Err(PickError::DialogCancelled)
        } else if paths@.len() == 1 {
            Ok(paths@[0])
        } else {
            Err(PickError::DialogMultiSelectRejected)
        },
    }
}

/// The one path that the picker's answer selects.
pub fn single_selection(selection: Option<Vec<String>>) -> (choice: Result<String, PickError>)
    ensures
        choice == selected(selection),
{
    match selection {
        None => Err(PickError::DialogCancelled),
        Some(mut paths) => {
            if paths.len() > 1 {
                Err(PickError::DialogMultiSelectRejected)
            } else {
                match paths.pop() {
                    Some(path) => Ok(path),
                    None => Err(PickError::DialogCancelled),
                }
            }
        },
    }
}

/// The first of the selected paths, whatever their number: `None` where
/// the dialog was closed or nothing was selected.
pub fn first_selection(selection: Option<Vec<String>>) -> (choice: Option<String>)
    ensures
        choice == match selection {
            None => None::<String>,
            Some(paths) => if paths@.len() == 0 {
                None
            } else {
                Some(paths@[0])
            },
        },
{
    match selection {
        None => None,
        Some(mut paths) => {
            if paths.len() == 0 {
                None
            } else {
                Some(paths.swap_remove(0))
            }
        },
    }
}

/// A pick's result once the selected file was looked at: the decoded
/// image, or `DecodeFailed` with the path and the decoder's reason.
pub fn after_decode(path: String, decoded: Result<Picture, String>) -> (result: Result<
    Picture,
    PickError,
>)
    ensures
        result == match decoded {
            Ok(picture) => Ok::<Picture, PickError>(picture),
            Err(reason) => Err(PickError::DecodeFailed(path, reason)),
        },
{
    match decoded {
        Ok(picture) => Ok(picture),
        Err(reason) => Err(PickError::DecodeFailed(path, reason)),
    }
}

/// A pick's result as what is sent to a slot.
pub fn pick_delivery(result: Result<Picture, PickError>) -> (delivery: Delivery)
    ensures
        delivery == match result {
            Ok(picture) => Ok::<Picture, TaskError>(picture),
            Err(error) => Err(TaskError::Pick(error)),
        },
{
    match result {
        Ok(picture) => Ok(picture),
        Err(error) => Err(TaskError::Pick(error)),
    }
}

} // verus!
