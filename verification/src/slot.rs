//! Slots: named holders of one image each, and the background task that
//! may be at work for each of them.

use crate::error::TaskError;
use crate::handle::{task_pair, Completer, Handle, Status};
use crate::picture::Picture;
use vstd::prelude::*;

verus! {

/// What a background task sends for a slot: the image, or why there is none.
pub type Delivery = Result<Picture, TaskError>;

/// The state of a slot on display.
#[derive(Debug, Clone, Copy, PartialEq, Eq, Structural)]
pub enum SlotState {
    /// No image, no task, and the last task did not fail.
    Empty,
    /// A task is at work for the slot.
    Pending,
    /// An image is shown, and no task is at work.
    Populated,
    /// The last task failed, and no task is at work.
    Failed,
}

/// What one poll of a slot found.
#[derive(Debug, PartialEq, Eq)]
pub enum SlotEvent {
    /// No task was at work.
    Idle,
    /// The task is still at work.
    Waiting,
    /// The task's image is now shown.
    Loaded,
    /// The task ended by a choice of the user; the slot is as before the
    /// task.
    Dismissed,
    /// The task failed: its error, or `None` where it ended without a word.
    Failed(Option<TaskError>),
}

/// What a slot is.
pub struct SlotModel {
    /// The slot's name.
    pub name: Seq<char>,
    /// The image on display.
    pub shown: Option<Picture>,
    /// Whether a task is at work for the slot.
    pub pending: bool,
    /// Whether the last task that ended for the slot failed.
    pub failed: bool,
}

impl SlotModel {
    /// The state on display. A task at work shows as `Pending` whatever
    /// else holds; the image of before stays in `shown`.
    pub open spec fn state(self) -> SlotState {
        if self.pending {
            SlotState::Pending
        } else if self.failed {
            SlotState::Failed
        } else if self.shown is Some {
            SlotState::Populated
        } else {
            SlotState::Empty
        }
    }

    /// The slot after a poll of its task answered `status`.
    ///
    /// A slot without a task stays as it is, and so does one whose task is
    /// still at work. An image replaces what was shown. A failure, or a task
    /// that ended without a result, leaves what was shown and marks the slot
    /// failed. A dismissal only ends the task.
    pub open spec fn settled(self, status: Status<Delivery>) -> SlotModel {
        if !self.pending {
            self
        } else {
            match status {
                Status::Pending => self,
                Status::Ready(Ok(picture)) => SlotModel {
                    shown: Some(picture),
                    pending: false,
                    failed: false,
                    ..self
                },
                Status::Ready(Err(error)) => if error.is_dismissal() {
                    SlotModel { pending: false, ..self }
                } else {
                    SlotModel { pending: false, failed: true, ..self }
                },
                Status::Closed => SlotModel { pending: false, failed: true, ..self },
            }
        }
    }

    /// What a poll reports when the slot's task answered `status`.
    pub open spec fn event(self, status: Status<Delivery>) -> SlotEvent {
        if !self.pending {
            SlotEvent::Idle
        } else {
            match status {
                Status::Pending => SlotEvent::Waiting,
                Status::Ready(Ok(_)) => SlotEvent::Loaded,
                Status::Ready(Err(error)) => if error.is_dismissal() {
                    SlotEvent::Dismissed
                } else {
                    SlotEvent::Failed(Some(error))
                },
                Status::Closed => SlotEvent::Failed(None),
            }
        }
    }

    /// `after` and `event` are what some answer of the task makes of the
    /// slot.
    pub open spec fn polled(self, after: SlotModel, event: SlotEvent) -> bool {
        exists|status: Status<Delivery>|
            after == #[trigger] self.settled(status) && event == self.event(status)
    }

    /// The number of tasks at work for the slot.
    pub open spec fn outstanding(self) -> nat {
        if self.pending {
            1
        } else {
            0
        }
    }

    /// Whether `action` starts a task for the slot: it asks for one, and
    /// none is at work.
    pub open spec fn starts_task(self, action: SlotAction) -> bool {
        (action is Request || action is Attach) && !self.pending
    }

    /// The slot after `action`.
    ///
    /// A request or an attached handle makes the slot pending, and changes
    /// nothing while a task is at work. Abandoning ends the task. Unloading
    /// empties a populated slot where the policy allows it. A poll settles
    /// the slot by what the task answered.
    pub open spec fn after(self, action: SlotAction) -> SlotModel {
        match action {
            SlotAction::Request => SlotModel { pending: true, ..self },
            SlotAction::Attach => SlotModel { pending: true, ..self },
            SlotAction::Abandon => SlotModel { pending: false, ..self },
            SlotAction::Unload(movable) => if movable && self.state() is Populated {
                SlotModel { shown: None, ..self }
            } else {
                self
            },
            SlotAction::Poll(status) => self.settled(status),
        }
    }

    /// The slot after `actions` in turn.
    pub open spec fn after_all(self, actions: Seq<SlotAction>) -> SlotModel
        decreases actions.len(),
    {
        if actions.len() == 0 {
            self
        } else {
            self.after_all(actions.drop_last()).after(actions.last())
        }
    }
}

/// What can be done to a slot.
pub enum SlotAction {
    /// A task is asked for.
    Request,
    /// A handle is offered as the slot's task.
    Attach,
    /// The task at work is given up.
    Abandon,
    /// The image is to be unloaded, under a policy that allows it or not.
    Unload(bool),
    /// The slot is polled, and its task answers.
    Poll(Status<Delivery>),
}

/// However a slot is used, no more than one task is at work for it at any
/// time, and a task is started only while none is at work.
pub proof fn lemma_one_task_at_a_time(start: SlotModel, actions: Seq<SlotAction>, i: int)
    requires
        0 <= i < actions.len(),
    ensures
        start.after_all(actions.take(i)).outstanding() <= 1,
        start.after_all(actions.take(i + 1)).outstanding() <= 1,
        start.after_all(actions.take(i)).starts_task(actions[i]) ==> start.after_all(
            actions.take(i),
        ).outstanding() == 0 && start.after_all(actions.take(i + 1)).outstanding() == 1,
        !start.after_all(actions.take(i)).starts_task(actions[i]) ==> start.after_all(
            actions.take(i + 1),
        ).outstanding() <= start.after_all(actions.take(i)).outstanding(),
{
    assert(actions.take(i + 1).drop_last() == actions.take(i));
    assert(actions.take(i + 1).last() == actions[i]);
}

/// A poll never starts a task, and it ends at most the one at work: no
/// more than one task is ever at work for a slot, before and after.
pub proof fn lemma_poll_keeps_one_task(before: SlotModel, after: SlotModel, event: SlotEvent)
    requires
        before.polled(after, event),
    ensures
        before.outstanding() <= 1,
        after.outstanding() <= before.outstanding(),
{
}

/// A poll changes what is shown only by loading a new image; whatever else
/// happens, the image of before stays. The name stays in any case.
pub proof fn lemma_poll_keeps_image(before: SlotModel, after: SlotModel, event: SlotEvent)
    requires
        before.polled(after, event),
    ensures
        after.name == before.name,
        !(event is Loaded) ==> after.shown == before.shown,
        event is Loaded ==> after.shown is Some && after.state() is Populated,
        event is Waiting <==> after.pending,
{
}

/// A named holder of one image.
pub struct Slot {
    name: String,
    shown: Option<Picture>,
    task: Option<Handle<Delivery>>,
    failed: bool,
}

impl View for Slot {
    type V = SlotModel;

    closed spec fn view(&self) -> SlotModel {
        SlotModel {
            name: self.name@,
            shown: self.shown,
            pending: self.task is Some,
            failed: self.failed,
        }
    }
}

/// The empty slot named `name`.
pub open spec fn empty_slot(name: Seq<char>) -> SlotModel {
    SlotModel { name, shown: None, pending: false, failed: false }
}

impl Slot {
    /// The empty slot named `name`.
    pub fn new(name: String) -> (slot: Slot)
        ensures
            slot@ == empty_slot(name@),
    {
        Slot { name, shown: None, task: None, failed: false }
    }

    /// The slot's name.
    pub fn name(&self) -> (name: &String)
        ensures
            name@ == self@.name,
    {
        &self.name
    }

    /// The state on display.
    pub fn state(&self) -> (state: SlotState)
        ensures
            state == self@.state(),
    {
        if self.task.is_some() {
            SlotState::Pending
        } else if self.failed {
            SlotState::Failed
        } else if self.shown.is_some() {
            SlotState::Populated
        } else {
            SlotState::Empty
        }
    }

    /// Whether a task is at work for the slot.
    pub fn is_pending(&self) -> (yes: bool)
        ensures
            yes == self@.pending,
    {
        self.task.is_some()
    }

    /// The image on display.
    pub fn picture(&self) -> (shown: &Option<Picture>)
        ensures
            *shown == self@.shown,
    {
        &self.shown
    }

    /// Starts a task for the slot, unless one is at work.
    ///
    /// While a task is at work the request is ignored: the answer is `None`
    /// and the slot stays as it is. Otherwise the slot is pending from now
    /// on, with what it showed, and the answer is the end over which the
    /// new task sends its result.
    pub fn request(&mut self) -> (started: Option<Completer<Delivery>>)
        ensures
            started is Some <==> old(self)@.starts_task(SlotAction::Request),
            started is None ==> *final(self) == *old(self),
            final(self)@ == old(self)@.after(SlotAction::Request),
    {
        if self.task.is_some() {
            return None;
        }
        let (completer, handle) = task_pair::<Delivery>();
        self.task = Some(handle);
        Some(completer)
    }

    /// Takes `handle` as the slot's task, unless one is at work: then the
    /// handle comes back and the slot stays as it is.
    pub fn attach(&mut self, handle: Handle<Delivery>) -> (refused: Option<Handle<Delivery>>)
        ensures
            refused is None <==> old(self)@.starts_task(SlotAction::Attach),
            refused matches Some(back) ==> back == handle && *final(self) == *old(self),
            final(self)@ == old(self)@.after(SlotAction::Attach),
    {
        if self.task.is_some() {
            return Some(handle);
        }
        self.task = Some(handle);
        None
    }

    /// Gives up the task at work, if any. Its result will go nowhere; the
    /// slot is as it was before the task.
    pub fn abandon(&mut self)
        ensures
            final(self)@ == old(self)@.after(SlotAction::Abandon),
    {
        self.task = None;
    }

    /// Takes the image off display, where the policy allows it.
    ///
    /// Only a populated slot is unloaded, and only if `movable` is set; the
    /// slot is then empty and the answer is `true`.
    pub fn unload(&mut self, movable: bool) -> (unloaded: bool)
        ensures
            unloaded == (movable && old(self)@.state() is Populated),
            unloaded ==> final(self)@.state() is Empty,
            !unloaded ==> *final(self) == *old(self),
            final(self)@ == old(self)@.after(SlotAction::Unload(movable)),
    {
        if movable && self.task.is_none() && !self.failed && self.shown.is_some() {
            self.shown = None;
            true
        } else {
            false
        }
    }

    /// Applies an answer of the slot's task to the slot.
    pub fn settle(&mut self, status: Status<Delivery>) -> (event: SlotEvent)
        ensures
            final(self)@ == old(self)@.after(SlotAction::Poll(status)),
            event == old(self)@.event(status),
    {
        if self.task.is_none() {
            return SlotEvent::Idle;
        }
        match status {
            Status::Pending => SlotEvent::Waiting,
            Status::Ready(Ok(picture)) => {
                self.task = None;
                self.failed = false;
                self.shown = Some(picture);
                SlotEvent::Loaded
            },
            Status::Ready(Err(error)) => {
                self.task = None;
                if error.dismissal() {
                    SlotEvent::Dismissed
                } else {
                    self.failed = true;
                    SlotEvent::Failed(Some(error))
                }
            },
            Status::Closed => {
                self.task = None;
                self.failed = true;
                SlotEvent::Failed(None)
            },
        }
    }

    /// Polls the slot's task without waiting, and moves the slot on.
    ///
    /// Whatever the task answers, the slot afterwards is what `settled`
    /// makes of that answer; a slot without a task is left as it is.
    pub fn poll(&mut self) -> (event: SlotEvent)
        ensures
            old(self)@.polled(final(self)@, event),
            !old(self)@.pending ==> event is Idle && final(self)@ == old(self)@,
    {
        let status: Status<Delivery> = match &mut self.task {
            Some(handle) => handle.try_take(),
            None => {
                assert(old(self)@.settled(Status::Pending) == old(self)@);
                return SlotEvent::Idle;
            },
        };
        let ghost answered = status;
        let event = self.settle(status);
        assert(self@ == old(self)@.settled(answered));
        event
    }
}

} // verus!
