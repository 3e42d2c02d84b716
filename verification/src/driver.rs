//! The render loop's state: the script lists, the modes, and the slots of
//! every input arity, with what each frame and each click does to them.

use crate::feed::ScriptFeed;
use crate::handle::Completer;
use crate::image_mode::ImageMode;
use crate::script_execution::{text_of, Executor};
use crate::script_option::ScriptOption;
use crate::slot::{empty_slot, Delivery, Slot, SlotEvent, SlotModel};
use crate::watcher::{NATIVE_SCRIPT_DIR, PY_SCRIPT_DIR};
use vstd::prelude::*;
use vstd::string::StringExecFns;

verus! {

/// The path at which a script is to leave its output image.
pub const OUTPUT_PATH: &'static str = "./outcome/result.jpg";

/// The slots of the render loop.
#[derive(Debug, Clone, Copy, PartialEq, Eq, Structural)]
pub enum SlotId {
    /// The input of the single-image mode.
    InputSingle,
    /// The first input of the two-image mode.
    InputBi1,
    /// The second input of the two-image mode.
    InputBi2,
    /// The output of the mode without input.
    OutputNone,
    /// The output of the single-image mode.
    OutputSingle,
    /// The output of the two-image mode.
    OutputBi,
}

/// The name of the first input slot of a mode.
pub const FIRST_INPUT_NAME: &'static str = "input-1";

/// The name of the second input slot of a mode.
pub const SECOND_INPUT_NAME: &'static str = "input-2";

/// The name of the output slot of a mode.
pub const OUTPUT_NAME: &'static str = "output";

impl SlotId {
    /// The name of the slot.
    pub open spec fn name(self) -> Seq<char> {
        match self {
            SlotId::InputSingle => FIRST_INPUT_NAME@,
            SlotId::InputBi1 => FIRST_INPUT_NAME@,
            SlotId::InputBi2 => SECOND_INPUT_NAME@,
            SlotId::OutputNone => OUTPUT_NAME@,
            SlotId::OutputSingle => OUTPUT_NAME@,
            SlotId::OutputBi => OUTPUT_NAME@,
        }
    }

    /// Whether the slot holds an input image.
    pub open spec fn is_input(self) -> bool {
        self is InputSingle || self is InputBi1 || self is InputBi2
    }

    /// The mode under which the slot is on display.
    pub open spec fn mode(self) -> ImageMode {
        match self {
            SlotId::OutputNone => ImageMode::NoImage,
            SlotId::InputSingle => ImageMode::SingleImage,
            SlotId::OutputSingle => ImageMode::SingleImage,
            SlotId::InputBi1 => ImageMode::BiImage,
            SlotId::InputBi2 => ImageMode::BiImage,
            SlotId::OutputBi => ImageMode::BiImage,
        }
    }

    /// Whether the slot holds an input image.
    pub fn input(self) -> (yes: bool)
        ensures
            yes == self.is_input(),
    {
        match self {
            SlotId::InputSingle => true,
            SlotId::InputBi1 => true,
            SlotId::InputBi2 => true,
            _ => false,
        }
    }

    /// The mode under which the slot is on display.
    pub fn shown_under(self) -> (mode: ImageMode)
        ensures
            mode == self.mode(),
    {
        match self {
            SlotId::OutputNone => ImageMode::NoImage,
            SlotId::InputSingle => ImageMode::SingleImage,
            SlotId::OutputSingle => ImageMode::SingleImage,
            SlotId::InputBi1 => ImageMode::BiImage,
            SlotId::InputBi2 => ImageMode::BiImage,
            SlotId::OutputBi => ImageMode::BiImage,
        }
    }
}

/// What stands between a directory and a name in a path.
pub const SEPARATOR: &'static str = "/";

/// The path of the script `name` of one kind: its name under the directory
/// of its kind.
pub open spec fn script_path(native: bool, name: Seq<char>) -> Seq<char> {
    (if native {
        NATIVE_SCRIPT_DIR@
    } else {
        PY_SCRIPT_DIR@
    }) + SEPARATOR@ + name
}

/// The slot that takes the output of a run under `mode`.
pub open spec fn output_of(mode: ImageMode) -> SlotId {
    match mode {
        ImageMode::NoImage => SlotId::OutputNone,
        ImageMode::SingleImage => SlotId::OutputSingle,
        ImageMode::BiImage => SlotId::OutputBi,
    }
}

/// What one frame's poll found, slot by slot.
#[derive(Debug, PartialEq, Eq)]
pub struct SlotEvents {
    /// For the input of the single-image mode.
    pub input_single: SlotEvent,
    /// For the first input of the two-image mode.
    pub input_bi1: SlotEvent,
    /// For the second input of the two-image mode.
    pub input_bi2: SlotEvent,
    /// For the output of the mode without input.
    pub output_none: SlotEvent,
    /// For the output of the single-image mode.
    pub output_single: SlotEvent,
    /// For the output of the two-image mode.
    pub output_bi: SlotEvent,
}

impl SlotEvents {
    /// What was found for the slot `id`.
    pub open spec fn of(self, id: SlotId) -> SlotEvent {
        match id {
            SlotId::InputSingle => self.input_single,
            SlotId::InputBi1 => self.input_bi1,
            SlotId::InputBi2 => self.input_bi2,
            SlotId::OutputNone => self.output_none,
            SlotId::OutputSingle => self.output_single,
            SlotId::OutputBi => self.output_bi,
        }
    }
}

/// The state of the render loop.
pub struct MyApp {
    /// The link to the watcher of the interpreted scripts.
    pub py_script_updates: ScriptFeed,
    /// The link to the watcher of the native scripts.
    pub native_script_updates: ScriptFeed,
    /// The interpreted script that is selected.
    pub active_py_script: Option<String>,
    /// The native script that is selected.
    pub active_native_script: Option<String>,
    /// The interpreter's path; `None` for the platform's default name.
    pub py_executor: Option<String>,
    /// Whether native scripts are listed and run, rather than interpreted
    /// ones.
    pub is_native_mode: bool,
    /// The interpreted scripts, as last listed.
    pub py_lists: Vec<String>,
    /// The native scripts, as last listed.
    pub native_lists: Vec<String>,
    /// The input arity.
    pub image_mode: ImageMode,
    /// The input of the single-image mode.
    pub input_image_single: Slot,
    /// The inputs of the two-image mode.
    pub input_image_bi: (Slot, Slot),
    /// The output of the mode without input.
    pub output_image_none: Slot,
    /// The output of the single-image mode.
    pub output_image_single: Slot,
    /// The output of the two-image mode.
    pub output_image_bi: Slot,
    /// Whether an image on display may be unloaded.
    pub movable_image_display: bool,
    /// Extra arguments for the next run.
    pub extra_arguments: String,
}

impl MyApp {
    /// The slot `id`.
    pub open spec fn slot_of(&self, id: SlotId) -> Slot {
        match id {
            SlotId::InputSingle => self.input_image_single,
            SlotId::InputBi1 => self.input_image_bi.0,
            SlotId::InputBi2 => self.input_image_bi.1,
            SlotId::OutputNone => self.output_image_none,
            SlotId::OutputSingle => self.output_image_single,
            SlotId::OutputBi => self.output_image_bi,
        }
    }

    /// The links to the watchers are the same in `self` and `other`.
    pub open spec fn same_links(&self, other: &MyApp) -> bool {
        &&& self.py_script_updates == other.py_script_updates
        &&& self.native_script_updates == other.native_script_updates
    }

    /// The selections, the modes and the other settings are the same in
    /// `self` and `other`.
    pub open spec fn same_settings(&self, other: &MyApp) -> bool {
        &&& self.active_py_script == other.active_py_script
        &&& self.active_native_script == other.active_native_script
        &&& self.py_executor == other.py_executor
        &&& self.is_native_mode == other.is_native_mode
        &&& self.image_mode == other.image_mode
        &&& self.movable_image_display == other.movable_image_display
        &&& self.extra_arguments == other.extra_arguments
    }

    /// The script lists are the same in `self` and `other`.
    pub open spec fn same_lists(&self, other: &MyApp) -> bool {
        &&& self.py_lists == other.py_lists
        &&& self.native_lists == other.native_lists
    }

    /// The slot `id` is the same in `self` and `other`.
    pub open spec fn same_slot(&self, other: &MyApp, id: SlotId) -> bool {
        self.slot_of(id) == other.slot_of(id)
    }

    /// Every slot but `id` is the same in `self` and `other`.
    pub open spec fn same_slots_but(&self, other: &MyApp, id: SlotId) -> bool {
        &&& id != SlotId::InputSingle ==> self.same_slot(other, SlotId::InputSingle)
        &&& id != SlotId::InputBi1 ==> self.same_slot(other, SlotId::InputBi1)
        &&& id != SlotId::InputBi2 ==> self.same_slot(other, SlotId::InputBi2)
        &&& id != SlotId::OutputNone ==> self.same_slot(other, SlotId::OutputNone)
        &&& id != SlotId::OutputSingle ==> self.same_slot(other, SlotId::OutputSingle)
        &&& id != SlotId::OutputBi ==> self.same_slot(other, SlotId::OutputBi)
    }

    /// Every slot is the same in `self` and `other`.
    pub open spec fn same_slots(&self, other: &MyApp) -> bool {
        &&& self.same_slot(other, SlotId::InputSingle)
        &&& self.same_slot(other, SlotId::InputBi1)
        &&& self.same_slot(other, SlotId::InputBi2)
        &&& self.same_slot(other, SlotId::OutputNone)
        &&& self.same_slot(other, SlotId::OutputSingle)
        &&& self.same_slot(other, SlotId::OutputBi)
    }

    /// Whether the slot `id` is on display.
    pub open spec fn shows(&self, id: SlotId) -> bool {
        id.mode() == self.image_mode
    }

    /// The name of the script that a run would start: the selected one of
    /// the kind that is listed.
    pub open spec fn active_script(&self) -> Option<String> {
        if self.is_native_mode {
            self.active_native_script
        } else {
            self.active_py_script
        }
    }

    /// The path of the script that a run would start.
    pub open spec fn active_path(&self) -> Seq<char> {
        script_path(self.is_native_mode, self.active_script()->0@)
    }

    /// How a run would start its script.
    pub open spec fn script_option(&self) -> ScriptOption {
        if self.is_native_mode {
            ScriptOption::DirectExecute
        } else {
            ScriptOption::PyExecute(self.py_executor)
        }
    }

    /// The label of the image that the slot `id` shows.
    pub open spec fn label_of(&self, id: SlotId) -> Option<Seq<char>> {
        match self.slot_of(id)@.shown {
            Some(picture) => Some(picture@.label),
            None => None,
        }
    }

    /// The first input path of a run under the current mode.
    pub open spec fn first_input(&self) -> Option<Seq<char>> {
        match self.image_mode {
            ImageMode::NoImage => None,
            ImageMode::SingleImage => self.label_of(SlotId::InputSingle),
            ImageMode::BiImage => self.label_of(SlotId::InputBi1),
        }
    }

    /// The second input path of a run under the current mode.
    pub open spec fn second_input(&self) -> Option<Seq<char>> {
        match self.image_mode {
            ImageMode::BiImage => self.label_of(SlotId::InputBi2),
            _ => None,
        }
    }

    /// Whether a run can start: a script is selected, every input of the
    /// current mode shows an image, and no run is at work for the mode's
    /// output slot.
    pub open spec fn can_run(&self) -> bool {
        &&& self.active_script() is Some
        &&& self.image_mode.inputs() >= 1 ==> self.first_input() is Some
        &&& self.image_mode.inputs() >= 2 ==> self.second_input() is Some
        &&& !self.slot_of(output_of(self.image_mode))@.pending
    }

    /// The state at startup: nothing listed, nothing selected, every slot
    /// empty, interpreted scripts with two input images.
    pub fn new(py_script_updates: ScriptFeed, native_script_updates: ScriptFeed) -> (app: MyApp)
        ensures
            app.py_script_updates == py_script_updates,
            app.native_script_updates == native_script_updates,
            app.active_py_script is None,
            app.active_native_script is None,
            app.py_executor is None,
            !app.is_native_mode,
            app.py_lists@.len() == 0,
            app.native_lists@.len() == 0,
            app.image_mode == ImageMode::BiImage,
            !app.movable_image_display,
            app.extra_arguments@.len() == 0,
            forall|id: SlotId| (#[trigger] app.slot_of(id))@ == empty_slot(id.name()),
    {
        MyApp {
            py_script_updates,
            native_script_updates,
            active_py_script: None,
            active_native_script: None,
            py_executor: None,
            is_native_mode: false,
            py_lists: Vec::new(),
            native_lists: Vec::new(),
            image_mode: ImageMode::BiImage,
            input_image_single: Slot::new(FIRST_INPUT_NAME.to_owned()),
            input_image_bi: (
                Slot::new(FIRST_INPUT_NAME.to_owned()),
                Slot::new(SECOND_INPUT_NAME.to_owned()),
            ),
            output_image_none: Slot::new(OUTPUT_NAME.to_owned()),
            output_image_single: Slot::new(OUTPUT_NAME.to_owned()),
            output_image_bi: Slot::new(OUTPUT_NAME.to_owned()),
            movable_image_display: false,
            extra_arguments: String::new(),
        }
    }

    /// Replaces the list of one kind of script by a new listing.
    pub fn accept_listing(&mut self, native: bool, listing: Vec<String>)
        ensures
            final(self).same_links(old(self)),
            final(self).same_settings(old(self)),
            final(self).same_slots(old(self)),
            final(self).native_lists == if native {
                listing
            } else {
                old(self).native_lists
            },
            final(self).py_lists == if native {
                old(self).py_lists
            } else {
                listing
            },
    {
        if native {
            self.native_lists = listing;
        } else {
            self.py_lists = listing;
        }
    }

    /// Takes over the listings that the watchers have published since the
    /// last frame. Only the script lists and the links change.
    pub fn refresh_script_lists(&mut self)
        ensures
            final(self).same_settings(old(self)),
            final(self).same_slots(old(self)),
    {
        match self.py_script_updates.latest() {
            Some(listing) => {
                self.accept_listing(false, listing);
            },
            None => {},
        }
        match self.native_script_updates.latest() {
            Some(listing) => {
                self.accept_listing(true, listing);
            },
            None => {},
        }
    }

    /// The polls of one frame: takes over new listings, then polls the task
    /// of every slot. The settings stay as they are.
    pub fn frame(&mut self) -> (events: SlotEvents)
        ensures
            final(self).same_settings(old(self)),
            forall|id: SlotId|
                (#[trigger] old(self).slot_of(id))@.polled(final(self).slot_of(id)@, events.of(id)),
    {
        self.refresh_script_lists();
        let ghost listed = *self;
        let events = self.poll_slots();
        assert forall|id: SlotId| #[trigger]
            old(self).slot_of(id) == listed.slot_of(id) && listed.slot_of(id)@.polled(
                self.slot_of(id)@,
                events.of(id),
            ) by {}
        events
    }

    /// Polls the task of every slot, on display or not, and moves each slot
    /// on by what its task answered.
    pub fn poll_slots(&mut self) -> (events: SlotEvents)
        ensures
            final(self).same_links(old(self)),
            final(self).same_settings(old(self)),
            final(self).same_lists(old(self)),
            forall|id: SlotId|
                (#[trigger] old(self).slot_of(id))@.polled(final(self).slot_of(id)@, events.of(id)),
    {
        let input_single = self.input_image_single.poll();
        let input_bi1 = self.input_image_bi.0.poll();
        let input_bi2 = self.input_image_bi.1.poll();
        let output_none = self.output_image_none.poll();
        let output_single = self.output_image_single.poll();
        let output_bi = self.output_image_bi.poll();
        SlotEvents { input_single, input_bi1, input_bi2, output_none, output_single, output_bi }
    }

    /// Switches the input arity. No slot changes: a task at work for a slot
    /// that leaves the display goes on, and its result is taken as before.
    pub fn set_image_mode(&mut self, mode: ImageMode)
        ensures
            *final(self) == (MyApp { image_mode: mode, ..*old(self) }),
    {
        self.image_mode = mode;
    }

    /// Switches between interpreted and native scripts.
    pub fn toggle_native_mode(&mut self)
        ensures
            *final(self) == (MyApp { is_native_mode: !old(self).is_native_mode, ..*old(self) }),
    {
        self.is_native_mode = !self.is_native_mode;
    }

    /// Switches the policy on unloading images.
    pub fn toggle_movable(&mut self)
        ensures
            *final(self) == (MyApp {
                movable_image_display: !old(self).movable_image_display,
                ..*old(self)
            }),
    {
        self.movable_image_display = !self.movable_image_display;
    }

    /// Asks the watcher of the kind of script that is listed for a refresh.
    /// Nothing changes but the link to that watcher.
    pub fn request_flush(&mut self) -> (queued: bool)
        ensures
            final(self).same_settings(old(self)),
            final(self).same_lists(old(self)),
            final(self).same_slots(old(self)),
            old(self).is_native_mode ==> final(self).py_script_updates == old(
                self,
            ).py_script_updates,
            !old(self).is_native_mode ==> final(self).native_script_updates == old(
                self,
            ).native_script_updates,
    {
        if self.is_native_mode {
            self.native_script_updates.request_flush()
        } else {
            self.py_script_updates.request_flush()
        }
    }

    /// Selects the script at `index` of the list on display. An index
    /// beyond the list selects nothing.
    pub fn select_script(&mut self, index: usize) -> (selected: bool)
        ensures
            selected == (index < if old(self).is_native_mode {
                old(self).native_lists@.len()
            } else {
                old(self).py_lists@.len()
            }),
            !selected ==> *final(self) == *old(self),
            selected && old(self).is_native_mode ==> *final(self) == (MyApp {
                active_native_script: Some(old(self).native_lists@[index as int]),
                ..*old(self)
            }),
            selected && !old(self).is_native_mode ==> *final(self) == (MyApp {
                active_py_script: Some(old(self).py_lists@[index as int]),
                ..*old(self)
            }),
    {
        if self.is_native_mode {
            if index < self.native_lists.len() {
                self.active_native_script = Some(self.native_lists[index].clone());
                true
            } else {
                false
            }
        } else {
            if index < self.py_lists.len() {
                self.active_py_script = Some(self.py_lists[index].clone());
                true
            } else {
                false
            }
        }
    }

    /// Whether the slot `id` is on display.
    pub fn is_shown(&self, id: SlotId) -> (yes: bool)
        ensures
            yes == self.shows(id),
    {
        id.shown_under() == self.image_mode
    }

    /// The slot `id`.
    pub fn slot(&self, id: SlotId) -> (slot: &Slot)
        ensures
            *slot == self.slot_of(id),
    {
        match id {
            SlotId::InputSingle => &self.input_image_single,
            SlotId::InputBi1 => &self.input_image_bi.0,
            SlotId::InputBi2 => &self.input_image_bi.1,
            SlotId::OutputNone => &self.output_image_none,
            SlotId::OutputSingle => &self.output_image_single,
            SlotId::OutputBi => &self.output_image_bi,
        }
    }

    /// Starts a pick for the input slot `id`.
    ///
    /// The request is ignored, and nothing changes, unless `id` is an input
    /// slot on display for which no task is at work. Then that slot is
    /// pending, and the answer is the end over which the pick sends its
    /// result.
    pub fn request_pick(&mut self, id: SlotId) -> (started: Option<Completer<Delivery>>)
        ensures
            started is Some <==> id.is_input() && old(self).shows(id) && !old(self).slot_of(
                id,
            )@.pending,
            started is None ==> *final(self) == *old(self),
            started is Some ==> {
                &&& final(self).same_links(old(self))
                &&& final(self).same_settings(old(self))
                &&& final(self).same_lists(old(self))
                &&& final(self).same_slots_but(old(self), id)
                &&& final(self).slot_of(id)@ == (SlotModel {
                    pending: true,
                    ..old(self).slot_of(id)@
                })
            },
    {
        if !id.input() || !self.is_shown(id) {
            return None;
        }
        match id {
            SlotId::InputSingle => self.input_image_single.request(),
            SlotId::InputBi1 => self.input_image_bi.0.request(),
            _ => self.input_image_bi.1.request(),
        }
    }

    /// The label of the image that the slot `id` shows.
    pub fn shown_label(&self, id: SlotId) -> (label: Option<String>)
        ensures
            text_of(label) == self.label_of(id),
    {
        match self.slot(id).picture() {
            Some(picture) => Some(picture.label().clone()),
            None => None,
        }
    }

    /// Whether a run can start.
    pub fn can_execute(&self) -> (yes: bool)
        ensures
            yes == self.can_run(),
    {
        let script: bool = if self.is_native_mode {
            self.active_native_script.is_some()
        } else {
            self.active_py_script.is_some()
        };
        if !script {
            return false;
        }
        match self.image_mode {
            ImageMode::NoImage => !self.output_image_none.is_pending(),
            ImageMode::SingleImage => self.input_image_single.picture().is_some()
                && !self.output_image_single.is_pending(),
            ImageMode::BiImage => self.input_image_bi.0.picture().is_some()
                && self.input_image_bi.1.picture().is_some() && !self.output_image_bi.is_pending(),
        }
    }

    /// Starts a run of the selected script on the inputs of the current
    /// mode.
    ///
    /// Unless a run can start, the request is ignored and nothing changes.
    /// Otherwise the output slot of the current mode is pending, and the
    /// answer is the run: the path of the selected script and how to start
    /// it, the output path, the labels of the input images as input paths,
    /// and the extra arguments.
    pub fn execute(&mut self) -> (run: Option<Executor>)
        ensures
            run is Some <==> old(self).can_run(),
            run is None ==> *final(self) == *old(self),
            run matches Some(executor) ==> {
                let out = output_of(old(self).image_mode);
                &&& executor.script_option == old(self).script_option()
                &&& executor.script@ == old(self).active_path()
                &&& executor.output@ == OUTPUT_PATH@
                &&& text_of(executor.image1) == old(self).first_input()
                &&& text_of(executor.image2) == old(self).second_input()
                &&& executor.other_args == old(self).extra_arguments
                &&& final(self).same_links(old(self))
                &&& final(self).same_settings(old(self))
                &&& final(self).same_lists(old(self))
                &&& final(self).same_slots_but(old(self), out)
                &&& final(self).slot_of(out)@ == (SlotModel {
                    pending: true,
                    ..old(self).slot_of(out)@
                })
            },
    {
        if !self.can_execute() {
            return None;
        }
        let (script_option, script) = if self.is_native_mode {
            match &self.active_native_script {
                Some(name) => (
                    ScriptOption::DirectExecute,
                    NATIVE_SCRIPT_DIR.to_owned().concat(SEPARATOR).concat(name.as_str()),
                ),
                None => {
                    return None;
                },
            }
        } else {
            match &self.active_py_script {
                Some(name) => (
                    ScriptOption::PyExecute(
                        match &self.py_executor {
                            Some(path) => Some(path.clone()),
                            None => None,
                        },
                    ),
                    PY_SCRIPT_DIR.to_owned().concat(SEPARATOR).concat(name.as_str()),
                ),
                None => {
                    return None;
                },
            }
        };
        let (image1, image2) = match self.image_mode {
            ImageMode::NoImage => (None, None),
            ImageMode::SingleImage => (self.shown_label(SlotId::InputSingle), None),
            ImageMode::BiImage => (
                self.shown_label(SlotId::InputBi1),
                self.shown_label(SlotId::InputBi2),
            ),
        };
        let other_args: String = self.extra_arguments.clone();
        let started = match self.image_mode {
            ImageMode::NoImage => self.output_image_none.request(),
            ImageMode::SingleImage => self.output_image_single.request(),
            ImageMode::BiImage => self.output_image_bi.request(),
        };
        match started {
            Some(return_channel) => Some(
                Executor {
                    script_option,
                    script,
                    output: OUTPUT_PATH.to_owned(),
                    image1,
                    image2,
                    other_args,
                    return_channel,
                },
            ),
            None => None,
        }
    }

    /// Unloads the image of the slot `id`, where the policy allows it:
    /// the slot is populated and unloading is switched on.
    pub fn unload(&mut self, id: SlotId) -> (unloaded: bool)
        ensures
            unloaded == (old(self).movable_image_display && old(self).slot_of(id)@.state()
                is Populated),
            !unloaded ==> *final(self) == *old(self),
            unloaded ==> {
                &&& final(self).same_links(old(self))
                &&& final(self).same_settings(old(self))
                &&& final(self).same_lists(old(self))
                &&& final(self).same_slots_but(old(self), id)
                &&& final(self).slot_of(id)@ == (SlotModel {
                    shown: None,
                    ..old(self).slot_of(id)@
                })
            },
    {
        let movable: bool = self.movable_image_display;
        match id {
            SlotId::InputSingle => self.input_image_single.unload(movable),
            SlotId::InputBi1 => self.input_image_bi.0.unload(movable),
            SlotId::InputBi2 => self.input_image_bi.1.unload(movable),
            SlotId::OutputNone => self.output_image_none.unload(movable),
            SlotId::OutputSingle => self.output_image_single.unload(movable),
            SlotId::OutputBi => self.output_image_bi.unload(movable),
        }
    }
}

} // verus!
