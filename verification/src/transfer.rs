//! The two-image front end: a content image and a style image go through
//! the selected script, and one result comes back.

use crate::handle::Completer;
use crate::script_execution::{text_of, Executor};
use crate::script_option::ScriptOption;
use crate::slot::{empty_slot, Delivery, Slot, SlotEvent, SlotModel};
use vstd::prelude::*;
use vstd::string::StringExecFns;

verus! {

/// Frames between two listings of the script directory.
pub const LISTING_PERIOD: u128 = 300;

/// The directory of the scripts, as the prefix of a script's argument.
pub const SCRIPT_PREFIX: &'static str = "src/";

/// The path at which a script is to leave its result.
pub const RESULT_PATH: &'static str = "res/output.jpg";

/// What is put before an input path to hand it on as a location.
pub const FILE_SCHEME: &'static str = "file://";

/// The name of the content slot.
pub const CONTENT_NAME: &'static str = "content";

/// The name of the style slot.
pub const STYLE_NAME: &'static str = "style";

/// The name of the result slot.
pub const RESULT_NAME: &'static str = "result";

/// The two input images of a transfer.
#[derive(Debug, Clone, Copy, PartialEq, Eq, Structural)]
pub enum ImagePath {
    /// The image whose content is kept.
    Content,
    /// The image whose style is taken.
    Style,
}

/// What one frame's poll found.
#[derive(Debug, PartialEq, Eq)]
pub struct TransferEvents {
    /// For the content image.
    pub content: SlotEvent,
    /// For the style image.
    pub style: SlotEvent,
    /// For the result.
    pub result: SlotEvent,
}

/// The state of the two-image front end.
pub struct App {
    /// The content image.
    pub content: Slot,
    /// The style image.
    pub style: Slot,
    /// The result of the last transfer.
    pub result: Slot,
    /// The script that is selected.
    pub selected: Option<String>,
    /// The scripts, as last listed.
    pub files: Vec<String>,
    /// The number of the frame.
    pub tick: u128,
}

impl App {
    /// The input slot `which`.
    pub open spec fn input_of(&self, which: ImagePath) -> Slot {
        match which {
            ImagePath::Content => self.content,
            ImagePath::Style => self.style,
        }
    }

    /// The label of the image that the input slot `which` shows.
    pub open spec fn path_of(&self, which: ImagePath) -> Option<Seq<char>> {
        match self.input_of(which)@.shown {
            Some(picture) => Some(picture@.label),
            None => None,
        }
    }

    /// The path that stands for the style in a transfer: that of the style
    /// image, or that of the content image where no style image is shown.
    pub open spec fn style_path(&self) -> Option<Seq<char>> {
        match self.path_of(ImagePath::Style) {
            Some(path) => Some(path),
            None => self.path_of(ImagePath::Content),
        }
    }

    /// Whether a transfer can start: a script is selected, a content image
    /// is shown, and no transfer is at work.
    pub open spec fn can_transfer(&self) -> bool {
        &&& self.selected is Some
        &&& self.path_of(ImagePath::Content) is Some
        &&& !self.result@.pending
    }

    /// Whether the script directory is to be listed in this frame.
    pub open spec fn is_listing_due(&self) -> bool {
        self.tick % LISTING_PERIOD == 0
    }

    /// The state at startup: nothing shown, listed or selected, at frame
    /// zero.
    pub fn new() -> (app: App)
        ensures
            app.content@ == empty_slot(CONTENT_NAME@),
            app.style@ == empty_slot(STYLE_NAME@),
            app.result@ == empty_slot(RESULT_NAME@),
            app.selected is None,
            app.files@.len() == 0,
            app.tick == 0,
    {
        App {
            content: Slot::new(CONTENT_NAME.to_owned()),
            style: Slot::new(STYLE_NAME.to_owned()),
            result: Slot::new(RESULT_NAME.to_owned()),
            selected: None,
            files: Vec::new(),
            tick: 0,
        }
    }

    /// Polls the task of every slot and moves each slot on by what its task
    /// answered.
    pub fn poll(&mut self) -> (events: TransferEvents)
        ensures
            old(self).content@.polled(final(self).content@, events.content),
            old(self).style@.polled(final(self).style@, events.style),
            old(self).result@.polled(final(self).result@, events.result),
            final(self).selected == old(self).selected,
            final(self).files == old(self).files,
            final(self).tick == old(self).tick,
    {
        let content = self.content.poll();
        let style = self.style.poll();
        let result = self.result.poll();
        TransferEvents { content, style, result }
    }

    /// Whether the script directory is to be listed in this frame.
    pub fn listing_due(&self) -> (due: bool)
        ensures
            due == self.is_listing_due(),
    {
        self.tick % LISTING_PERIOD == 0
    }

    /// Replaces the script list by a new listing.
    pub fn accept_listing(&mut self, listing: Vec<String>)
        ensures
            *final(self) == (App { files: listing, ..*old(self) }),
    {
        self.files = listing;
    }

    /// Selects the script at `index` of the list. An index beyond the list
    /// selects nothing.
    pub fn select(&mut self, index: usize) -> (selected: bool)
        ensures
            selected == (index < old(self).files@.len()),
            !selected ==> *final(self) == *old(self),
            selected ==> *final(self) == (App {
                selected: Some(old(self).files@[index as int]),
                ..*old(self)
            }),
    {
        if index < self.files.len() {
            self.selected = Some(self.files[index].clone());
            true
        } else {
            false
        }
    }

    /// Starts a pick for the input slot `which`, unless one is at work for
    /// it: then the request is ignored and nothing changes.
    pub fn request_pick(&mut self, which: ImagePath) -> (started: Option<Completer<Delivery>>)
        ensures
            started is Some <==> !old(self).input_of(which)@.pending,
            started is None ==> *final(self) == *old(self),
            started is Some ==> {
                &&& final(self).input_of(which)@ == (SlotModel {
                    pending: true,
                    ..old(self).input_of(which)@
                })
                &&& which is Content ==> final(self).style == old(self).style
                &&& which is Style ==> final(self).content == old(self).content
                &&& final(self).result == old(self).result
                &&& final(self).selected == old(self).selected
                &&& final(self).files == old(self).files
                &&& final(self).tick == old(self).tick
            },
    {
        match which {
            ImagePath::Content => self.content.request(),
            ImagePath::Style => self.style.request(),
        }
    }

    /// Starts a transfer.
    ///
    /// Unless a transfer can start, the request is ignored and nothing
    /// changes. Otherwise the result slot is pending, and the answer is the
    /// run: the selected script under the script directory, handed to the
    /// default interpreter, with the result path and the locations of the
    /// content and the style.
    pub fn transfer(&mut self) -> (run: Option<Executor>)
        ensures
            run is Some <==> old(self).can_transfer(),
            run is None ==> *final(self) == *old(self),
            run matches Some(executor) ==> {
                &&& executor.script_option == ScriptOption::PyExecute(None)
                &&& executor.script@ == SCRIPT_PREFIX@ + old(self).selected->0@
                &&& executor.output@ == RESULT_PATH@
                &&& text_of(executor.image1) == Some(
                    FILE_SCHEME@ + old(self).path_of(ImagePath::Content)->0,
                )
                &&& text_of(executor.image2) == Some(FILE_SCHEME@ + old(self).style_path()->0)
                &&& executor.other_args@.len() == 0
                &&& final(self).result@ == (SlotModel { pending: true, ..old(self).result@ })
                &&& final(self).content == old(self).content
                &&& final(self).style == old(self).style
                &&& final(self).selected == old(self).selected
                &&& final(self).files == old(self).files
                &&& final(self).tick == old(self).tick
            },
    {
        if self.result.is_pending() {
            return None;
        }
        let script: String = match &self.selected {
            Some(name) => SCRIPT_PREFIX.to_owned().concat(name.as_str()),
            None => {
                return None;
            },
        };
        let content: String = match self.content.picture() {
            Some(picture) => FILE_SCHEME.to_owned().concat(picture.label().as_str()),
            None => {
                return None;
            },
        };
        let style: String = match self.style.picture() {
            Some(picture) => FILE_SCHEME.to_owned().concat(picture.label().as_str()),
            None => content.clone(),
        };
        match self.result.request() {
            Some(return_channel) => Some(
                Executor {
                    script_option: ScriptOption::PyExecute(None),
                    script,
                    output: RESULT_PATH.to_owned(),
                    image1: Some(content),
                    image2: Some(style),
                    other_args: String::new(),
                    return_channel,
                },
            ),
            None => None,
        }
    }
}

} // verus!
