//! How many input images the chosen script takes.

use crate::script_option::ImageInput;
use vstd::prelude::*;

verus! {

/// The input arity of a run: it decides which input slots are on display
/// and how many paths a run is given.
#[derive(Debug, Clone, Copy, PartialEq, Eq, Structural)]
pub enum ImageMode {
    /// The script takes no input image.
    NoImage,
    /// The script takes one input image.
    SingleImage,
    /// The script takes two input images.
    BiImage,
}

impl ImageMode {
    /// The number of input images.
    pub open spec fn inputs(self) -> nat {
        match self {
            ImageMode::NoImage => 0,
            ImageMode::SingleImage => 1,
            ImageMode::BiImage => 2,
        }
    }

    /// The number of input images.
    pub fn input_count(self) -> (n: usize)
        ensures
            n == self.inputs(),
    {
        match self {
            ImageMode::NoImage => 0,
            ImageMode::SingleImage => 1,
            ImageMode::BiImage => 2,
        }
    }

    /// The shape of the input, where there is any.
    pub fn image_input(self) -> (input: Option<ImageInput>)
        ensures
            input == match self {
                ImageMode::NoImage => None,
                ImageMode::SingleImage => Some(ImageInput::SingleFile),
                ImageMode::BiImage => Some(ImageInput::TwoFiles),
            },
    {
        match self {
            ImageMode::NoImage => None,
            ImageMode::SingleImage => Some(ImageInput::SingleFile),
            ImageMode::BiImage => Some(ImageInput::TwoFiles),
        }
    }
}

} // verus!
