//! Decoded images as plain values.

use vstd::prelude::*;

verus! {

/// Bytes per pixel of an RGBA buffer.
pub const BYTES_PER_PIXEL: usize = 4;

/// What a picture is.
pub struct PictureModel {
    /// Width in pixels.
    pub width: nat,
    /// Height in pixels.
    pub height: nat,
    /// The RGBA bytes, row by row.
    pub pixels: Seq<u8>,
    /// The path or label of the image's origin.
    pub label: Seq<char>,
}

impl PictureModel {
    /// The buffer holds four bytes for each pixel.
    pub open spec fn fits(self) -> bool {
        self.pixels.len() == BYTES_PER_PIXEL * self.width * self.height
    }
}

/// A decoded image: its RGBA bytes with its dimensions and the path or
/// label it came from. The buffer of a picture always fits its dimensions.
#[derive(Debug, PartialEq, Eq)]
pub struct Picture {
    width: u32,
    height: u32,
    pixels: Vec<u8>,
    label: String,
}

impl View for Picture {
    type V = PictureModel;

    closed spec fn view(&self) -> PictureModel {
        PictureModel {
            width: self.width as nat,
            height: self.height as nat,
            pixels: self.pixels@,
            label: self.label@,
        }
    }
}

impl Clone for Picture {
    fn clone(&self) -> (copy: Picture)
        ensures
            copy@ == self@,
    {
        proof {
            use_type_invariant(self);
        }
        Picture {
            width: self.width,
            height: self.height,
            pixels: self.pixels.clone(),
            label: self.label.clone(),
        }
    }
}

impl Picture {
    #[verifier::type_invariant]
    closed spec fn well_formed(&self) -> bool {
        self@.fits()
    }

    /// The picture of `width` by `height` pixels with the bytes `pixels`, or
    /// `None` where the bytes are not four for each pixel.
    pub fn from_rgba(width: u32, height: u32, pixels: Vec<u8>, label: String) -> (made: Option<
        Picture,
    >)
        ensures
            made is Some <==> pixels@.len() == BYTES_PER_PIXEL * width * height,
            made matches Some(p) ==> p@ == (PictureModel {
                width: width as nat,
                height: height as nat,
                pixels: pixels@,
                label: label@,
            }),
    {
        assert(width * height <= 0xffff_ffff * 0xffff_ffff) by (nonlinear_arith)
            requires
                width <= 0xffff_ffff,
                height <= 0xffff_ffff,
        ;
        let area: u64 = (width as u64) * (height as u64);
        let wanted: u128 = (area as u128) * (BYTES_PER_PIXEL as u128);
        assert(wanted == BYTES_PER_PIXEL * width * height) by (nonlinear_arith)
            requires
                wanted == area * BYTES_PER_PIXEL,
                area == width * height,
        ;
        if pixels.len() as u128 == wanted {
            Some(Picture { width, height, pixels, label })
        } else {
            None
        }
    }

    /// Width in pixels.
    pub fn width(&self) -> (w: u32)
        ensures
            w == self@.width,
    {
        self.width
    }

    /// Height in pixels.
    pub fn height(&self) -> (h: u32)
        ensures
            h == self@.height,
    {
        self.height
    }

    /// The RGBA bytes, four for each pixel.
    pub fn pixels(&self) -> (bytes: &Vec<u8>)
        ensures
            bytes@ == self@.pixels,
            self@.fits(),
    {
        proof {
            use_type_invariant(self);
        }
        &self.pixels
    }

    /// The path or label of the image's origin.
    pub fn label(&self) -> (label: &String)
        ensures
            label@ == self@.label,
    {
        &self.label
    }
}

} // verus!
