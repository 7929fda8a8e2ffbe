//! Decoded images of a SOG bundle and per-pixel access to them.
use vstd::prelude::*;
use crate::sog::error::{SogError, SogErrorView};

verus! {

/// A decoded image: `width` by `height` pixels, stored row by row with a
/// fixed number of bytes per pixel (3 for RGB, 4 for RGBA).
#[derive(Debug, Clone)]
pub struct ImageData {
    pub width: u32,
    pub height: u32,
    pub data: Vec<u8>,
}

/// The mathematical value of an [`ImageData`].
pub struct ImageView {
    pub width: u32,
    pub height: u32,
    pub data: Seq<u8>,
}

impl View for ImageData {
    type V = ImageView;

    open spec fn view(&self) -> ImageView {
        ImageView { width: self.width, height: self.height, data: self.data@ }
    }
}

/// Number of pixels an image claims, as the out-of-bounds errors report it.
pub open spec fn pixel_count(img: ImageView) -> u64 {
    (img.width as int * img.height as int) as u64
}

/// The three bytes of RGB pixel `index`, when they lie inside the data.
pub open spec fn rgb_at(img: ImageView, index: int) -> Option<Seq<u8>> {
    if 0 <= index && 3 * index + 2 < img.data.len() {
        Some(img.data.subrange(3 * index, 3 * index + 3))
    } else {
        None
    }
}

/// The four bytes of RGBA pixel `index`, when they lie inside the data.
pub open spec fn rgba_at(img: ImageView, index: int) -> Option<Seq<u8>> {
    if 0 <= index && 4 * index + 3 < img.data.len() {
        Some(img.data.subrange(4 * index, 4 * index + 4))
    } else {
        None
    }
}

/// RGB pixel `index`, or the out-of-bounds error that names it.
pub open spec fn spec_pixel_rgb(img: ImageView, index: usize) -> Result<Seq<u8>, SogErrorView> {
    match rgb_at(img, index as int) {
        Some(p) => Ok(p),
        None => Err(SogErrorView::RgbPixelOutOfBounds { index, pixels: pixel_count(img) }),
    }
}

/// RGBA pixel `index`, or the out-of-bounds error that names it.
pub open spec fn spec_pixel_rgba(img: ImageView, index: usize) -> Result<Seq<u8>, SogErrorView> {
    match rgba_at(img, index as int) {
        Some(p) => Ok(p),
        None => Err(SogErrorView::RgbaPixelOutOfBounds { index, pixels: pixel_count(img) }),
    }
}

impl ImageData {
    pub(crate) fn pixel_total(&self) -> (r: u64)
        ensures
            r == pixel_count(self@),
    {
        let w: u64 = self.width as u64;
        let h: u64 = self.height as u64;
        assert(w * h <= 0xffff_ffff * 0xffff_ffff) by (nonlinear_arith)
            requires
                w <= 0xffff_ffff,
                h <= 0xffff_ffff,
        ;
        w * h
    }

    /// The three bytes of RGB pixel `index`.
    pub fn pixel_rgb(&self, index: usize) -> (r: Result<[u8; 3], SogError>)
        ensures
            match r {
                Ok(p) => spec_pixel_rgb(self@, index) == Ok::<Seq<u8>, SogErrorView>(p@),
                Err(e) => spec_pixel_rgb(self@, index) == Err::<Seq<u8>, SogErrorView>(e@),
            },
    {
        let len = self.data.len();
        if (index as u128) * 3 + 2 >= (len as u128) {
            return Err(SogError::RgbPixelOutOfBounds { index, pixels: self.pixel_total() });
        }
        let base = index * 3;
        let p: [u8; 3] = [self.data[base], self.data[base + 1], self.data[base + 2]];
        proof {
            assert(p@ =~= self.data@.subrange(3 * index as int, 3 * index as int + 3));
        }
        Ok(p)
    }

    /// The four bytes of RGBA pixel `index`.
    pub fn pixel_rgba(&self, index: usize) -> (r: Result<[u8; 4], SogError>)
        ensures
            match r {
                Ok(p) => spec_pixel_rgba(self@, index) == Ok::<Seq<u8>, SogErrorView>(p@),
                Err(e) => spec_pixel_rgba(self@, index) == Err::<Seq<u8>, SogErrorView>(e@),
            },
    {
        let len = self.data.len();
        if (index as u128) * 4 + 3 >= (len as u128) {
            return Err(SogError::RgbaPixelOutOfBounds { index, pixels: self.pixel_total() });
        }
        let base = index * 4;
        let p: [u8; 4] = [self.data[base], self.data[base + 1], self.data[base + 2], self.data[base + 3]];
        proof {
            assert(p@ =~= self.data@.subrange(4 * index as int, 4 * index as int + 4));
        }
        Ok(p)
    }
}

/// Marks `img` as what decoding `bytes` (to RGBA when `with_alpha`, else
/// to RGB) gave. It claims nothing about what the decoder computes: its
/// meaning is kept to this module, where only the decoding wrappers below
/// establish it, so a contract elsewhere that asks for it ties an image to
/// the very bytes it was decoded from.
pub closed spec fn decoded_from(bytes: Seq<u8>, with_alpha: bool, img: ImageView) -> bool {
    true
}

/// Decodes an encoded image (WebP in a SOG bundle) with
/// `image::load_from_memory` and converts it to 8-bit RGB samples with
/// `to_rgb8`. `None` when the decoder rejects the bytes. Of a decoded image
/// the contract states only what every `ImageBuffer` holds: at least three
/// samples per pixel. Which bytes are accepted and which pixels come out is
/// not stated: the format guess and the decoder consult hooks that any code
/// in the process may register, so the outcome is not a function of the
/// bytes alone. A poisoned hook registry makes the call panic.
#[verifier::external_body]
pub(crate) fn decode_image_rgb(bytes: &[u8]) -> (r: Option<ImageData>)
    ensures
        r matches Some(img) ==> img.data@.len() >= 3 * (img.width as int) * (img.height as int),
        r matches Some(img) ==> decoded_from(bytes@, false, img@),
{
    match image::load_from_memory(bytes) {
        Ok(img) => {
            let rgb = img.to_rgb8();
            Some(ImageData { width: rgb.width(), height: rgb.height(), data: rgb.into_raw() })
        },
        Err(_) => None,
    }
}

/// As [`decode_image_rgb`], converting with `to_rgba8` to 8-bit RGBA
/// samples: at least four per pixel.
#[verifier::external_body]
pub(crate) fn decode_image_rgba(bytes: &[u8]) -> (r: Option<ImageData>)
    ensures
        r matches Some(img) ==> img.data@.len() >= 4 * (img.width as int) * (img.height as int),
        r matches Some(img) ==> decoded_from(bytes@, true, img@),
{
    match image::load_from_memory(bytes) {
        Ok(img) => {
            let rgba = img.to_rgba8();
            Some(ImageData { width: rgba.width(), height: rgba.height(), data: rgba.into_raw() })
        },
        Err(_) => None,
    }
}

} // verus!
