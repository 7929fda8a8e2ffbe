//! Why a SOG bundle could not be read.
use vstd::prelude::*;

verus! {

/// Every way reading a SOG bundle can fail.
#[derive(Debug, Clone)]
pub enum SogError {
    /// The bytes are not a zip archive the zip reader can open.
    ZipOpen,
    /// The zip member at this position could not be opened.
    ZipEntry { index: usize },
    /// The bytes of the zip member of this name could not be read.
    ZipRead { name: String },
    /// The archive has no member of this name.
    MissingEntry { name: String },
    /// The member of this name is not an image the image decoder accepts.
    ImageDecode { name: String },
    /// The header announces a format version other than 2.
    UnsupportedVersion { version: u32 },
    /// The scales codebook does not hold 256 entries.
    InvalidScalesCodebookLength { len: usize },
    /// The base colour codebook does not hold 256 entries.
    InvalidSh0CodebookLength { len: usize },
    /// The higher-order harmonics use a band count outside `1..=3`.
    InvalidShNBands { bands: u32 },
    /// The higher-order harmonics palette holds more than 65536 entries.
    InvalidShNCount { count: usize },
    /// The higher-order harmonics codebook does not hold 256 entries.
    InvalidShNCodebookLength { len: usize },
    /// An RGB pixel past the end of an image was asked for.
    RgbPixelOutOfBounds { index: usize, pixels: u64 },
    /// An RGBA pixel past the end of an image was asked for.
    RgbaPixelOutOfBounds { index: usize, pixels: u64 },
    /// A quaternion's fourth byte, which must lie in `252..=255`.
    InvalidQuatModeByte { byte: u8 },
    /// A palette entry that lies outside the centroid image.
    ShNCentroidOutOfBounds { label: usize, coeff: usize, u: usize, v: usize, width: u32, height: u32 },
}

/// The mathematical value of a [`SogError`]: the same cases, with names as text.
pub enum SogErrorView {
    ZipOpen,
    ZipEntry { index: usize },
    ZipRead { name: Seq<char> },
    MissingEntry { name: Seq<char> },
    ImageDecode { name: Seq<char> },
    UnsupportedVersion { version: u32 },
    InvalidScalesCodebookLength { len: usize },
    InvalidSh0CodebookLength { len: usize },
    InvalidShNBands { bands: u32 },
    InvalidShNCount { count: usize },
    InvalidShNCodebookLength { len: usize },
    RgbPixelOutOfBounds { index: usize, pixels: u64 },
    RgbaPixelOutOfBounds { index: usize, pixels: u64 },
    InvalidQuatModeByte { byte: u8 },
    ShNCentroidOutOfBounds { label: usize, coeff: usize, u: usize, v: usize, width: u32, height: u32 },
}

impl View for SogError {
    type V = SogErrorView;

    open spec fn view(&self) -> SogErrorView {
        match self {
            SogError::ZipOpen => SogErrorView::ZipOpen,
            SogError::ZipEntry { index } => SogErrorView::ZipEntry { index: *index },
            SogError::ZipRead { name } => SogErrorView::ZipRead { name: name@ },
            SogError::MissingEntry { name } => SogErrorView::MissingEntry { name: name@ },
            SogError::ImageDecode { name } => SogErrorView::ImageDecode { name: name@ },
            SogError::UnsupportedVersion { version } => SogErrorView::UnsupportedVersion { version: *version },
            SogError::InvalidScalesCodebookLength { len } => SogErrorView::InvalidScalesCodebookLength { len: *len },
            SogError::InvalidSh0CodebookLength { len } => SogErrorView::InvalidSh0CodebookLength { len: *len },
            SogError::InvalidShNBands { bands } => SogErrorView::InvalidShNBands { bands: *bands },
            SogError::InvalidShNCount { count } => SogErrorView::InvalidShNCount { count: *count },
            SogError::InvalidShNCodebookLength { len } => SogErrorView::InvalidShNCodebookLength { len: *len },
            SogError::RgbPixelOutOfBounds { index, pixels } => SogErrorView::RgbPixelOutOfBounds { index: *index, pixels: *pixels },
            SogError::RgbaPixelOutOfBounds { index, pixels } => SogErrorView::RgbaPixelOutOfBounds { index: *index, pixels: *pixels },
            SogError::InvalidQuatModeByte { byte } => SogErrorView::InvalidQuatModeByte { byte: *byte },
            SogError::ShNCentroidOutOfBounds { label, coeff, u, v, width, height } =>
                SogErrorView::ShNCentroidOutOfBounds { label: *label, coeff: *coeff, u: *u, v: *v, width: *width, height: *height },
        }
    }
}

} // verus!
