//! The header of a SOG bundle (`meta.json`) as the decoder reads it: which
//! archive member holds each image, how many splats there are, and the
//! sizes of the quantisation codebooks. The floating-point ranges and
//! codebook values themselves stay with the caller, which applies them.
use vstd::prelude::*;
use crate::sog::error::{SogError, SogErrorView};

verus! {

/// Free-form information about the tool that wrote the bundle.
#[derive(Debug, Clone)]
pub struct SogAssetMeta {
    pub generator: Option<String>,
}

/// Where the quaternions are stored.
#[derive(Debug, Clone)]
pub struct SogQuatsMeta {
    pub files: [String; 1],
}

/// Where the two 8-bit halves of the 16-bit quantised positions are stored:
/// `files[0]` holds the low bytes, `files[1]` the high bytes.
#[derive(Debug, Clone)]
pub struct SogMeansLayout {
    pub files: [String; 2],
}

/// A codebook-quantised attribute: the image of codebook indices and the
/// number of entries its codebook holds.
#[derive(Debug, Clone)]
pub struct SogCodebookLayout {
    pub codebook_len: usize,
    pub files: [String; 1],
}

/// The higher-order spherical-harmonics palette: `count` palette entries of
/// `bands` bands, the codebook size, and the centroid (`files[0]`) and
/// label (`files[1]`) images.
#[derive(Debug, Clone)]
pub struct SogShNLayout {
    pub count: usize,
    pub bands: u32,
    pub codebook_len: usize,
    pub files: [String; 2],
}

/// Everything the decoder reads from a SOG header.
#[derive(Debug, Clone)]
pub struct SogLayout {
    pub version: u32,
    pub asset: Option<SogAssetMeta>,
    pub count: usize,
    pub antialias: bool,
    pub means: SogMeansLayout,
    pub scales: SogCodebookLayout,
    pub quats: SogQuatsMeta,
    pub sh0: SogCodebookLayout,
    pub shn: Option<SogShNLayout>,
}

/// The first rule of the supported format that a header breaks, checked in
/// this order: version 2, 256-entry scales and base colour codebooks, and,
/// when higher-order harmonics are present, 1 to 3 bands, at most 65536
/// palette entries and a 256-entry codebook.
pub open spec fn spec_check_supported(meta: SogLayout) -> Result<(), SogErrorView> {
    if meta.version != 2 {
        Err(SogErrorView::UnsupportedVersion { version: meta.version })
    } else if meta.scales.codebook_len != 256 {
        Err(SogErrorView::InvalidScalesCodebookLength { len: meta.scales.codebook_len })
    } else if meta.sh0.codebook_len != 256 {
        Err(SogErrorView::InvalidSh0CodebookLength { len: meta.sh0.codebook_len })
    } else {
        match meta.shn {
            None => Ok(()),
            Some(shn) => if !(1 <= shn.bands <= 3) {
                Err(SogErrorView::InvalidShNBands { bands: shn.bands })
            } else if shn.count > 65536 {
                Err(SogErrorView::InvalidShNCount { count: shn.count })
            } else if shn.codebook_len != 256 {
                Err(SogErrorView::InvalidShNCodebookLength { len: shn.codebook_len })
            } else {
                Ok(())
            },
        }
    }
}

/// Checks that a header describes a bundle this decoder supports.
pub fn ensure_supported_sog_format(meta: &SogLayout) -> (r: Result<(), SogError>)
    ensures
        match r {
            Ok(()) => spec_check_supported(*meta) == Ok::<(), SogErrorView>(()),
            Err(e) => spec_check_supported(*meta) == Err::<(), SogErrorView>(e@),
        },
{
    if meta.version != 2 {
        return Err(SogError::UnsupportedVersion { version: meta.version });
    }
    if meta.scales.codebook_len != 256 {
        return Err(SogError::InvalidScalesCodebookLength { len: meta.scales.codebook_len });
    }
    if meta.sh0.codebook_len != 256 {
        return Err(SogError::InvalidSh0CodebookLength { len: meta.sh0.codebook_len });
    }
    if let Some(shn) = &meta.shn {
        if !(1 <= shn.bands && shn.bands <= 3) {
            return Err(SogError::InvalidShNBands { bands: shn.bands });
        }
        if shn.count > 65536 {
            return Err(SogError::InvalidShNCount { count: shn.count });
        }
        if shn.codebook_len != 256 {
            return Err(SogError::InvalidShNCodebookLength { len: shn.codebook_len });
        }
    }
    Ok(())
}

} // verus!
