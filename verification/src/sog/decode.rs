//! Decoding the per-splat quantised attributes of a SOG bundle. Each splat
//! is one pixel of every attribute image; what comes out are the integer
//! codes (quantised positions, quaternion bytes, codebook indices) that the
//! caller maps to floating-point values with the header's ranges and
//! codebooks.
use vstd::prelude::*;
use crate::sog::error::{SogError, SogErrorView};
use crate::sog::pixels::{ImageData, ImageView, spec_pixel_rgb, spec_pixel_rgba, pixel_count, decode_image_rgb, decode_image_rgba, decoded_from};
use crate::sog::archive::SogArchive;
use crate::sog::layout::{SogLayout, spec_check_supported, ensure_supported_sog_format};
use vstd::string::StringExecFns;

verus! {

/// Number of higher-order harmonic coefficients per colour channel for a
/// band count: 3, 8 or 15 for 1, 2 or 3 bands.
pub open spec fn spec_shn_coeff_count(bands: u32) -> Result<usize, SogErrorView> {
    if bands == 1 {
        Ok(3)
    } else if bands == 2 {
        Ok(8)
    } else if bands == 3 {
        Ok(15)
    } else {
        Err(SogErrorView::InvalidShNBands { bands })
    }
}

/// The coefficient count for a band count.
pub fn shn_coeff_count(bands: u32) -> (r: Result<usize, SogError>)
    ensures
        match r {
            Ok(n) => spec_shn_coeff_count(bands) == Ok::<usize, SogErrorView>(n),
            Err(e) => spec_shn_coeff_count(bands) == Err::<usize, SogErrorView>(e@),
        },
{
    match bands {
        1 => Ok(3),
        2 => Ok(8),
        3 => Ok(15),
        _ => Err(SogError::InvalidShNBands { bands }),
    }
}

/// The palette label stored in a label pixel: red is the low byte, green
/// the high byte.
pub open spec fn spec_shn_label(label_rgb: Seq<u8>) -> int {
    label_rgb[0] + 256 * label_rgb[1]
}

/// The palette label of a label pixel.
pub fn decode_shn_label(label_rgb: [u8; 3]) -> (r: usize)
    ensures
        r == spec_shn_label(label_rgb@),
        r <= 65535,
{
    let lo: usize = label_rgb[0] as usize;
    let hi: usize = label_rgb[1] as usize;
    lo + hi * 256
}

/// The 16-bit position code of one axis: high byte from the upper image,
/// low byte from the lower image.
pub open spec fn spec_quantized_axis(lo: u8, hi: u8) -> u16 {
    (hi as int * 256 + lo as int) as u16
}

/// The 16-bit position codes of the three axes.
pub open spec fn spec_quantized_position(lower: Seq<u8>, upper: Seq<u8>) -> Seq<u16> {
    seq![
        spec_quantized_axis(lower[0], upper[0]),
        spec_quantized_axis(lower[1], upper[1]),
        spec_quantized_axis(lower[2], upper[2]),
    ]
}

fn quantized_axis(lo: u8, hi: u8) -> (r: u16)
    ensures
        r == spec_quantized_axis(lo, hi),
{
    let r: u16 = ((hi as u16) << 8) | (lo as u16);
    assert(((hi as u16) << 8) | (lo as u16) == hi as u16 * 256 + lo as u16) by (bit_vector);
    r
}

/// The 16-bit quantised position of a splat, before it is mapped into the
/// header's range and un-logged.
pub fn decode_position(means_l_rgb: [u8; 3], means_u_rgb: [u8; 3]) -> (r: [u16; 3])
    ensures
        r@ == spec_quantized_position(means_l_rgb@, means_u_rgb@),
{
    let r: [u16; 3] = [
        quantized_axis(means_l_rgb[0], means_u_rgb[0]),
        quantized_axis(means_l_rgb[1], means_u_rgb[1]),
        quantized_axis(means_l_rgb[2], means_u_rgb[2]),
    ];
    proof {
        assert(r@ =~= spec_quantized_position(means_l_rgb@, means_u_rgb@));
    }
    r
}

/// Which quaternion component a quaternion pixel omits (0 = x, 1 = y,
/// 2 = z, 3 = w), read from its fourth byte, which must lie in `252..=255`.
pub open spec fn spec_orientation_mode(rgba: Seq<u8>) -> Result<u8, SogErrorView> {
    if rgba[3] >= 252 {
        Ok((rgba[3] - 252) as u8)
    } else {
        Err(SogErrorView::InvalidQuatModeByte { byte: rgba[3] })
    }
}

/// The omitted-component mode of a quaternion pixel.
pub fn decode_orientation(rgba: [u8; 4]) -> (r: Result<u8, SogError>)
    ensures
        match r {
            Ok(m) => spec_orientation_mode(rgba@) == Ok::<u8, SogErrorView>(m) && m <= 3,
            Err(e) => spec_orientation_mode(rgba@) == Err::<u8, SogErrorView>(e@),
        },
{
    if rgba[3] < 252 {
        return Err(SogError::InvalidQuatModeByte { byte: rgba[3] });
    }
    Ok(rgba[3] - 252)
}

/// Position of palette coefficient `coeff_index` of label `label` in the
/// centroid image: column `(label % 64) * coeff_count + coeff_index`, row
/// `label / 64`.
pub open spec fn spec_centroid_column(label: int, coeff_index: int, coeff_count: int) -> int {
    (label % 64) * coeff_count + coeff_index
}

/// The three codebook indices of one palette coefficient, or why the
/// centroid image does not hold it. A pixel index past `usize::MAX` is
/// reported as `usize::MAX`.
pub open spec fn spec_shn_coeff(label: usize, coeff_index: usize, coeff_count: usize, centroids: ImageView) -> Result<Seq<u8>, SogErrorView> {
    let u = spec_centroid_column(label as int, coeff_index as int, coeff_count as int);
    let v = label as int / 64;
    if !(u < centroids.width && v < centroids.height) {
        Err(SogErrorView::ShNCentroidOutOfBounds {
            label,
            coeff: coeff_index,
            u: u as usize,
            v: v as usize,
            width: centroids.width,
            height: centroids.height,
        })
    } else {
        let index = v * centroids.width + u;
        if index <= usize::MAX {
            spec_pixel_rgb(centroids, index as usize)
        } else {
            Err(SogErrorView::RgbPixelOutOfBounds { index: usize::MAX, pixels: pixel_count(centroids) })
        }
    }
}

/// The codebook indices of palette coefficient `coeff_index` of label
/// `label`, looked up in the centroid image.
pub fn decode_shn_coeff_rgb(label: usize, coeff_index: usize, coeff_count: usize, centroids: &ImageData) -> (r: Result<[u8; 3], SogError>)
    requires
        spec_centroid_column(label as int, coeff_index as int, coeff_count as int) <= usize::MAX,
    ensures
        match r {
            Ok(p) => spec_shn_coeff(label, coeff_index, coeff_count, centroids@) == Ok::<Seq<u8>, SogErrorView>(p@),
            Err(e) => spec_shn_coeff(label, coeff_index, coeff_count, centroids@) == Err::<Seq<u8>, SogErrorView>(e@),
        },
{
    let col = label % 64;
    let u = col * coeff_count + coeff_index;
    let v = label / 64;
    if !(u < centroids.width as usize && v < centroids.height as usize) {
        return Err(SogError::ShNCentroidOutOfBounds {
            label,
            coeff: coeff_index,
            u,
            v,
            width: centroids.width,
            height: centroids.height,
        });
    }
    let v64: u64 = v as u64;
    let w64: u64 = centroids.width as u64;
    assert(v64 * w64 <= 0xffff_fffe * 0xffff_ffff) by (nonlinear_arith)
        requires
            v64 < 0xffff_ffff,
            w64 <= 0xffff_ffff,
    ;
    let index: u64 = v64 * w64 + u as u64;
    if index > usize::MAX as u64 {
        return Err(SogError::RgbPixelOutOfBounds { index: usize::MAX, pixels: centroids.pixel_total() });
    }
    centroids.pixel_rgb(index as usize)
}

/// The two images of the higher-order harmonics palette.
#[derive(Debug, Clone)]
pub struct SogShNImages {
    pub centroids: ImageData,
    pub labels: ImageData,
}

/// All attribute images of a bundle, decoded.
#[derive(Debug, Clone)]
pub struct SogImages {
    pub means_l: ImageData,
    pub means_u: ImageData,
    pub quats: ImageData,
    pub scales: ImageData,
    pub sh0: ImageData,
    pub shn: Option<SogShNImages>,
}

/// The mathematical value of the palette images.
pub struct SogShNImagesView {
    pub centroids: ImageView,
    pub labels: ImageView,
}

/// The mathematical value of the attribute images.
pub struct SogImagesView {
    pub means_l: ImageView,
    pub means_u: ImageView,
    pub quats: ImageView,
    pub scales: ImageView,
    pub sh0: ImageView,
    pub shn: Option<SogShNImagesView>,
}

impl View for SogImages {
    type V = SogImagesView;

    open spec fn view(&self) -> SogImagesView {
        SogImagesView {
            means_l: self.means_l@,
            means_u: self.means_u@,
            quats: self.quats@,
            scales: self.scales@,
            sh0: self.sh0@,
            shn: match self.shn {
                Some(s) => Some(SogShNImagesView { centroids: s.centroids@, labels: s.labels@ }),
                None => None,
            },
        }
    }
}

/// The integer codes of one splat.
#[derive(Debug, Clone)]
pub struct SogSplat {
    /// 16-bit quantised position per axis.
    pub position: [u16; 3],
    /// The three stored quaternion components, as bytes.
    pub rotation: [u8; 3],
    /// Which quaternion component was omitted (0 = x, 1 = y, 2 = z, 3 = w).
    pub rotation_mode: u8,
    /// Scale codebook index per axis.
    pub scale: [u8; 3],
    /// Base colour codebook index per channel.
    pub color: [u8; 3],
    /// Opacity as an 8-bit alpha.
    pub alpha: u8,
    /// Per higher-order coefficient, the codebook indices of its red, green
    /// and blue values; empty when the bundle has no such harmonics.
    pub sh_rest: Vec<[u8; 3]>,
}

/// The mathematical value of a [`SogSplat`].
pub struct SogSplatView {
    pub position: Seq<u16>,
    pub rotation: Seq<u8>,
    pub rotation_mode: u8,
    pub scale: Seq<u8>,
    pub color: Seq<u8>,
    pub alpha: u8,
    pub sh_rest: Seq<Seq<u8>>,
}

impl View for SogSplat {
    type V = SogSplatView;

    open spec fn view(&self) -> SogSplatView {
        SogSplatView {
            position: self.position@,
            rotation: self.rotation@,
            rotation_mode: self.rotation_mode,
            scale: self.scale@,
            color: self.color@,
            alpha: self.alpha,
            sh_rest: self.sh_rest@.map_values(|c: [u8; 3]| c@),
        }
    }
}

/// The first `n` palette coefficients of a label, stopping at the first one
/// the centroid image does not hold.
pub open spec fn spec_shn_coeffs(label: usize, coeff_count: usize, centroids: ImageView, n: nat) -> Result<Seq<Seq<u8>>, SogErrorView>
    decreases n,
{
    if n == 0 {
        Ok(Seq::empty())
    } else {
        match spec_shn_coeffs(label, coeff_count, centroids, (n - 1) as nat) {
            Err(e) => Err(e),
            Ok(done) => match spec_shn_coeff(label, (n - 1) as usize, coeff_count, centroids) {
                Err(e) => Err(e),
                Ok(c) => Ok(done.push(c)),
            },
        }
    }
}

/// The higher-order coefficients of splat `i`: none when the bundle has no
/// palette, else every coefficient of the splat's label.
pub open spec fn spec_shn_rest(shn: Option<SogShNImagesView>, bands: Option<u32>, i: usize) -> Result<Seq<Seq<u8>>, SogErrorView> {
    match (shn, bands) {
        (Some(images), Some(b)) => match spec_shn_coeff_count(b) {
            Err(e) => Err(e),
            Ok(count) => match spec_pixel_rgb(images.labels, i) {
                Err(e) => Err(e),
                Ok(label_rgb) => spec_shn_coeffs(spec_shn_label(label_rgb) as usize, count, images.centroids, count as nat),
            },
        },
        _ => Ok(Seq::empty()),
    }
}

/// Splat `i` of a bundle, or the first attribute it lacks, read in the
/// order: position (low, high), quaternion, scale, colour, palette.
pub open spec fn spec_decode_splat(images: SogImagesView, bands: Option<u32>, i: usize) -> Result<SogSplatView, SogErrorView> {
    match spec_pixel_rgb(images.means_l, i) {
        Err(e) => Err(e),
        Ok(lower) => match spec_pixel_rgb(images.means_u, i) {
            Err(e) => Err(e),
            Ok(upper) => match spec_pixel_rgba(images.quats, i) {
                Err(e) => Err(e),
                Ok(quat) => match spec_orientation_mode(quat) {
                    Err(e) => Err(e),
                    Ok(mode) => match spec_pixel_rgb(images.scales, i) {
                        Err(e) => Err(e),
                        Ok(scale) => match spec_pixel_rgba(images.sh0, i) {
                            Err(e) => Err(e),
                            Ok(color) => match spec_shn_rest(images.shn, bands, i) {
                                Err(e) => Err(e),
                                Ok(rest) => Ok(SogSplatView {
                                    position: spec_quantized_position(lower, upper),
                                    rotation: quat.take(3),
                                    rotation_mode: mode,
                                    scale,
                                    color: color.take(3),
                                    alpha: color[3],
                                    sh_rest: rest,
                                }),
                            },
                        },
                    },
                },
            },
        },
    }
}

/// The first `n` splats of a bundle, or the error of the first that fails.
pub open spec fn spec_decode_splats(images: SogImagesView, bands: Option<u32>, n: nat) -> Result<Seq<SogSplatView>, SogErrorView>
    decreases n,
{
    if n == 0 {
        Ok(Seq::empty())
    } else {
        match spec_decode_splats(images, bands, (n - 1) as nat) {
            Err(e) => Err(e),
            Ok(done) => match spec_decode_splat(images, bands, (n - 1) as usize) {
                Err(e) => Err(e),
                Ok(s) => Ok(done.push(s)),
            },
        }
    }
}

proof fn lemma_splats_error_persists(images: SogImagesView, bands: Option<u32>, j: nat, k: nat)
    requires
        j <= k,
        spec_decode_splats(images, bands, j) is Err,
    ensures
        spec_decode_splats(images, bands, k) == spec_decode_splats(images, bands, j),
    decreases k - j,
{
    if k > j {
        lemma_splats_error_persists(images, bands, j, (k - 1) as nat);
    }
}

proof fn lemma_coeffs_error_persists(label: usize, count: usize, centroids: ImageView, j: nat, k: nat)
    requires
        j <= k,
        spec_shn_coeffs(label, count, centroids, j) is Err,
    ensures
        spec_shn_coeffs(label, count, centroids, k) == spec_shn_coeffs(label, count, centroids, j),
    decreases k - j,
{
    if k > j {
        lemma_coeffs_error_persists(label, count, centroids, j, (k - 1) as nat);
    }
}

fn decode_shn_rest(shn: &Option<SogShNImages>, bands: Option<u32>, i: usize) -> (r: Result<Vec<[u8; 3]>, SogError>)
    ensures
        match r {
            Ok(rest) => spec_shn_rest(
                match *shn { Some(s) => Some(SogShNImagesView { centroids: s.centroids@, labels: s.labels@ }), None => None },
                bands, i) == Ok::<Seq<Seq<u8>>, SogErrorView>(rest@.map_values(|c: [u8; 3]| c@)),
            Err(e) => spec_shn_rest(
                match *shn { Some(s) => Some(SogShNImagesView { centroids: s.centroids@, labels: s.labels@ }), None => None },
                bands, i) == Err::<Seq<Seq<u8>>, SogErrorView>(e@),
        },
{
    let mut rest: Vec<[u8; 3]> = Vec::new();
    match (shn, bands) {
        (Some(images), Some(b)) => {
            let count = shn_coeff_count(b)?;
            let label_rgb = images.labels.pixel_rgb(i)?;
            let label = decode_shn_label(label_rgb);
            let ghost centroids = images.centroids@;
            let mut c: usize = 0;
            proof {
                assert(rest@.map_values(|x: [u8; 3]| x@) =~= Seq::<Seq<u8>>::empty());
            }
            while c < count
                invariant
                    count <= 15,
                    c <= count,
                    centroids == images.centroids@,
                    spec_shn_rest(
                        match *shn { Some(s) => Some(SogShNImagesView { centroids: s.centroids@, labels: s.labels@ }), None => None },
                        bands, i) == spec_shn_coeffs(label, count, centroids, count as nat),
                    spec_shn_coeffs(label, count, centroids, c as nat)
                        == Ok::<Seq<Seq<u8>>, SogErrorView>(rest@.map_values(|x: [u8; 3]| x@)),
                decreases count - c,
            {
                proof {
                    let col = label as int % 64;
                    assert(col * count <= 63 * 15) by (nonlinear_arith)
                        requires
                            0 <= col < 64,
                            count <= 15,
                    ;
                }
                match decode_shn_coeff_rgb(label, c, count, &images.centroids) {
                    Ok(p) => {
                        let ghost before = rest@;
                        rest.push(p);
                        proof {
                            assert(rest@.map_values(|x: [u8; 3]| x@) =~= before.map_values(|x: [u8; 3]| x@).push(p@));
                        }
                    },
                    Err(e) => {
                        proof {
                            assert(spec_shn_coeffs(label, count, centroids, (c + 1) as nat)
                                == Err::<Seq<Seq<u8>>, SogErrorView>(e@));
                            lemma_coeffs_error_persists(label, count, centroids, (c + 1) as nat, count as nat);
                        }
                        return Err(e);
                    },
                }
                c = c + 1;
            }
            Ok(rest)
        },
        _ => {
            proof {
                assert(rest@.map_values(|x: [u8; 3]| x@) =~= Seq::<Seq<u8>>::empty());
            }
            Ok(rest)
        },
    }
}

/// The integer codes of splat `i`.
pub fn decode_splat(images: &SogImages, bands: Option<u32>, i: usize) -> (r: Result<SogSplat, SogError>)
    ensures
        match r {
            Ok(s) => spec_decode_splat(images@, bands, i) == Ok::<SogSplatView, SogErrorView>(s@),
            Err(e) => spec_decode_splat(images@, bands, i) == Err::<SogSplatView, SogErrorView>(e@),
        },
{
    let lower = images.means_l.pixel_rgb(i)?;
    let upper = images.means_u.pixel_rgb(i)?;
    let position = decode_position(lower, upper);
    let quat = images.quats.pixel_rgba(i)?;
    let rotation_mode = decode_orientation(quat)?;
    let scale = images.scales.pixel_rgb(i)?;
    let color = images.sh0.pixel_rgba(i)?;
    let sh_rest = decode_shn_rest(&images.shn, bands, i)?;
    let rotation: [u8; 3] = [quat[0], quat[1], quat[2]];
    let color_rgb: [u8; 3] = [color[0], color[1], color[2]];
    let s = SogSplat { position, rotation, rotation_mode, scale, color: color_rgb, alpha: color[3], sh_rest };
    proof {
        assert(rotation@ =~= quat@.take(3));
        assert(color_rgb@ =~= color@.take(3));
    }
    Ok(s)
}

/// The integer codes of the first `count` splats of a bundle. `bands` is the
/// band count of the palette when the bundle has one.
pub fn decode_splats(images: &SogImages, bands: Option<u32>, count: usize) -> (r: Result<Vec<SogSplat>, SogError>)
    ensures
        match r {
            Ok(v) => spec_decode_splats(images@, bands, count as nat)
                == Ok::<Seq<SogSplatView>, SogErrorView>(v@.map_values(|s: SogSplat| s@)),
            Err(e) => spec_decode_splats(images@, bands, count as nat) == Err::<Seq<SogSplatView>, SogErrorView>(e@),
        },
{
    let mut splats: Vec<SogSplat> = Vec::new();
    let mut i: usize = 0;
    proof {
        assert(splats@.map_values(|x: SogSplat| x@) =~= Seq::<SogSplatView>::empty());
    }
    while i < count
        invariant
            i <= count,
            spec_decode_splats(images@, bands, i as nat)
                == Ok::<Seq<SogSplatView>, SogErrorView>(splats@.map_values(|s: SogSplat| s@)),
        decreases count - i,
    {
        match decode_splat(images, bands, i) {
            Ok(s) => {
                let ghost before = splats@;
                splats.push(s);
                proof {
                    assert(splats@.map_values(|x: SogSplat| x@) =~= before.map_values(|x: SogSplat| x@).push(s@));
                }
            },
            Err(e) => {
                proof {
                    lemma_splats_error_persists(images@, bands, (i + 1) as nat, count as nat);
                }
                return Err(e);
            },
        }
        i = i + 1;
    }
    Ok(splats)
}

/// Samples per pixel of an RGBA (`with_alpha`) or RGB image.
pub open spec fn channels(with_alpha: bool) -> int {
    if with_alpha {
        4
    } else {
        3
    }
}

/// Whether `img` holds at least `channels` samples for each of its pixels.
pub open spec fn image_fits(img: ImageView, channels: int) -> bool {
    img.data.len() >= channels * (img.width as int) * (img.height as int)
}

/// What may come of reading member `name` of an archive table as an image:
/// the image decoded from that member's bytes, with all its samples; otherwise
/// `MissingEntry` when there is no such member, and `ImageDecode` when the
/// decoder rejects it. Which members the decoder accepts is left open.
pub open spec fn image_read_outcome(
    table: Map<Seq<char>, Seq<u8>>,
    name: Seq<char>,
    with_alpha: bool,
    r: Result<ImageView, SogErrorView>,
) -> bool {
    match r {
        Ok(img) => table.contains_key(name) && image_fits(img, channels(with_alpha))
            && decoded_from(table[name], with_alpha, img),
        Err(e) => if table.contains_key(name) {
            e == SogErrorView::ImageDecode { name }
        } else {
            e == SogErrorView::MissingEntry { name }
        },
    }
}

/// The images a header calls for, in the order they are read, each with
/// whether it carries alpha: position low and high bytes, quaternions,
/// scales, base colour, then the palette centroids and labels when there
/// is a palette.
pub open spec fn image_requests(meta: SogLayout) -> Seq<(Seq<char>, bool)> {
    let base = seq![
        (meta.means.files[0]@, false),
        (meta.means.files[1]@, false),
        (meta.quats.files[0]@, true),
        (meta.scales.files[0]@, false),
        (meta.sh0.files[0]@, true),
    ];
    match meta.shn {
        Some(shn) => base + seq![(shn.files[0]@, false), (shn.files[1]@, false)],
        None => base,
    }
}

/// The images of a bundle in the order of [`image_requests`].
pub open spec fn image_list(im: SogImagesView) -> Seq<ImageView> {
    let base = seq![im.means_l, im.means_u, im.quats, im.scales, im.sh0];
    match im.shn {
        Some(shn) => base + seq![shn.centroids, shn.labels],
        None => base,
    }
}

/// `im` is a possible outcome of reading every image a header calls for:
/// it has a palette exactly when the header does, and each image is what
/// reading its member may give.
pub open spec fn images_read_from(table: Map<Seq<char>, Seq<u8>>, meta: SogLayout, im: SogImagesView) -> bool {
    &&& (im.shn is Some <==> meta.shn is Some)
    &&& forall|k: int| 0 <= k < image_requests(meta).len() ==> image_read_outcome(
        table,
        (#[trigger] image_requests(meta)[k]).0,
        image_requests(meta)[k].1,
        Ok(image_list(im)[k]),
    )
}

/// `e` is a possible error of reading the images a header calls for: the
/// error of reading some requested image, all of whose predecessors exist.
pub open spec fn images_read_error(table: Map<Seq<char>, Seq<u8>>, meta: SogLayout, e: SogErrorView) -> bool {
    exists|k: int| 0 <= k < image_requests(meta).len()
        && (forall|j: int| 0 <= j < k ==> table.contains_key(#[trigger] image_requests(meta)[j].0))
        && image_read_outcome(table, (#[trigger] image_requests(meta)[k]).0, image_requests(meta)[k].1, Err(e))
}

/// The band count of a header's palette, if it has one.
pub open spec fn spec_shn_bands(meta: SogLayout) -> Option<u32> {
    match meta.shn {
        Some(shn) => Some(shn.bands),
        None => None,
    }
}

impl SogArchive {
    fn read_image(&self, name: &str, with_alpha: bool) -> (r: Result<ImageData, SogError>)
        ensures
            match r {
                Ok(img) => image_read_outcome(self@, name@, with_alpha, Ok(img@)),
                Err(e) => image_read_outcome(self@, name@, with_alpha, Err(e@)),
            },
    {
        let bytes = self.get(name)?;
        let decoded = if with_alpha {
            decode_image_rgba(bytes)
        } else {
            decode_image_rgb(bytes)
        };
        match decoded {
            Some(img) => Ok(img),
            None => Err(SogError::ImageDecode { name: String::from_str(name) }),
        }
    }

    /// Member `name` decoded as an 8-bit RGB image: `MissingEntry` when
    /// there is no such member, `ImageDecode` when the decoder rejects it,
    /// else an image with three samples per pixel.
    pub fn read_webp_rgb(&self, name: &str) -> (r: Result<ImageData, SogError>)
        ensures
            match r {
                Ok(img) => image_read_outcome(self@, name@, false, Ok(img@)),
                Err(e) => image_read_outcome(self@, name@, false, Err(e@)),
            },
    {
        self.read_image(name, false)
    }

    /// Member `name` decoded as an 8-bit RGBA image: `MissingEntry` when
    /// there is no such member, `ImageDecode` when the decoder rejects it,
    /// else an image with four samples per pixel.
    pub fn read_webp_rgba(&self, name: &str) -> (r: Result<ImageData, SogError>)
        ensures
            match r {
                Ok(img) => image_read_outcome(self@, name@, true, Ok(img@)),
                Err(e) => image_read_outcome(self@, name@, true, Err(e@)),
            },
    {
        self.read_image(name, true)
    }
}

/// Reads and decodes every attribute image a header calls for, in the
/// order of [`image_requests`], stopping at the first that fails.
pub fn read_sog_images(archive: &SogArchive, meta: &SogLayout) -> (r: Result<SogImages, SogError>)
    ensures
        match r {
            Ok(images) => images_read_from(archive@, *meta, images@),
            Err(e) => images_read_error(archive@, *meta, e@),
        },
{
    let ghost table = archive@;
    let ghost req = image_requests(*meta);
    proof {
        assert(req[0] == (meta.means.files[0]@, false));
        assert(req[1] == (meta.means.files[1]@, false));
        assert(req[2] == (meta.quats.files[0]@, true));
        assert(req[3] == (meta.scales.files[0]@, false));
        assert(req[4] == (meta.sh0.files[0]@, true));
    }
    let means_l = match archive.read_webp_rgb(meta.means.files[0].as_str()) {
        Ok(img) => img,
        Err(e) => {
            proof { assert(images_read_error(table, *meta, e@)); }
            return Err(e);
        },
    };
    let means_u = match archive.read_webp_rgb(meta.means.files[1].as_str()) {
        Ok(img) => img,
        Err(e) => {
            proof {
                assert(forall|j: int| 0 <= j < 1 ==> table.contains_key(#[trigger] req[j].0));
                assert(images_read_error(table, *meta, e@));
            }
            return Err(e);
        },
    };
    let quats = match archive.read_webp_rgba(meta.quats.files[0].as_str()) {
        Ok(img) => img,
        Err(e) => {
            proof {
                assert(forall|j: int| 0 <= j < 2 ==> table.contains_key(#[trigger] req[j].0));
                assert(images_read_error(table, *meta, e@));
            }
            return Err(e);
        },
    };
    let scales = match archive.read_webp_rgb(meta.scales.files[0].as_str()) {
        Ok(img) => img,
        Err(e) => {
            proof {
                assert(forall|j: int| 0 <= j < 3 ==> table.contains_key(#[trigger] req[j].0));
                assert(images_read_error(table, *meta, e@));
            }
            return Err(e);
        },
    };
    let sh0 = match archive.read_webp_rgba(meta.sh0.files[0].as_str()) {
        Ok(img) => img,
        Err(e) => {
            proof {
                assert(forall|j: int| 0 <= j < 4 ==> table.contains_key(#[trigger] req[j].0));
                assert(images_read_error(table, *meta, e@));
            }
            return Err(e);
        },
    };
    let shn = match &meta.shn {
        Some(layout) => {
            proof {
                assert(req[5] == (layout.files[0]@, false));
                assert(req[6] == (layout.files[1]@, false));
            }
            let centroids = match archive.read_webp_rgb(layout.files[0].as_str()) {
                Ok(img) => img,
                Err(e) => {
                    proof {
                        assert(forall|j: int| 0 <= j < 5 ==> table.contains_key(#[trigger] req[j].0));
                        assert(images_read_error(table, *meta, e@));
                    }
                    return Err(e);
                },
            };
            let labels = match archive.read_webp_rgb(layout.files[1].as_str()) {
                Ok(img) => img,
                Err(e) => {
                    proof {
                        assert(forall|j: int| 0 <= j < 6 ==> table.contains_key(#[trigger] req[j].0));
                        assert(images_read_error(table, *meta, e@));
                    }
                    return Err(e);
                },
            };
            Some(SogShNImages { centroids, labels })
        },
        None => None,
    };
    let images = SogImages { means_l, means_u, quats, scales, sh0, shn };
    proof {
        let list = image_list(images@);
        assert(list[0] == means_l@);
        assert(list[1] == means_u@);
        assert(list[2] == quats@);
        assert(list[3] == scales@);
        assert(list[4] == sh0@);
        assert(images_read_from(table, *meta, images@));
    }
    Ok(images)
}

/// Each image of a bundle read for a header is decoded from its own member:
/// the position images from the two means files, the quaternions (with
/// alpha) from the quats file, the scales from the scales file, the base
/// colour (with alpha) from the sh0 file, and, with a palette, the centroids
/// from its first file and the labels from its second.
pub proof fn lemma_images_come_from_their_members(table: Map<Seq<char>, Seq<u8>>, meta: SogLayout, im: SogImagesView)
    requires
        images_read_from(table, meta, im),
    ensures
        table.contains_key(meta.means.files[0]@) && decoded_from(table[meta.means.files[0]@], false, im.means_l),
        table.contains_key(meta.means.files[1]@) && decoded_from(table[meta.means.files[1]@], false, im.means_u),
        table.contains_key(meta.quats.files[0]@) && decoded_from(table[meta.quats.files[0]@], true, im.quats),
        table.contains_key(meta.scales.files[0]@) && decoded_from(table[meta.scales.files[0]@], false, im.scales),
        table.contains_key(meta.sh0.files[0]@) && decoded_from(table[meta.sh0.files[0]@], true, im.sh0),
        meta.shn is Some ==> ({
            let shn = meta.shn->Some_0;
            &&& im.shn is Some
            &&& table.contains_key(shn.files[0]@)
            &&& decoded_from(table[shn.files[0]@], false, im.shn->Some_0.centroids)
            &&& table.contains_key(shn.files[1]@)
            &&& decoded_from(table[shn.files[1]@], false, im.shn->Some_0.labels)
        }),
        meta.shn is None ==> im.shn is None,
{
    let req = image_requests(meta);
    let list = image_list(im);
    assert(image_read_outcome(table, req[0].0, req[0].1, Ok(list[0])));
    assert(image_read_outcome(table, req[1].0, req[1].1, Ok(list[1])));
    assert(image_read_outcome(table, req[2].0, req[2].1, Ok(list[2])));
    assert(image_read_outcome(table, req[3].0, req[3].1, Ok(list[3])));
    assert(image_read_outcome(table, req[4].0, req[4].1, Ok(list[4])));
    if meta.shn is Some {
        assert(image_read_outcome(table, req[5].0, req[5].1, Ok(list[5])));
        assert(image_read_outcome(table, req[6].0, req[6].1, Ok(list[6])));
    }
}

/// Pixel index in the centroid image of palette coefficient `c` of label
/// `label`: labels are laid out 64 to a row, each taking `count`
/// consecutive pixels.
pub open spec fn palette_pixel(label: int, c: int, count: int, width: int) -> int {
    (label / 64) * width + (label % 64) * count + c
}

spec fn spec_coeffs_prefix(label: usize, count: usize, centroids: ImageView, n: nat) -> Seq<Seq<u8>> {
    spec_shn_coeffs(label, count, centroids, (n - 1) as nat)->Ok_0
}

proof fn lemma_shn_coeffs_ok(label: usize, count: usize, centroids: ImageView, n: nat)
    requires
        spec_shn_coeffs(label, count, centroids, n) is Ok,
        n <= count,
    ensures
        spec_shn_coeffs(label, count, centroids, n)->Ok_0.len() == n,
        forall|c: int| 0 <= c < n ==> {
            let p = palette_pixel(label as int, c, count as int, centroids.width as int);
            &&& 3 * p + 2 < centroids.data.len()
            &&& #[trigger] spec_shn_coeffs(label, count, centroids, n)->Ok_0[c]
                == centroids.data.subrange(3 * p, 3 * p + 3)
        },
    decreases n,
{
    if n > 0 {
        let prev = spec_coeffs_prefix(label, count, centroids, n);
        lemma_shn_coeffs_ok(label, count, centroids, (n - 1) as nat);
        let all = spec_shn_coeffs(label, count, centroids, n)->Ok_0;
        let c = (n - 1) as int;
        let u = spec_centroid_column(label as int, c, count as int);
        let v = label as int / 64;
        let pp = palette_pixel(label as int, c, count as int, centroids.width as int);
        assert(v * centroids.width + u == pp) by (nonlinear_arith)
            requires u == (label as int % 64) * count + c, v == label as int / 64,
                pp == (label as int / 64) * centroids.width + (label as int % 64) * count + c;
        let last = spec_shn_coeff(label, c as usize, count, centroids);
        assert(last is Ok);
        assert(u < centroids.width && v < centroids.height);
        assert(0 <= v * centroids.width + u <= usize::MAX);
        assert(all == prev.push(last->Ok_0));
        assert forall|k: int| 0 <= k < n implies {
            let p = palette_pixel(label as int, k, count as int, centroids.width as int);
            &&& 3 * p + 2 < centroids.data.len()
            &&& #[trigger] all[k] == centroids.data.subrange(3 * p, 3 * p + 3)
        } by {
            if k < c {
                assert(all[k] == prev[k]);
            }
        }
    }
}

/// What a decoded splat holds, read straight from pixel `i` of each image:
/// the position codes join the upper image's byte (high) with the lower
/// image's (low); rotation and its mode are the quaternion pixel's first
/// three bytes and its fourth less 252; scale is the scale pixel; colour
/// and alpha are the base-colour pixel; and with a palette the
/// coefficients are those of the label in the label pixel (red plus 256
/// times green), `count` consecutive centroid pixels of that label's slot.
pub proof fn lemma_splat_reads_its_own_pixels(images: SogImagesView, bands: Option<u32>, i: usize)
    requires
        spec_decode_splat(images, bands, i) is Ok,
    ensures
        ({
            let s = spec_decode_splat(images, bands, i)->Ok_0;
            let i = i as int;
            &&& forall|k: int| 0 <= k < 3 ==> #[trigger] s.position[k] as int
                == 256 * images.means_u.data[3 * i + k] + images.means_l.data[3 * i + k]
            &&& s.rotation == images.quats.data.subrange(4 * i, 4 * i + 3)
            &&& s.rotation_mode == images.quats.data[4 * i + 3] - 252
            &&& s.scale == images.scales.data.subrange(3 * i, 3 * i + 3)
            &&& s.color == images.sh0.data.subrange(4 * i, 4 * i + 3)
            &&& s.alpha == images.sh0.data[4 * i + 3]
            &&& (images.shn is None || bands is None) ==> s.sh_rest.len() == 0
            &&& (images.shn is Some && bands is Some) ==> {
                let pal = images.shn->Some_0;
                let b = bands->Some_0;
                let label = pal.labels.data[3 * i] + 256 * pal.labels.data[3 * i + 1];
                let count = spec_shn_coeff_count(b)->Ok_0 as int;
                &&& spec_shn_coeff_count(b) is Ok
                &&& s.sh_rest.len() == count
                &&& forall|c: int| 0 <= c < count ==> {
                    let p = palette_pixel(label, c, count, pal.centroids.width as int);
                    #[trigger] s.sh_rest[c] == pal.centroids.data.subrange(3 * p, 3 * p + 3)
                }
            }
        }),
{
    let s = spec_decode_splat(images, bands, i)->Ok_0;
    let lower = spec_pixel_rgb(images.means_l, i)->Ok_0;
    let upper = spec_pixel_rgb(images.means_u, i)->Ok_0;
    assert forall|k: int| 0 <= k < 3 implies #[trigger] s.position[k] as int
        == 256 * images.means_u.data[3 * i + k] + images.means_l.data[3 * i + k] by {
        assert(lower[k] == images.means_l.data[3 * i + k]);
        assert(upper[k] == images.means_u.data[3 * i + k]);
        assert(upper[k] * 256 + lower[k] <= 65535) by (nonlinear_arith)
            requires upper[k] <= 255, lower[k] <= 255;
    }
    let quat = spec_pixel_rgba(images.quats, i)->Ok_0;
    assert(s.rotation =~= images.quats.data.subrange(4 * i, 4 * i + 3));
    let color = spec_pixel_rgba(images.sh0, i)->Ok_0;
    assert(s.color =~= images.sh0.data.subrange(4 * i, 4 * i + 3));
    if let (Some(pal), Some(b)) = (images.shn, bands) {
        let count = spec_shn_coeff_count(b)->Ok_0;
        let label_rgb = spec_pixel_rgb(pal.labels, i)->Ok_0;
        let label = spec_shn_label(label_rgb) as usize;
        assert(label_rgb[0] == pal.labels.data[3 * i]);
        assert(label_rgb[1] == pal.labels.data[3 * i + 1]);
        lemma_shn_coeffs_ok(label, count, pal.centroids, count as nat);
        assert(s.sh_rest.len() == count);
        let lab = pal.labels.data[3 * i] + 256 * pal.labels.data[3 * i + 1];
        assert(label as int == lab);
        assert(s.sh_rest == spec_shn_coeffs(label, count, pal.centroids, count as nat)->Ok_0);
        assert forall|c: int| 0 <= c < count implies {
            let p = palette_pixel(lab, c, count as int, pal.centroids.width as int);
            #[trigger] s.sh_rest[c] == pal.centroids.data.subrange(3 * p, 3 * p + 3)
        } by {
            assert(s.sh_rest[c] == spec_shn_coeffs(label, count, pal.centroids, count as nat)->Ok_0[c]);
        }
    }
    assert forall|k: int| 0 <= k < 3 implies #[trigger] s.position[k] as int
        == 256 * images.means_u.data[3 * i + k] + images.means_l.data[3 * i + k] by {
        assert(lower[k] == images.means_l.data[3 * i + k]);
    }
    assert(s.rotation_mode == images.quats.data[4 * i + 3] - 252);
    assert(s.scale == images.scales.data.subrange(3 * i, 3 * i + 3));
    assert(s.alpha == images.sh0.data[4 * i + 3]);
    assert((images.shn is None || bands is None) ==> s.sh_rest.len() == 0);
}

/// A palette label is the red byte plus 256 times the green byte; the blue
/// byte is ignored, and distinct red/green pairs give distinct labels.
pub proof fn lemma_shn_label_bytes(a: Seq<u8>, b: Seq<u8>)
    requires
        a.len() == 3,
        b.len() == 3,
    ensures
        spec_shn_label(a) == a[0] + 256 * a[1],
        0 <= spec_shn_label(a) <= 65535,
        spec_shn_label(a) == spec_shn_label(b) <==> (a[0] == b[0] && a[1] == b[1]),
{
}

/// The palette slots of distinct coefficients of one label, or of the same
/// coefficient of distinct labels, are distinct pixels of the centroid
/// image, as long as each coefficient index stays below the count and the
/// slots of a row fit in the image's width.
pub proof fn lemma_palette_pixels_distinct(l1: int, c1: int, l2: int, c2: int, count: int, width: int)
    requires
        0 <= l1, 0 <= l2, 0 <= c1 < count, 0 <= c2 < count,
        64 * count <= width,
        (l1, c1) != (l2, c2),
    ensures
        palette_pixel(l1, c1, count, width) != palette_pixel(l2, c2, count, width),
{
    let q1 = l1 / 64;
    let r1 = l1 % 64;
    let q2 = l2 / 64;
    let r2 = l2 % 64;
    let p1 = r1 * count + c1;
    let p2 = r2 * count + c2;
    assert(0 <= p1 < width) by (nonlinear_arith) requires 0 <= r1 < 64, 0 <= c1 < count, 64 * count <= width, p1 == r1 * count + c1;
    assert(0 <= p2 < width) by (nonlinear_arith) requires 0 <= r2 < 64, 0 <= c2 < count, 64 * count <= width, p2 == r2 * count + c2;
    if q1 * width + p1 == q2 * width + p2 {
        assert(q1 == q2) by (nonlinear_arith)
            requires q1 * width + p1 == q2 * width + p2, 0 <= p1 < width, 0 <= p2 < width;
        assert(p1 == p2);
        assert(r1 == r2 && c1 == c2) by (nonlinear_arith)
            requires r1 * count + c1 == r2 * count + c2, 0 <= c1 < count, 0 <= c2 < count, 0 <= r1, 0 <= r2;
        assert(l1 == 64 * q1 + r1 && l2 == 64 * q2 + r2);
    }
}

/// Decodes the integer codes of every splat of a bundle whose header has
/// been read: checks the header, decodes its images and reads one pixel of
/// each per splat. An unsupported header gives its error. Otherwise the
/// outcome is that of [`decode_splats`] on some images that reading the
/// bundle's members may give, or an error of reading them; which members
/// the image decoder accepts is left open.
pub fn decode_sog(archive: &SogArchive, meta: &SogLayout) -> (r: Result<Vec<SogSplat>, SogError>)
    ensures
        match spec_check_supported(*meta) {
            Err(e) => r matches Err(x) && x@ == e,
            Ok(_) => match r {
                Ok(v) => exists|im: SogImagesView| #[trigger] images_read_from(archive@, *meta, im)
                    && spec_decode_splats(im, spec_shn_bands(*meta), meta.count as nat)
                        == Ok::<Seq<SogSplatView>, SogErrorView>(v@.map_values(|s: SogSplat| s@)),
                Err(x) => images_read_error(archive@, *meta, x@)
                    || exists|im: SogImagesView| #[trigger] images_read_from(archive@, *meta, im)
                        && spec_decode_splats(im, spec_shn_bands(*meta), meta.count as nat)
                            == Err::<Seq<SogSplatView>, SogErrorView>(x@),
            },
        },
{
    ensure_supported_sog_format(meta)?;
    let images = read_sog_images(archive, meta)?;
    let bands = match &meta.shn {
        Some(shn) => Some(shn.bands),
        None => None,
    };
    let r = decode_splats(&images, bands, meta.count);
    proof {
        assert(images_read_from(archive@, *meta, images@));
    }
    r
}

/// The palette holds every spherical-harmonic coefficient above degree 0:
/// with `b` bands that is `(b + 1)² - 1` coefficients per channel.
pub proof fn lemma_shn_coeff_count_is_basis_size(bands: u32)
    requires
        1 <= bands <= 3,
    ensures
        spec_shn_coeff_count(bands) matches Ok(n) && n == (bands + 1) * (bands + 1) - 1,
{
    let b = bands as int;
    assert(b == 1 ==> (b + 1) * (b + 1) - 1 == 3) by (nonlinear_arith);
    assert(b == 2 ==> (b + 1) * (b + 1) - 1 == 8) by (nonlinear_arith);
    assert(b == 3 ==> (b + 1) * (b + 1) - 1 == 15) by (nonlinear_arith);
}

/// The 16-bit position code keeps both bytes: its high byte is the upper
/// image's byte and its low byte the lower image's, so distinct byte pairs
/// give distinct codes.
pub proof fn lemma_quantized_axis_roundtrip(lo: u8, hi: u8)
    ensures
        spec_quantized_axis(lo, hi) / 256 == hi,
        spec_quantized_axis(lo, hi) % 256 == lo,
        forall|lo2: u8, hi2: u8| spec_quantized_axis(lo2, hi2) == spec_quantized_axis(lo, hi) ==> lo2 == lo && hi2 == hi,
{
    assert forall|lo2: u8, hi2: u8| spec_quantized_axis(lo2, hi2) == spec_quantized_axis(lo, hi) implies lo2 == lo && hi2 == hi by {
        assert(hi2 as int * 256 + lo2 as int == hi as int * 256 + lo as int);
    }
}

/// A quaternion pixel is accepted exactly when its fourth byte is at least
/// 252, and the omitted component it names is one of the four.
pub proof fn lemma_orientation_mode_range(rgba: Seq<u8>)
    requires
        rgba.len() == 4,
    ensures
        spec_orientation_mode(rgba) is Ok <==> rgba[3] >= 252,
        spec_orientation_mode(rgba) matches Ok(m) ==> m <= 3 && m + 252 == rgba[3],
{
}

/// Decoding a bundle's splats succeeds exactly when every splat decodes on
/// its own; the result then holds splat `i` at position `i`. Otherwise the
/// error is that of the first splat that fails.
pub proof fn lemma_decode_splats_pointwise(images: SogImagesView, bands: Option<u32>, n: nat)
    ensures
        spec_decode_splats(images, bands, n) matches Ok(s) ==> s.len() == n
            && forall|i: int| 0 <= i < n ==> spec_decode_splat(images, bands, i as usize) == Ok::<SogSplatView, SogErrorView>(#[trigger] s[i]),
        spec_decode_splats(images, bands, n) is Ok <==>
            forall|i: int| 0 <= i < n ==> (#[trigger] spec_decode_splat(images, bands, i as usize)) is Ok,
        spec_decode_splats(images, bands, n) matches Err(e) ==> exists|i: int| 0 <= i < n
            && #[trigger] spec_decode_splat(images, bands, i as usize) == Err::<SogSplatView, SogErrorView>(e)
            && forall|j: int| 0 <= j < i ==> (#[trigger] spec_decode_splat(images, bands, j as usize)) is Ok,
    decreases n,
{
    if n > 0 {
        lemma_decode_splats_pointwise(images, bands, (n - 1) as nat);
        let k = (n - 1) as int;
        match spec_decode_splats(images, bands, (n - 1) as nat) {
            Ok(done) => {
                match spec_decode_splat(images, bands, k as usize) {
                    Ok(last) => {
                        let s = done.push(last);
                        assert forall|i: int| 0 <= i < n implies spec_decode_splat(images, bands, i as usize)
                            == Ok::<SogSplatView, SogErrorView>(#[trigger] s[i]) by {
                            if i < k {
                                assert(s[i] == done[i]);
                            }
                        }
                    },
                    Err(e) => {
                        assert(spec_decode_splat(images, bands, k as usize) == Err::<SogSplatView, SogErrorView>(e));
                    },
                }
            },
            Err(e) => {
                let i0 = choose|i: int| 0 <= i < n - 1
                    && #[trigger] spec_decode_splat(images, bands, i as usize) == Err::<SogSplatView, SogErrorView>(e)
                    && forall|j: int| 0 <= j < i ==> (#[trigger] spec_decode_splat(images, bands, j as usize)) is Ok;
                assert(spec_decode_splat(images, bands, i0 as usize) is Err);
            },
        }
    }
}

} // verus!
