use splat_viewer::sog::archive::SogArchive;
use splat_viewer::sog::decode::{
    decode_orientation, decode_position, decode_shn_coeff_rgb, decode_shn_label, decode_sog, decode_splat,
    decode_splats, shn_coeff_count, SogImages, SogShNImages,
};
use splat_viewer::sog::error::SogError;
use splat_viewer::sog::layout::{
    ensure_supported_sog_format, SogAssetMeta, SogCodebookLayout, SogLayout, SogMeansLayout, SogQuatsMeta, SogShNLayout,
};
use splat_viewer::sog::pixels::ImageData;
use std::io::{Cursor, Write};

fn webp(width: u32, height: u32, data: &[u8], alpha: bool) -> Vec<u8> {
    let mut out = Vec::new();
    let color = if alpha { image::ExtendedColorType::Rgba8 } else { image::ExtendedColorType::Rgb8 };
    image::codecs::webp::WebPEncoder::new_lossless(&mut out).encode(data, width, height, color).unwrap();
    out
}

fn zip_of(files: &[(&str, Vec<u8>)]) -> Vec<u8> {
    let mut writer = zip::ZipWriter::new(Cursor::new(Vec::new()));
    let options = zip::write::SimpleFileOptions::default().compression_method(zip::CompressionMethod::Stored);
    for (name, data) in files {
        writer.start_file(*name, options).unwrap();
        writer.write_all(data).unwrap();
    }
    writer.finish().unwrap().into_inner()
}

fn rgb(width: u32, height: u32, data: Vec<u8>) -> ImageData {
    ImageData { width, height, data }
}

fn layout(count: usize, shn: Option<SogShNLayout>) -> SogLayout {
    SogLayout {
        version: 2,
        asset: Some(SogAssetMeta { generator: Some("test".to_string()) }),
        count,
        antialias: false,
        means: SogMeansLayout { files: ["means_l.webp".to_string(), "means_u.webp".to_string()] },
        scales: SogCodebookLayout { codebook_len: 256, files: ["scales.webp".to_string()] },
        quats: SogQuatsMeta { files: ["quats.webp".to_string()] },
        sh0: SogCodebookLayout { codebook_len: 256, files: ["sh0.webp".to_string()] },
        shn,
    }
}

#[test]
fn archive_reads_back_member_contents() {
    let bytes = zip_of(&[("meta.json", b"{\"version\":2}".to_vec()), ("a/b.bin", vec![1, 2, 3])]);
    let archive = SogArchive::from_zip_bytes(&bytes).unwrap();
    assert_eq!(archive.get("meta.json").unwrap(), b"{\"version\":2}");
    assert_eq!(archive.get("a/b.bin").unwrap(), &[1u8, 2, 3][..]);
}

#[test]
fn archive_reports_missing_member() {
    let bytes = zip_of(&[("meta.json", b"{}".to_vec())]);
    let archive = SogArchive::from_zip_bytes(&bytes).unwrap();
    match archive.get("means_l.webp") {
        Err(SogError::MissingEntry { name }) => assert_eq!(name, "means_l.webp"),
        other => panic!("unexpected {other:?}"),
    }
}

#[test]
fn archive_skips_directories() {
    let mut writer = zip::ZipWriter::new(Cursor::new(Vec::new()));
    let options = zip::write::SimpleFileOptions::default().compression_method(zip::CompressionMethod::Stored);
    writer.add_directory("images/", options).unwrap();
    writer.start_file("images/x.bin", options).unwrap();
    writer.write_all(&[9]).unwrap();
    let bytes = writer.finish().unwrap().into_inner();
    let archive = SogArchive::from_zip_bytes(&bytes).unwrap();
    assert!(matches!(archive.get("images/"), Err(SogError::MissingEntry { .. })));
    assert_eq!(archive.get("images/x.bin").unwrap(), &[9u8][..]);
}

#[test]
fn non_zip_bytes_are_rejected() {
    assert!(matches!(SogArchive::from_zip_bytes(b"definitely not a zip archive"), Err(SogError::ZipOpen)));
    assert!(matches!(SogArchive::from_zip_bytes(&[]), Err(SogError::ZipOpen)));
}

#[test]
fn webp_members_decode_to_pixels() {
    let pixels = vec![10, 20, 30, 40, 50, 60];
    let rgba = vec![1, 2, 3, 4, 5, 6, 7, 8];
    let bytes = zip_of(&[("c.webp", webp(2, 1, &pixels, false)), ("q.webp", webp(1, 2, &rgba, true)), ("junk.webp", vec![0, 1, 2])]);
    let archive = SogArchive::from_zip_bytes(&bytes).unwrap();
    let img = archive.read_webp_rgb("c.webp").unwrap();
    assert_eq!((img.width, img.height), (2, 1));
    assert_eq!(img.data, pixels);
    let img = archive.read_webp_rgba("q.webp").unwrap();
    assert_eq!((img.width, img.height), (1, 2));
    assert_eq!(img.data, rgba);
    match archive.read_webp_rgb("junk.webp") {
        Err(SogError::ImageDecode { name }) => assert_eq!(name, "junk.webp"),
        other => panic!("unexpected {other:?}"),
    }
    assert!(matches!(archive.read_webp_rgba("none.webp"), Err(SogError::MissingEntry { .. })));
}

#[test]
fn pixel_access_checks_bounds() {
    let img = rgb(2, 1, vec![1, 2, 3, 4, 5, 6]);
    assert_eq!(img.pixel_rgb(0).unwrap(), [1, 2, 3]);
    assert_eq!(img.pixel_rgb(1).unwrap(), [4, 5, 6]);
    match img.pixel_rgb(2) {
        Err(SogError::RgbPixelOutOfBounds { index, pixels }) => assert_eq!((index, pixels), (2, 2)),
        other => panic!("unexpected {other:?}"),
    }
    assert!(matches!(img.pixel_rgb(usize::MAX), Err(SogError::RgbPixelOutOfBounds { .. })));
    assert_eq!(img.pixel_rgba(0).unwrap(), [1, 2, 3, 4]);
    match img.pixel_rgba(1) {
        Err(SogError::RgbaPixelOutOfBounds { index, pixels }) => assert_eq!((index, pixels), (1, 2)),
        other => panic!("unexpected {other:?}"),
    }
    assert!(matches!(img.pixel_rgba(usize::MAX / 2), Err(SogError::RgbaPixelOutOfBounds { .. })));
}

#[test]
fn small_integer_decoders() {
    assert_eq!(decode_shn_label([0x34, 0x12, 0xff]), 0x1234);
    assert_eq!(decode_shn_label([255, 255, 0]), 65535);
    assert_eq!(shn_coeff_count(1).unwrap(), 3);
    assert_eq!(shn_coeff_count(2).unwrap(), 8);
    assert_eq!(shn_coeff_count(3).unwrap(), 15);
    assert!(matches!(shn_coeff_count(0), Err(SogError::InvalidShNBands { bands: 0 })));
    assert!(matches!(shn_coeff_count(4), Err(SogError::InvalidShNBands { bands: 4 })));
    assert_eq!(decode_position([0x01, 0xff, 0x00], [0x80, 0x00, 0xff]), [0x8001, 0x00ff, 0xff00]);
}

#[test]
fn quaternion_mode_byte() {
    assert_eq!(decode_orientation([1, 2, 3, 252]).unwrap(), 0);
    assert_eq!(decode_orientation([1, 2, 3, 253]).unwrap(), 1);
    assert_eq!(decode_orientation([1, 2, 3, 254]).unwrap(), 2);
    assert_eq!(decode_orientation([1, 2, 3, 255]).unwrap(), 3);
    assert!(matches!(decode_orientation([1, 2, 3, 251]), Err(SogError::InvalidQuatModeByte { byte: 251 })));
    assert!(matches!(decode_orientation([0, 0, 0, 0]), Err(SogError::InvalidQuatModeByte { byte: 0 })));
}

#[test]
fn shn_coefficients_are_found_in_centroid_grid() {
    // 2 labels per row would need 64 * 3 columns; use a small grid and small labels.
    let width = 6u32;
    let height = 2u32;
    let mut data = Vec::new();
    for p in 0..(width * height) as u8 {
        data.extend_from_slice(&[p, p + 100, p + 200]);
    }
    let centroids = rgb(width, height, data);
    // label 1, coefficient 2 of 3: column 1*3+2 = 5, row 0
    assert_eq!(decode_shn_coeff_rgb(1, 2, 3, &centroids).unwrap(), [5, 105, 205]);
    // label 64: column 0, row 1
    assert_eq!(decode_shn_coeff_rgb(64, 1, 3, &centroids).unwrap(), [7, 107, 207]);
    match decode_shn_coeff_rgb(2, 0, 3, &centroids) {
        Err(SogError::ShNCentroidOutOfBounds { label, coeff, u, v, width, height }) => {
            assert_eq!((label, coeff, u, v, width, height), (2, 0, 6, 0, 6, 2))
        }
        other => panic!("unexpected {other:?}"),
    }
    assert!(matches!(decode_shn_coeff_rgb(128, 0, 3, &centroids), Err(SogError::ShNCentroidOutOfBounds { .. })));
    // inside the claimed size but past the data
    let short = rgb(6, 2, vec![0; 9]);
    assert!(matches!(decode_shn_coeff_rgb(1, 0, 3, &short), Err(SogError::RgbPixelOutOfBounds { index: 3, pixels: 12 })));
}

#[test]
fn unsupported_headers_are_rejected_in_order() {
    let ok = layout(1, Some(SogShNLayout { count: 10, bands: 3, codebook_len: 256, files: ["c".into(), "l".into()] }));
    assert!(ensure_supported_sog_format(&ok).is_ok());
    let mut m = ok.clone();
    m.version = 1;
    m.scales.codebook_len = 3;
    assert!(matches!(ensure_supported_sog_format(&m), Err(SogError::UnsupportedVersion { version: 1 })));
    let mut m = ok.clone();
    m.scales.codebook_len = 255;
    assert!(matches!(ensure_supported_sog_format(&m), Err(SogError::InvalidScalesCodebookLength { len: 255 })));
    let mut m = ok.clone();
    m.sh0.codebook_len = 0;
    assert!(matches!(ensure_supported_sog_format(&m), Err(SogError::InvalidSh0CodebookLength { len: 0 })));
    let mut m = ok.clone();
    m.shn.as_mut().unwrap().bands = 0;
    assert!(matches!(ensure_supported_sog_format(&m), Err(SogError::InvalidShNBands { bands: 0 })));
    let mut m = ok.clone();
    m.shn.as_mut().unwrap().count = 65537;
    assert!(matches!(ensure_supported_sog_format(&m), Err(SogError::InvalidShNCount { count: 65537 })));
    let mut m = ok.clone();
    m.shn.as_mut().unwrap().count = 65536;
    assert!(ensure_supported_sog_format(&m).is_ok());
    let mut m = ok.clone();
    m.shn.as_mut().unwrap().codebook_len = 128;
    assert!(matches!(ensure_supported_sog_format(&m), Err(SogError::InvalidShNCodebookLength { len: 128 })));
    assert!(ensure_supported_sog_format(&layout(5, None)).is_ok());
}

fn two_splat_images(shn: Option<SogShNImages>) -> SogImages {
    SogImages {
        means_l: rgb(2, 1, vec![1, 2, 3, 4, 5, 6]),
        means_u: rgb(2, 1, vec![7, 8, 9, 10, 11, 12]),
        quats: rgb(2, 1, vec![20, 21, 22, 252, 23, 24, 25, 255]),
        scales: rgb(2, 1, vec![30, 31, 32, 33, 34, 35]),
        sh0: rgb(2, 1, vec![40, 41, 42, 43, 44, 45, 46, 47]),
        shn,
    }
}

#[test]
fn splats_decode_pixel_by_pixel() {
    let images = two_splat_images(None);
    let splats = decode_splats(&images, None, 2).unwrap();
    assert_eq!(splats.len(), 2);
    assert_eq!(splats[0].position, [0x0701, 0x0802, 0x0903]);
    assert_eq!(splats[1].position, [0x0a04, 0x0b05, 0x0c06]);
    assert_eq!((splats[0].rotation, splats[0].rotation_mode), ([20, 21, 22], 0));
    assert_eq!((splats[1].rotation, splats[1].rotation_mode), ([23, 24, 25], 3));
    assert_eq!(splats[1].scale, [33, 34, 35]);
    assert_eq!((splats[0].color, splats[0].alpha), ([40, 41, 42], 43));
    assert!(splats[0].sh_rest.is_empty());
    let one = decode_splat(&images, None, 1).unwrap();
    assert_eq!(one.position, splats[1].position);
}

#[test]
fn splat_decoding_stops_at_first_missing_pixel() {
    let images = two_splat_images(None);
    match decode_splats(&images, None, 3) {
        Err(SogError::RgbPixelOutOfBounds { index, pixels }) => assert_eq!((index, pixels), (2, 2)),
        other => panic!("unexpected {other:?}"),
    }
    let mut bad = two_splat_images(None);
    bad.quats.data[7] = 10;
    assert!(matches!(decode_splats(&bad, None, 2), Err(SogError::InvalidQuatModeByte { byte: 10 })));
    assert_eq!(decode_splats(&bad, None, 1).unwrap().len(), 1);
}

#[test]
fn splats_carry_palette_coefficients() {
    // label pixel of splat 0 -> label 1, of splat 1 -> label 0; one band (3 coefficients)
    let mut centroid_data = Vec::new();
    for p in 0..6u8 {
        centroid_data.extend_from_slice(&[p, p, p]);
    }
    let shn = SogShNImages { centroids: rgb(6, 1, centroid_data), labels: rgb(2, 1, vec![1, 0, 0, 0, 0, 0]) };
    let images = two_splat_images(Some(shn));
    let splats = decode_splats(&images, Some(1), 2).unwrap();
    assert_eq!(splats[0].sh_rest, vec![[3, 3, 3], [4, 4, 4], [5, 5, 5]]);
    assert_eq!(splats[1].sh_rest, vec![[0, 0, 0], [1, 1, 1], [2, 2, 2]]);
    assert!(matches!(decode_splats(&images, Some(2), 2), Err(SogError::ShNCentroidOutOfBounds { .. })));
}

#[test]
fn whole_bundle_decodes_from_zip() {
    let files = vec![
        ("means_l.webp", webp(2, 1, &[1, 2, 3, 4, 5, 6], false)),
        ("means_u.webp", webp(2, 1, &[7, 8, 9, 10, 11, 12], false)),
        ("quats.webp", webp(2, 1, &[20, 21, 22, 252, 23, 24, 25, 255], true)),
        ("scales.webp", webp(2, 1, &[30, 31, 32, 33, 34, 35], false)),
        ("sh0.webp", webp(2, 1, &[40, 41, 42, 43, 44, 45, 46, 47], true)),
    ];
    let archive = SogArchive::from_zip_bytes(&zip_of(&files)).unwrap();
    let splats = decode_sog(&archive, &layout(2, None)).unwrap();
    assert_eq!(splats.len(), 2);
    assert_eq!(splats[1].position, [0x0a04, 0x0b05, 0x0c06]);
    assert_eq!(splats[1].rotation_mode, 3);
    assert_eq!((splats[1].color, splats[1].alpha), ([44, 45, 46], 47));

    let mut unsupported = layout(2, None);
    unsupported.version = 3;
    assert!(matches!(decode_sog(&archive, &unsupported), Err(SogError::UnsupportedVersion { version: 3 })));

    let with_palette = layout(2, Some(SogShNLayout { count: 1, bands: 1, codebook_len: 256, files: ["c.webp".into(), "l.webp".into()] }));
    match decode_sog(&archive, &with_palette) {
        Err(SogError::MissingEntry { name }) => assert_eq!(name, "c.webp"),
        other => panic!("unexpected {other:?}"),
    }
}

#[test]
fn corrupted_member_is_reported_by_name() {
    let mut bytes = zip_of(&[("meta.json", b"{\"version\":2}".to_vec())]);
    // flip a byte of the stored member data: its checksum no longer matches
    let pos = bytes.windows(13).position(|w| w == b"{\"version\":2}").unwrap();
    bytes[pos + 1] ^= 0xff;
    match SogArchive::from_zip_bytes(&bytes) {
        Err(SogError::ZipRead { name }) => assert_eq!(name, "meta.json"),
        Err(other) => panic!("unexpected {other:?}"),
        Ok(_) => panic!("a corrupted member was read"),
    }
}
