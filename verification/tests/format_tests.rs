use splat_viewer::format::FileFormat;
use std::path::PathBuf;

#[test]
fn extension_is_matched_case_insensitively() {
    assert_eq!(FileFormat::from_extension("ply"), Some(FileFormat::Ply));
    assert_eq!(FileFormat::from_extension("PLY"), Some(FileFormat::Ply));
    assert_eq!(FileFormat::from_extension("pLy"), Some(FileFormat::Ply));
    assert_eq!(FileFormat::from_extension("sog"), Some(FileFormat::Sog));
    assert_eq!(FileFormat::from_extension("SoG"), Some(FileFormat::Sog));
}

#[test]
fn unknown_extensions_are_rejected() {
    assert_eq!(FileFormat::from_extension("spz"), None);
    assert_eq!(FileFormat::from_extension(""), None);
    assert_eq!(FileFormat::from_extension("plyy"), None);
    assert_eq!(FileFormat::from_extension("pl"), None);
    assert_eq!(FileFormat::from_extension(".ply"), None);
    assert_eq!(FileFormat::from_extension("ｐly"), None);
}

#[test]
fn file_name_uses_text_after_last_dot() {
    assert_eq!(FileFormat::from_file_name("scene.ply"), Some(FileFormat::Ply));
    assert_eq!(FileFormat::from_file_name("my.scene.SOG"), Some(FileFormat::Sog));
    assert_eq!(FileFormat::from_file_name("scene.sog.ply"), Some(FileFormat::Ply));
    assert_eq!(FileFormat::from_file_name("scene.ply.zip"), None);
    assert_eq!(FileFormat::from_file_name(".ply"), Some(FileFormat::Ply));
}

#[test]
fn file_name_without_extension_is_rejected() {
    assert_eq!(FileFormat::from_file_name("scene"), None);
    assert_eq!(FileFormat::from_file_name(""), None);
    assert_eq!(FileFormat::from_file_name("scene."), None);
}

#[test]
fn path_uses_the_file_extension() {
    assert_eq!(FileFormat::from_path(&PathBuf::from("dir/scene.ply")), Some(FileFormat::Ply));
    assert_eq!(FileFormat::from_path(&PathBuf::from("/data/splats/Garden.SOG")), Some(FileFormat::Sog));
    assert_eq!(FileFormat::from_path(&PathBuf::from("dir.sog/scene")), None);
    assert_eq!(FileFormat::from_path(&PathBuf::from("scene.txt")), None);
}

#[test]
fn hidden_file_name_has_no_path_extension() {
    // `Path::extension` treats a leading dot as part of the stem.
    assert_eq!(FileFormat::from_path(&PathBuf::from("dir/.ply")), None);
    assert_eq!(FileFormat::from_path(&PathBuf::from("dir/.hidden.ply")), Some(FileFormat::Ply));
}
