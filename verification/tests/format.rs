use wallman::config::Config;
use wallman::format::install::{
    install_pack, keep_chars, is_manifest_entry, sanitize_name, InstallError, ManifestReading, PackInstaller,
};
use wallman::format::pack::{
    default_pack_file, theme_name_for, Packager, SourceFacts, SourceFault, COMPRESSION_LEVEL,
    MANIFEST_ENTRY, MANIFEST_MODE,
};

fn reference_sanitize(name: &str) -> String {
    name.replace(" ", "-")
        .replace(|c: char| !c.is_alphanumeric() && c != '-' && c != '_', "")
        .to_lowercase()
}

#[test]
fn pack_names_are_sanitized() {
    assert_eq!(sanitize_name("My Theme"), "my-theme");
    assert_eq!(sanitize_name("Forest_01 (Dark)!"), "forest_01-dark");
    assert_eq!(sanitize_name("../../etc"), "etc");
    assert_eq!(sanitize_name(""), "");
    assert_eq!(sanitize_name("ÀÉ Î"), "àé-î");
    assert_eq!(sanitize_name("a  b"), "a--b");
    for name in ["My Theme", "x/y\\z", "Ünï cödé 9", "tab\there", "ΟΔΟΣ", "a.b.c", "-_-", "日本 語"] {
        assert_eq!(sanitize_name(name), reference_sanitize(name), "{name:?}");
    }
}

#[test]
fn the_manifest_is_told_by_its_file_name() {
    assert!(is_manifest_entry("manifest.toml"));
    assert!(is_manifest_entry("./manifest.toml"));
    assert!(is_manifest_entry("theme/manifest.toml"));
    assert!(!is_manifest_entry("manifest.toml.bak"));
    assert!(!is_manifest_entry("images/a.png"));
    assert!(!is_manifest_entry(""));
    assert!(!is_manifest_entry("Manifest.toml"));
}

#[test]
fn a_pack_is_installed_under_its_manifest_name() {
    let entries = vec!["manifest.toml".to_string(), "images/a.png".to_string()];
    let plan = install_pack(
        "/downloads/Forest Pack.wallman",
        "/data/packs/themes",
        &ManifestReading::Read(Some("Deep Forest!".to_string())),
        &entries,
    )
    .unwrap();
    assert_eq!(plan.dest_dir, "/data/packs/themes/deep-forest");
    assert!(plan.unpack.is_ok());
}

#[test]
fn a_pack_without_a_name_is_installed_under_its_file_name() {
    let entries = vec!["images/a.png".to_string()];
    for manifest in [ManifestReading::Missing, ManifestReading::Read(None)] {
        let plan = install_pack("/downloads/Forest Pack.wallman", "/themes/", &manifest, &entries).unwrap();
        assert_eq!(plan.dest_dir, "/themes/Forest Pack");
    }
    let plan = install_pack("..", "/themes", &ManifestReading::Missing, &entries).unwrap();
    assert_eq!(plan.dest_dir, "/themes/unknown");
}

#[test]
fn an_invalid_manifest_ends_the_installation() {
    let mut installer = PackInstaller::into_folder("/d/p.wallman", "/themes");
    assert_eq!(installer.pack_name(), "unknown");
    assert_eq!(installer.file_path(), "/d/p.wallman");
    let outcome = installer.install(&ManifestReading::Invalid("bad toml".to_string()), &Vec::new());
    match outcome {
        Err(InstallError::InvalidManifest(message)) => assert_eq!(message, "bad toml"),
        _ => panic!("an invalid manifest is an error"),
    }
    assert_eq!(installer.pack_name(), "p");
}

#[test]
fn an_entry_that_leads_out_of_the_folder_is_not_unpacked() {
    let entries = vec![
        "manifest.toml".to_string(),
        "images/../../escape.png".to_string(),
        "../second".to_string(),
    ];
    let plan = install_pack("/d/p.wallman", "/themes", &ManifestReading::Missing, &entries).unwrap();
    assert_eq!(plan.dest_dir, "/themes/p");
    match plan.unpack {
        Err(InstallError::UnsafePath(path)) => assert_eq!(path, "images/../../escape.png"),
        _ => panic!("the pack must not be unpacked"),
    }
    let installer = PackInstaller::into_folder("/d/p.wallman", "/themes");
    assert!(installer.unpack_archive(&vec!["a/b".to_string(), "c..d".to_string()]).is_ok());
    assert!(installer.unpack_archive(&Vec::new()).is_ok());
}

#[test]
fn the_installer_settles_name_and_folder_step_by_step() {
    let mut installer = PackInstaller::into_folder("/d/Nice.wallman", "/themes");
    assert!(installer.read_manifest(&ManifestReading::Read(Some("A B".to_string()))).is_ok());
    assert_eq!(installer.pack_name(), "a-b");
    assert_eq!(installer.create_dest_dir(), "/themes/a-b");
    if let Some(installer) = PackInstaller::new("/d/x.wallman") {
        assert_eq!(installer.pack_name(), "unknown");
        assert_eq!(installer.file_path(), "/d/x.wallman");
    }
}

#[test]
fn a_theme_folder_is_checked_before_it_is_packed() {
    let packager = Packager::new(Config::default(), "/themes/forest");
    assert_eq!(packager.images_dir(), "/themes/forest/images");
    assert_eq!(packager.config().name, Some("wallman".to_string()));
    let facts = |a, b, c, d| SourceFacts { path_exists: a, path_is_dir: b, images_exists: c, images_is_dir: d };
    assert_eq!(packager.check_source(&facts(true, true, true, true)), Ok(()));
    assert_eq!(packager.check_source(&facts(false, true, true, true)), Err(SourceFault::PathMissing));
    assert_eq!(packager.check_source(&facts(false, false, false, false)), Err(SourceFault::PathMissing));
    assert_eq!(packager.check_source(&facts(true, false, false, false)), Err(SourceFault::PathNotDir));
    assert_eq!(packager.check_source(&facts(true, true, false, false)), Err(SourceFault::ImagesMissing));
    assert_eq!(packager.check_source(&facts(true, true, true, false)), Err(SourceFault::ImagesNotDir));
    assert_eq!(packager.fault_text(SourceFault::PathMissing), "Path does not exist: /themes/forest");
    assert_eq!(packager.fault_text(SourceFault::PathNotDir), "Path is not a directory: /themes/forest");
    assert_eq!(packager.fault_text(SourceFault::ImagesMissing), "Images directory does not exist: /themes/forest/images");
    assert_eq!(packager.fault_text(SourceFault::ImagesNotDir), "Images path is not a directory: /themes/forest/images");
}

#[test]
fn pack_entries_and_files_have_their_names() {
    assert_eq!(MANIFEST_ENTRY, "manifest.toml");
    assert_eq!(MANIFEST_MODE, 0o644);
    assert_eq!(COMPRESSION_LEVEL, 3);
    assert_eq!(Packager::image_entry("a b.png"), "images/a b.png");
    assert_eq!(default_pack_file(Some("Deep Forest")), "Deep-Forest.wallman");
    assert_eq!(default_pack_file(Some("a  b")), "a--b.wallman");
    assert_eq!(default_pack_file(Some("")), ".wallman");
    assert_eq!(default_pack_file(None), "theme.wallman");
    assert_eq!(theme_name_for("/themes/forest"), "forest");
    assert_eq!(theme_name_for("/themes/forest/"), "forest");
    assert_eq!(theme_name_for("forest"), "forest");
    assert_eq!(theme_name_for("/"), "my-theme");
    assert_eq!(theme_name_for(".."), "my-theme");
}

#[test]
fn characters_are_kept_where_they_are_said_to_stay() {
    let text = vec!['a', '-', '!', 'b'];
    assert_eq!(keep_chars(&text, &vec![true, true, false, true]), vec!['a', '-', 'b']);
    assert_eq!(keep_chars(&text, &vec![false, false, false, false]), Vec::<char>::new());
    assert_eq!(keep_chars(&text, &vec![true, true]), Vec::<char>::new());
    assert_eq!(keep_chars(&Vec::new(), &Vec::new()), Vec::<char>::new());
}

#[test]
fn install_errors_are_put_in_words() {
    assert_eq!(
        InstallError::InvalidManifest("bad".to_string()).message(),
        format!("Failed to parse manifest.toml: {}", "bad")
    );
    assert_eq!(
        InstallError::UnsafePath("../x".to_string()).message(),
        format!("Unsafe path detected: {}", "../x")
    );
}

#[test]
fn an_installer_needs_a_themes_folder() {
    assert!(PackInstaller::for_themes_folder("/d/p.wallman", &None).is_none());
    let mut installer =
        PackInstaller::for_themes_folder("/d/p.wallman", &Some("/themes".to_string())).unwrap();
    assert_eq!(installer.file_path(), "/d/p.wallman");
    assert_eq!(installer.pack_name(), "unknown");
    assert_eq!(installer.create_dest_dir(), "/themes/unknown");
    assert_eq!(
        PackInstaller::new("/d/p.wallman").is_some(),
        wallman::constants::decompresion_folder().is_some()
    );
}
