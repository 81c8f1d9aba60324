use ptx_builder::builder::{CrateType as ChosenCrateType, Profile};
use ptx_builder::error::BuildErrorKind;
use ptx_builder::manifest::{read_manifest, Manifest};
use ptx_builder::source::{Crate, CrateType, ManifestFile, NOTHING_TO_BUILD, NO_NAME};
use std::collections::hash_map::DefaultHasher;
use std::hash::Hasher;
use std::path::Path;

const SAMPLE_MANIFEST: &str = "[package]\nname = \"sample-ptx_crate\"\nversion = \"0.1.0\"\nedition = \"2018\"\n\n[dependencies]\n";

const APP_MANIFEST: &str = "[package]\nname = \"sample-app-ptx_crate\"\nversion = \"0.1.0\"\nedition = \"2018\"\n\n[dependencies]\n";

const MIXED_MANIFEST: &str = "[package]\nname = \"mixed-crate\"\nversion = \"0.1.0\"\nedition = \"2018\"\n\n[dependencies]\n";

fn contents(text: &str) -> ManifestFile {
    ManifestFile::Contents(String::from(text))
}

fn sample_crate() -> Crate {
    Crate::analyse("/work/tests/fixtures/sample-crate", &contents(SAMPLE_MANIFEST), true, false)
        .unwrap()
}

fn app_crate() -> Crate {
    Crate::analyse("/work/tests/fixtures/app-crate", &contents(APP_MANIFEST), false, true).unwrap()
}

fn mixed_crate() -> Crate {
    Crate::analyse("/work/tests/fixtures/mixed-crate", &contents(MIXED_MANIFEST), true, true)
        .unwrap()
}

fn named(name: &str) -> Manifest {
    Manifest { name: Some(String::from(name)), has_lib_section: false, has_bin_section: false }
}

#[test]
fn should_find_crate_names() {
    let source = sample_crate();

    assert_eq!(source.get_output_file_prefix(), "sample_ptx_crate");
}

#[test]
fn should_find_app_crate_names() {
    let source = app_crate();

    assert_eq!(source.get_output_file_prefix(), "sample_app_ptx_crate");
}

#[test]
fn should_find_mixed_crate_names() {
    let source = mixed_crate();

    assert_eq!(source.get_output_file_prefix(), "mixed_crate");
}

#[test]
fn should_check_existence_of_crate_path() {
    let result = Crate::analyse(
        "/work/tests/fixtures/non-existing-crate",
        &ManifestFile::Missing,
        false,
        false,
    );

    match result.unwrap_err() {
        BuildErrorKind::InvalidCratePath(path) => {
            assert!(Path::new(&path).ends_with("tests/fixtures/non-existing-crate"));
        }

        _ => unreachable!("it should fail with proper error"),
    }
}

#[test]
fn should_check_validity_of_crate_path() {
    let result = Crate::analyse("/work/tests/builder.rs", &ManifestFile::Missing, false, false);

    match result.unwrap_err() {
        BuildErrorKind::InvalidCratePath(path) => {
            assert!(Path::new(&path).ends_with("tests/builder.rs"));
        }

        _ => unreachable!("it should fail with proper error"),
    }
}

#[test]
fn source_should_provide_output_path() {
    let source_crate = sample_crate();

    assert!(Path::new(&source_crate.get_output_path(
        "/tmp/out",
        ChosenCrateType::Library,
        Profile::Release
    ))
    .starts_with(Path::new("/tmp/out").join("sample_ptx_crate")));
}

#[test]
fn analyse_keeps_name_path_and_kind() {
    let source = sample_crate();
    assert_eq!(source.get_name(), "sample-ptx_crate");
    assert_eq!(source.get_path(), "/work/tests/fixtures/sample-crate");
    assert_eq!(source.get_kind(), CrateType::Library);
    assert_eq!(app_crate().get_kind(), CrateType::Binary);
    assert_eq!(mixed_crate().get_kind(), CrateType::Mixed);

    let copy = source.clone();
    assert_eq!(copy.get_name(), source.get_name());
    assert_eq!(copy.get_path(), source.get_path());
    assert_eq!(copy.get_output_file_prefix(), source.get_output_file_prefix());
    assert_eq!(copy.get_kind(), source.get_kind());
}

#[test]
fn analyse_is_repeatable() {
    let first = sample_crate();
    let second = sample_crate();
    assert_eq!(first.get_name(), second.get_name());
    assert_eq!(first.get_path(), second.get_path());
    assert_eq!(first.get_output_file_prefix(), second.get_output_file_prefix());
    assert_eq!(first.get_kind(), second.get_kind());
}

#[test]
fn analyse_rejects_a_directory_in_place_of_the_manifest() {
    let result = Crate::analyse("/work/odd", &ManifestFile::Directory, true, true);
    assert_eq!(result.unwrap_err(), BuildErrorKind::InvalidCratePath(String::from("/work/odd")));
}

#[test]
fn analyse_reports_a_manifest_that_cannot_be_read() {
    let result = Crate::analyse("/work/odd", &ManifestFile::Unreadable, true, false);
    assert_eq!(result.unwrap_err(), BuildErrorKind::OtherError);
}

#[test]
fn analyse_reports_a_manifest_that_is_not_toml() {
    let result = Crate::analyse("/work/odd", &contents("[package\nname = "), true, false);
    assert_eq!(result.unwrap_err(), BuildErrorKind::OtherError);
}

#[test]
fn analyse_needs_a_name() {
    let no_package = Crate::analyse("/w", &contents("[lib]\nname = \"x\"\n"), true, false);
    assert_eq!(no_package.unwrap_err(), BuildErrorKind::InternalError(String::from(NO_NAME)));

    let no_name = Crate::analyse("/w", &contents("[package]\nversion = \"1.0.0\"\n"), true, false);
    assert_eq!(no_name.unwrap_err(), BuildErrorKind::InternalError(String::from(NO_NAME)));

    let number = Crate::analyse("/w", &contents("[package]\nname = 7\n"), true, false);
    assert_eq!(number.unwrap_err(), BuildErrorKind::InternalError(String::from(NO_NAME)));

    let no_table = Crate::analyse("/w", &contents("package = \"name\"\n"), true, false);
    assert_eq!(
        no_table.unwrap_err(),
        BuildErrorKind::InternalError(String::from("Cannot get crate name"))
    );
}

#[test]
fn analyse_needs_something_to_build() {
    let result = Crate::analyse("/w", &contents(SAMPLE_MANIFEST), false, false);
    assert_eq!(
        result.unwrap_err(),
        BuildErrorKind::InternalError(String::from(NOTHING_TO_BUILD))
    );
    assert_eq!(
        NOTHING_TO_BUILD,
        "Unable to find neither `src/lib.rs` nor `src/main.rs` nor a [lib] nor [[bin]] section in `Cargo.toml`"
    );
}

#[test]
fn analyse_reads_the_sections_of_the_manifest() {
    let library = "[package]\nname = \"k\"\n\n[lib]\npath = \"kernel.rs\"\n";
    let binary = "[package]\nname = \"k\"\n\n[[bin]]\nname = \"k\"\npath = \"kernel.rs\"\n";
    let both = "[package]\nname = \"k\"\n\n[lib]\npath = \"a.rs\"\n\n[[bin]]\nname = \"k\"\n";

    let kind = |text: &str, lib: bool, main: bool| {
        Crate::analyse("/w", &contents(text), lib, main).unwrap().get_kind()
    };

    assert_eq!(kind(library, false, false), CrateType::Library);
    assert_eq!(kind(binary, false, false), CrateType::Binary);
    assert_eq!(kind(both, false, false), CrateType::Mixed);
    assert_eq!(kind(library, false, true), CrateType::Mixed);
    assert_eq!(kind(binary, true, false), CrateType::Mixed);
    assert_eq!(kind(library, true, false), CrateType::Library);
}

#[test]
fn read_manifest_reads_name_and_sections() {
    assert_eq!(read_manifest(SAMPLE_MANIFEST), Some(named("sample-ptx_crate")));
    assert_eq!(
        read_manifest("[lib]\n[package]\nname = \"n\"\n"),
        Some(Manifest { name: Some(String::from("n")), has_lib_section: true, has_bin_section: false })
    );
    assert_eq!(
        read_manifest("bin = 1\n"),
        Some(Manifest { name: None, has_lib_section: false, has_bin_section: true })
    );
    assert_eq!(
        read_manifest(""),
        Some(Manifest { name: None, has_lib_section: false, has_bin_section: false })
    );
    assert_eq!(read_manifest("= nothing"), None);
}

#[test]
fn from_manifest_decides_the_kind() {
    let make = |lib: bool, main: bool| Crate::from_manifest("/w", &named("a-b-c"), lib, main);

    assert_eq!(make(true, false).unwrap().get_kind(), CrateType::Library);
    assert_eq!(make(false, true).unwrap().get_kind(), CrateType::Binary);
    assert_eq!(make(true, true).unwrap().get_kind(), CrateType::Mixed);
    assert_eq!(
        make(false, false).unwrap_err(),
        BuildErrorKind::InternalError(String::from(NOTHING_TO_BUILD))
    );
    assert_eq!(make(true, false).unwrap().get_output_file_prefix(), "a_b_c");
    assert_eq!(make(true, false).unwrap().get_name(), "a-b-c");
    assert_eq!(make(true, false).unwrap().get_path(), "/w");

    let nameless = Manifest { name: None, has_lib_section: true, has_bin_section: true };
    assert_eq!(
        Crate::from_manifest("/w", &nameless, true, true).unwrap_err(),
        BuildErrorKind::InternalError(String::from(NO_NAME))
    );
}

#[test]
fn crate_type_of_a_library() {
    let source = sample_crate();
    assert_eq!(source.get_crate_type(None), Ok(ChosenCrateType::Library));
    assert_eq!(
        source.get_crate_type(Some(ChosenCrateType::Library)),
        Ok(ChosenCrateType::Library)
    );
    assert_eq!(
        source.get_crate_type(Some(ChosenCrateType::Binary)),
        Err(BuildErrorKind::InvalidCrateType(String::from("Binary")))
    );
}

#[test]
fn crate_type_of_a_binary() {
    let source = app_crate();
    assert_eq!(source.get_crate_type(None), Ok(ChosenCrateType::Binary));
    assert_eq!(source.get_crate_type(Some(ChosenCrateType::Binary)), Ok(ChosenCrateType::Binary));
    assert_eq!(
        source.get_crate_type(Some(ChosenCrateType::Library)),
        Err(BuildErrorKind::InvalidCrateType(String::from("Library")))
    );
}

#[test]
fn crate_type_of_a_mixed_crate() {
    let source = mixed_crate();
    assert_eq!(source.get_crate_type(None), Err(BuildErrorKind::MissingCrateType));
    assert_eq!(
        source.get_crate_type(Some(ChosenCrateType::Library)),
        Ok(ChosenCrateType::Library)
    );
    assert_eq!(source.get_crate_type(Some(ChosenCrateType::Binary)), Ok(ChosenCrateType::Binary));

    let library = source.get_output_path("/out", ChosenCrateType::Library, Profile::Release);
    let binary = source.get_output_path("/out", ChosenCrateType::Binary, Profile::Release);
    assert_ne!(library, binary);
}

#[test]
fn cache_key_spells_out_the_build() {
    let source = Crate::from_manifest("/x", &named("a-b"), true, false).unwrap();
    assert_eq!(source.get_cache_key(ChosenCrateType::Library, Profile::Release), "Llr3:a-b2:/xa_b");
    assert_eq!(source.get_cache_key(ChosenCrateType::Binary, Profile::Debug), "Lbd3:a-b2:/xa_b");

    let long = Crate::from_manifest("/0123456789/abcdef", &named("mixed-crate-name-x"), true, true)
        .unwrap();
    assert_eq!(
        long.get_cache_key(ChosenCrateType::Binary, Profile::Release),
        "Mbr12:mixed-crate-name-x12:/0123456789/abcdefmixed_crate_name_x"
    );

    let binary = Crate::from_manifest("", &named(""), false, true).unwrap();
    assert_eq!(binary.get_cache_key(ChosenCrateType::Binary, Profile::Debug), "Bbd0:0:");
}

#[test]
fn hash_is_the_default_hash_of_the_key() {
    let source = sample_crate();
    let key = source.get_cache_key(ChosenCrateType::Library, Profile::Release);
    let mut hasher = DefaultHasher::new();
    hasher.write(key.as_bytes());
    assert_eq!(source.get_hash(ChosenCrateType::Library, Profile::Release), hasher.finish());
}

#[test]
fn output_path_is_root_prefix_and_hash() {
    let source = sample_crate();
    let hash = source.get_hash(ChosenCrateType::Library, Profile::Debug);
    assert_eq!(
        source.get_output_path("/tmp/out", ChosenCrateType::Library, Profile::Debug),
        format!("/tmp/out/sample_ptx_crate/{:x}", hash)
    );
}

#[test]
fn output_path_is_the_same_for_the_same_build() {
    let first = sample_crate().get_output_path("/out", ChosenCrateType::Library, Profile::Release);
    let second = sample_crate().get_output_path("/out", ChosenCrateType::Library, Profile::Release);
    assert_eq!(first, second);
}

#[test]
fn output_path_changes_with_the_configuration() {
    let source = mixed_crate();
    let paths = vec![
        source.get_output_path("/out", ChosenCrateType::Library, Profile::Release),
        source.get_output_path("/out", ChosenCrateType::Library, Profile::Debug),
        source.get_output_path("/out", ChosenCrateType::Binary, Profile::Release),
        source.get_output_path("/out", ChosenCrateType::Binary, Profile::Debug),
    ];
    for i in 0..paths.len() {
        for j in 0..i {
            assert_ne!(paths[i], paths[j]);
        }
    }
}

#[test]
fn output_path_changes_with_the_crate() {
    let here = Crate::from_manifest("/here", &named("kernel"), true, false).unwrap();
    let there = Crate::from_manifest("/there", &named("kernel"), true, false).unwrap();
    assert_ne!(
        here.get_output_path("/out", ChosenCrateType::Library, Profile::Release),
        there.get_output_path("/out", ChosenCrateType::Library, Profile::Release)
    );
}
