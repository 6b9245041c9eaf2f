use bspsuite::extension::{Extension, ExtensionInfo, EXTENSION_INFO_VERSION};
use bspsuite::loader::{
    compute_library_name, file_extension, file_stem, find_extensions, load_extensions,
    ExtensionCandidate, HostPlatform, LoadError,
};

fn info(probe_api_version: usize) -> ExtensionInfo {
    ExtensionInfo { probe_api_version, probe_fn: 0x1000 }
}

#[test]
fn info_version_constant() {
    assert_eq!(EXTENSION_INFO_VERSION, 1);
}

#[test]
fn stem_and_extension_of_common_names() {
    assert_eq!(file_stem("libfoo.so"), "libfoo");
    assert_eq!(file_extension("libfoo.so"), Some("so"));
    assert_eq!(file_stem("foo.dll"), "foo");
    assert_eq!(file_extension("foo.dll"), Some("dll"));
    assert_eq!(file_stem("archive.tar.so"), "archive.tar");
    assert_eq!(file_extension("archive.tar.so"), Some("so"));
    assert_eq!(file_stem("noext"), "noext");
    assert_eq!(file_extension("noext"), None);
    assert_eq!(file_stem(".hidden"), ".hidden");
    assert_eq!(file_extension(".hidden"), None);
    assert_eq!(file_stem(""), "");
    assert_eq!(file_extension(""), None);
}

#[test]
fn name_derivation_strips_platform_prefix() {
    assert_eq!(compute_library_name("libfoo", HostPlatform::Linux), "foo");
    assert_eq!(compute_library_name("foo", HostPlatform::Windows), "foo");
    assert_eq!(compute_library_name("libgoldsrc_ext", HostPlatform::Linux), "goldsrc_ext");
    assert_eq!(compute_library_name("lib", HostPlatform::Linux), "");
}

#[test]
fn platform_suffix_and_prefix() {
    assert_eq!(Extension::library_extension_for_platform(HostPlatform::Linux), "so");
    assert_eq!(Extension::library_extension_for_platform(HostPlatform::Windows), "dll");
    assert_eq!(Extension::library_prefix_for_platform(HostPlatform::Linux), "lib");
    assert_eq!(Extension::library_prefix_for_platform(HostPlatform::Windows), "");
}

#[test]
fn discovery_keeps_matching_suffixes_in_order() {
    let entries = vec![
        String::from("libone_ext.so"),
        String::from("notes.txt"),
        String::from("libtwo_ext.so"),
        String::from("libdll_like.dll"),
        String::from("plain"),
    ];
    let found = find_extensions(&entries, HostPlatform::Linux);
    assert_eq!(found, vec![String::from("libone_ext.so"), String::from("libtwo_ext.so")]);
    let found_windows = find_extensions(&entries, HostPlatform::Windows);
    assert_eq!(found_windows, vec![String::from("libdll_like.dll")]);
}

#[test]
fn discovery_of_empty_listing_is_empty_not_an_error() {
    let entries: Vec<String> = Vec::new();
    let found = find_extensions(&entries, HostPlatform::Linux);
    assert!(found.is_empty());
}

#[test]
fn load_rejects_wrong_info_version_before_anything_else() {
    let loaded = Extension::load("libdemo_ext.so", 2, info(1), HostPlatform::Linux);
    assert!(matches!(loaded, Err(LoadError::IncompatibleInfoVersion(2))));
}

#[test]
fn load_rejects_wrong_probe_version() {
    let loaded = Extension::load("libdemo_ext.so", 1, info(7), HostPlatform::Linux);
    assert!(matches!(loaded, Err(LoadError::IncompatibleProbeVersion(7))));
}

#[test]
fn load_names_extension_after_file() {
    let loaded = Extension::load("libdemo_ext.so", 1, info(1), HostPlatform::Linux).unwrap();
    assert_eq!(loaded.get_name(), "demo_ext");
    assert_eq!(loaded.extension_info, info(1));
    assert!(loaded.api_callbacks.dummy_api_callbacks.is_none());
    let windows = Extension::load("demo_ext.dll", 1, info(1), HostPlatform::Windows).unwrap();
    assert_eq!(windows.get_name(), "demo_ext");
}

#[test]
fn batch_load_keeps_failures_independent() {
    let candidates = vec![
        Ok(ExtensionCandidate {
            filename: String::from("libgood_ext.so"),
            info_version: 1,
            info: info(1),
        }),
        Ok(ExtensionCandidate {
            filename: String::from("libstale_ext.so"),
            info_version: 3,
            info: info(1),
        }),
        Err(LoadError::CannotOpen),
        Err(LoadError::MissingInfoVersionSymbol),
        Err(LoadError::MissingInfoSymbol),
        Ok(ExtensionCandidate {
            filename: String::from("libother_ext.so"),
            info_version: 1,
            info: info(1),
        }),
    ];
    let results = load_extensions(&candidates, HostPlatform::Linux);
    assert_eq!(results.len(), 6);
    assert_eq!(results[0].as_ref().unwrap().get_name(), "good_ext");
    assert!(matches!(results[1], Err(LoadError::IncompatibleInfoVersion(3))));
    assert!(matches!(results[2], Err(LoadError::CannotOpen)));
    assert!(matches!(results[3], Err(LoadError::MissingInfoVersionSymbol)));
    assert!(matches!(results[4], Err(LoadError::MissingInfoSymbol)));
    assert_eq!(results[5].as_ref().unwrap().get_name(), "other_ext");
}
