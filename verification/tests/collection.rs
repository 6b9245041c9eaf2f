use bspsuite::extension::{Extension, ExtensionInfo};
use bspsuite::extension_list::ExtensionList;
use bspsuite::loader::{load_extensions, ExtensionCandidate, HostPlatform, LoadError};
use bspsuite::probe_api::ProbeResult;

fn candidate(filename: &str, info_version: usize, probe_api_version: usize) -> ExtensionCandidate {
    ExtensionCandidate {
        filename: String::from(filename),
        info_version,
        info: ExtensionInfo { probe_api_version, probe_fn: 0x2000 },
    }
}

fn loaded(filename: &str) -> Extension {
    Extension::load(
        filename,
        1,
        ExtensionInfo { probe_api_version: 1, probe_fn: 0x2000 },
        HostPlatform::Linux,
    )
    .unwrap()
}

#[test]
fn partition_counts_add_up() {
    // Five candidate files; two fail the version checks.
    let candidates = vec![
        Ok(candidate("liba_ext.so", 1, 1)),
        Ok(candidate("libb_ext.so", 9, 1)),
        Ok(candidate("libc_ext.so", 1, 1)),
        Ok(candidate("libd_ext.so", 1, 4)),
        Ok(candidate("libe_ext.so", 1, 1)),
    ];
    let results = load_extensions(&candidates, HostPlatform::Linux);
    let (list, failures) = ExtensionList::new(results);
    assert_eq!(list.extensions.len(), 3);
    assert_eq!(failures.len(), 2);
    assert_eq!(list.extensions.len() + failures.len(), candidates.len());
    assert_eq!(failures[0], LoadError::IncompatibleInfoVersion(9));
    assert_eq!(failures[1], LoadError::IncompatibleProbeVersion(4));
    let names: Vec<&str> = list.extensions.iter().map(|e| e.get_name()).collect();
    assert_eq!(names, vec!["a_ext", "c_ext", "e_ext"]);
}

#[test]
fn empty_directory_gives_empty_active_set_and_no_error() {
    let results = Vec::new();
    let (list, failures) = ExtensionList::new(results);
    assert!(list.extensions.is_empty());
    assert!(failures.is_empty());
}

#[test]
fn probe_failure_excludes_extension_despite_successful_load() {
    let (mut list, failures) = ExtensionList::new(vec![
        Ok(loaded("libfirst_ext.so")),
        Ok(loaded("libsecond_ext.so")),
        Ok(loaded("libthird_ext.so")),
    ]);
    assert!(failures.is_empty());
    let outcomes = vec![ProbeResult::Success, ProbeResult::Failure, ProbeResult::Success];
    list.retain_probed(&outcomes);
    let names: Vec<&str> = list.extensions.iter().map(|e| e.get_name()).collect();
    assert_eq!(names, vec!["first_ext", "third_ext"]);
}

#[test]
fn all_probes_failing_empties_the_list() {
    let (mut list, _) = ExtensionList::new(vec![Ok(loaded("libonly_ext.so"))]);
    list.retain_probed(&vec![ProbeResult::Failure]);
    assert!(list.extensions.is_empty());
}
