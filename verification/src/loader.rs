use vstd::prelude::*;

use crate::extension::{Extension, ExtensionInfo};

verus! {

/// The platforms whose shared-library conventions the loader knows.  Any
/// other platform is unsupported and makes the host fail hard at startup.
#[derive(Clone, Copy, PartialEq, Eq, Structural, Debug)]
pub enum HostPlatform {
    Windows,
    Linux,
}

/// Why a candidate library file did not become an extension.
#[derive(Clone, Copy, PartialEq, Eq, Structural, Debug)]
pub enum LoadError {
    /// The library file could not be opened.
    CannotOpen,
    /// The info-version symbol was missing from the library.
    MissingInfoVersionSymbol,
    /// The extension-info symbol was missing from the library.
    MissingInfoSymbol,
    /// The info-version symbol reported this version, which is not the one
    /// the host expects; no further symbol was read.
    IncompatibleInfoVersion(usize),
    /// The extension info declared this probe-protocol version, which is
    /// not the one the host implements.
    IncompatibleProbeVersion(usize),
}

/// What the embedder read from one candidate library it managed to open:
/// the file name (final path component), the value of the info-version
/// symbol, and the extension-info record.
pub struct ExtensionCandidate {
    pub filename: String,
    pub info_version: usize,
    pub info: ExtensionInfo,
}

/// Relies on `target_lexicon::HOST.operating_system` to identify the
/// operating system this binary was compiled for; everything but Windows
/// and Linux is reported as unsupported.
#[verifier::external_body]
fn detect_host_platform() -> (r: Option<HostPlatform>) {
    match target_lexicon::HOST.operating_system {
        target_lexicon::OperatingSystem::Windows => Some(HostPlatform::Windows),
        target_lexicon::OperatingSystem::Linux => Some(HostPlatform::Linux),
        _ => None,
    }
}

/// The platform this binary was built for, or `None` when it is not one the
/// loader supports.  Every other operation takes the platform as an
/// explicit value, so this is the one place the build target is consulted.
pub fn host_platform() -> (r: Option<HostPlatform>) {
    detect_host_platform()
}

/// The shared-library file-name suffix of a platform.
pub open spec fn spec_library_extension(platform: HostPlatform) -> Seq<char> {
    match platform {
        HostPlatform::Windows => seq!['d', 'l', 'l'],
        HostPlatform::Linux => seq!['s', 'o'],
    }
}

/// The library file-name prefix of a platform: `lib` on Linux, nothing on
/// Windows.
pub open spec fn spec_library_prefix(platform: HostPlatform) -> Seq<char> {
    match platform {
        HostPlatform::Windows => Seq::empty(),
        HostPlatform::Linux => seq!['l', 'i', 'b'],
    }
}

/// Index of the last `.` in a file name, if any.
pub open spec fn spec_last_dot(name: Seq<char>) -> Option<int>
    decreases name.len(),
{
    if name.len() == 0 {
        None
    } else if name[name.len() - 1] == '.' {
        Some(name.len() - 1)
    } else {
        spec_last_dot(name.drop_last())
    }
}

/// The stem of a file name: everything before the last `.`, or the whole
/// name when there is no `.` past the first position.
pub open spec fn spec_file_stem(name: Seq<char>) -> Seq<char> {
    match spec_last_dot(name) {
        Some(i) => if i > 0 {
            name.take(i)
        } else {
            name
        },
        None => name,
    }
}

/// The extension of a file name: everything after the last `.`, provided
/// that dot is not the leading character.
pub open spec fn spec_file_extension(name: Seq<char>) -> Option<Seq<char>> {
    match spec_last_dot(name) {
        Some(i) => if i > 0 {
            Some(name.skip(i + 1))
        } else {
            None
        },
        None => None,
    }
}

/// The display name derived from a library file name: the platform's
/// library prefix stripped from the file stem, with no other normalization.
pub open spec fn spec_library_name(filename: Seq<char>, platform: HostPlatform) -> Seq<char> {
    spec_file_stem(filename).skip(spec_library_prefix(platform).len() as int)
}

fn find_last_dot(name: &str) -> (r: Option<usize>)
    ensures
        r is Some <==> spec_last_dot(name@) is Some,
        r matches Some(i) ==> spec_last_dot(name@) == Some(i as int) && i < name@.len(),
{
    let n: usize = name.unicode_len();
    let mut i: usize = n;
    proof {
        assert(name@.take(n as int) =~= name@);
    }
    while i > 0
        invariant
            i <= n,
            n == name@.len(),
            spec_last_dot(name@) == spec_last_dot(name@.take(i as int)),
        decreases i,
    {
        let c = name.get_char(i - 1);
        if c == '.' {
            proof {
                assert(name@.take(i as int).len() == i);
                assert(name@.take(i as int)[i - 1] == '.');
            }
            return Some(i - 1);
        }
        proof {
            assert(name@.take(i as int)[i - 1] != '.');
            assert(name@.take(i as int).drop_last() =~= name@.take(i as int - 1));
        }
        i = i - 1;
    }
    proof {
        assert(name@.take(0).len() == 0);
    }
    None
}

/// The stem of a file name, as `spec_file_stem` defines it.
pub fn file_stem<'a>(name: &'a str) -> (r: &'a str)
    ensures
        r@ == spec_file_stem(name@),
{
    match find_last_dot(name) {
        Some(i) if i > 0 => {
            let r = name.substring_char(0, i);
            proof {
                assert(r@ =~= name@.take(i as int));
            }
            r
        },
        _ => name,
    }
}

/// The extension of a file name, as `spec_file_extension` defines it.
pub fn file_extension<'a>(name: &'a str) -> (r: Option<&'a str>)
    ensures
        r is Some <==> spec_file_extension(name@) is Some,
        r matches Some(e) ==> spec_file_extension(name@) == Some(e@),
{
    let n: usize = name.unicode_len();
    match find_last_dot(name) {
        Some(i) if i > 0 => {
            let r = name.substring_char(i + 1, n);
            proof {
                assert(r@ =~= name@.skip(i + 1));
            }
            Some(r)
        },
        _ => None,
    }
}

/// The display name of a library file stem: `compute_library_name` strips
/// the platform's library prefix, and nothing else.  The stem must be at
/// least as long as the prefix; the loader only ever derives names from
/// stems it has checked.
pub fn compute_library_name(filename_stem: &str, platform: HostPlatform) -> (r: String)
    requires
        filename_stem@.len() >= spec_library_prefix(platform).len(),
    ensures
        r@ == filename_stem@.skip(spec_library_prefix(platform).len() as int),
{
    let prefix_len: usize = match platform {
        HostPlatform::Windows => 0,
        HostPlatform::Linux => 3,
    };
    let n: usize = filename_stem.unicode_len();
    let rest = filename_stem.substring_char(prefix_len, n);
    proof {
        assert(rest@ =~= filename_stem@.skip(prefix_len as int));
    }
    rest.to_owned()
}

/// Whether a directory entry names a shared library of the platform.
pub open spec fn spec_is_library_file(name: Seq<char>, platform: HostPlatform) -> bool {
    spec_file_extension(name) == Some(spec_library_extension(platform))
}

/// The entries of a directory listing that name shared libraries of the
/// platform, in their original order.
pub open spec fn spec_library_files(entries: Seq<String>, platform: HostPlatform) -> Seq<String>
    decreases entries.len(),
{
    if entries.len() == 0 {
        Seq::empty()
    } else {
        let rest = spec_library_files(entries.drop_last(), platform);
        if spec_is_library_file(entries.last()@, platform) {
            rest.push(entries.last())
        } else {
            rest
        }
    }
}

/// Keep the directory entries whose file extension matches the platform's
/// shared-library suffix.  A listing with no matches is a valid, empty
/// result, never an error.
pub fn find_extensions(entries: &Vec<String>, platform: HostPlatform) -> (r: Vec<String>)
    ensures
        r@ == spec_library_files(entries@, platform),
        entries@.len() == 0 ==> r@.len() == 0,
{
    let suffix: &'static str = Extension::library_extension_for_platform(platform);
    let mut out: Vec<String> = Vec::new();
    let mut i: usize = 0;
    while i < entries.len()
        invariant
            i <= entries@.len(),
            suffix@ == spec_library_extension(platform),
            out@ == spec_library_files(entries@.take(i as int), platform),
        decreases entries@.len() - i,
    {
        let entry: &String = &entries[i];
        let is_match: bool = match file_extension(entry.as_str()) {
            Some(ext) => {
                let ext_string: String = ext.to_owned();
                let suffix_string: String = suffix.to_owned();
                ext_string == suffix_string
            },
            None => false,
        };
        if is_match {
            out.push(entry.clone());
        }
        proof {
            assert(entries@.take(i + 1).drop_last() =~= entries@.take(i as int));
            assert(entries@.take(i + 1).last() == entries@[i as int]);
        }
        i = i + 1;
    }
    proof {
        assert(entries@.take(entries@.len() as int) =~= entries@);
    }
    out
}

/// What loading one opened candidate must produce: the info version is
/// checked first, then the declared probe-protocol version, and only when
/// both match does a handle exist, carrying the derived display name, the
/// info record, and no negotiated callbacks yet.
pub open spec fn spec_load_outcome(
    filename: Seq<char>,
    info_version: usize,
    info: ExtensionInfo,
    platform: HostPlatform,
    out: Result<Extension, LoadError>,
) -> bool {
    if info_version != crate::extension::EXTENSION_INFO_VERSION {
        out == Err::<Extension, LoadError>(LoadError::IncompatibleInfoVersion(info_version))
    } else if info.probe_api_version != crate::probe_api::API_VERSION {
        out == Err::<Extension, LoadError>(
            LoadError::IncompatibleProbeVersion(info.probe_api_version),
        )
    } else {
        out matches Ok(ext) && ext.name@ == spec_library_name(filename, platform)
            && ext.extension_info == info && ext.api_callbacks.dummy_api_callbacks is None
    }
}

/// Validate every candidate in order.  Each result stands on its own: one
/// incompatible file never prevents the others from loading, and a failure
/// the embedder met before the symbols could be read is passed through
/// unchanged.
pub fn load_extensions(
    candidates: &Vec<Result<ExtensionCandidate, LoadError>>,
    platform: HostPlatform,
) -> (r: Vec<Result<Extension, LoadError>>)
    requires
        forall|j: int|
            #![trigger candidates@[j]]
            0 <= j < candidates@.len() && candidates@[j] is Ok ==> spec_file_stem(
                candidates@[j]->Ok_0.filename@,
            ).len() >= spec_library_prefix(platform).len(),
    ensures
        r@.len() == candidates@.len(),
        forall|j: int|
            #![trigger r@[j]]
            0 <= j < candidates@.len() ==> match candidates@[j] {
                Ok(c) => spec_load_outcome(c.filename@, c.info_version, c.info, platform, r@[j]),
                Err(e) => r@[j] == Err::<Extension, LoadError>(e),
            },
{
    let mut out: Vec<Result<Extension, LoadError>> = Vec::new();
    let mut i: usize = 0;
    while i < candidates.len()
        invariant
            i <= candidates@.len(),
            out@.len() == i,
            forall|j: int|
                #![trigger candidates@[j]]
                0 <= j < candidates@.len() && candidates@[j] is Ok ==> spec_file_stem(
                    candidates@[j]->Ok_0.filename@,
                ).len() >= spec_library_prefix(platform).len(),
            forall|j: int|
                #![trigger out@[j]]
                0 <= j < i ==> match candidates@[j] {
                    Ok(c) => spec_load_outcome(
                        c.filename@,
                        c.info_version,
                        c.info,
                        platform,
                        out@[j],
                    ),
                    Err(e) => out@[j] == Err::<Extension, LoadError>(e),
                },
        decreases candidates@.len() - i,
    {
        match &candidates[i] {
            Ok(c) => {
                let loaded = Extension::load(
                    c.filename.as_str(),
                    c.info_version,
                    c.info,
                    platform,
                );
                out.push(loaded);
            },
            Err(e) => {
                out.push(Err(*e));
            },
        }
        i = i + 1;
    }
    out
}

} // verus!
