use vstd::prelude::*;

use crate::dummy_api::DummyCallbacks;
use crate::loader::{
    compute_library_name, file_stem, spec_file_stem, spec_library_extension, spec_library_name,
    spec_library_prefix, spec_load_outcome, HostPlatform, LoadError,
};
use crate::log_api::LogApi;
use crate::probe_api::{ExportedApis, ProbeApi, ProbeResult, API_VERSION};

verus! {

/// The version of the extension-info record layout this host expects.  It
/// is checked against the library's info-version symbol before the record
/// itself is read, so the record's shape is trusted only after this check
/// passes.
pub const EXTENSION_INFO_VERSION: usize = 1;

/// The extension-info record a library exposes: the probe-protocol version
/// it was built against, and its probe entry point.  Only plain data crosses
/// the boundary, so `probe_fn` is a token standing for the function, which
/// the embedder resolves and invokes.
#[derive(Clone, Copy, PartialEq, Eq, Structural, Debug)]
pub struct ExtensionInfo {
    pub probe_api_version: usize,
    pub probe_fn: usize,
}

/// The callback records one extension has fulfilled during its probe.
pub struct ApiCallbacks {
    pub dummy_api_callbacks: Option<DummyCallbacks>,
}

impl Default for ApiCallbacks {
    fn default() -> (r: Self)
        ensures
            r.dummy_api_callbacks is None,
    {
        Self { dummy_api_callbacks: None }
    }
}

/// A validated extension: its display name, the info record it reported,
/// and whatever callbacks it fulfilled when probed.  The embedder keeps the
/// library resource itself alive for at least as long as this handle, since
/// the tokens in here denote functions inside that library.
pub struct Extension {
    pub name: String,
    pub extension_info: ExtensionInfo,
    pub api_callbacks: ApiCallbacks,
}

impl Extension {
    /// Validate one opened candidate library.  The info version is checked
    /// first; on mismatch nothing further is read.  Then the declared
    /// probe-protocol version is checked.  Only when both match does a
    /// handle come back, named after the file with the platform's library
    /// prefix stripped.
    pub fn load(
        filename: &str,
        info_version: usize,
        info: ExtensionInfo,
        platform: HostPlatform,
    ) -> (r: Result<Extension, LoadError>)
        requires
            spec_file_stem(filename@).len() >= spec_library_prefix(platform).len(),
        ensures
            spec_load_outcome(filename@, info_version, info, platform, r),
    {
        if info_version != EXTENSION_INFO_VERSION {
            return Err(LoadError::IncompatibleInfoVersion(info_version));
        }
        if info.probe_api_version != API_VERSION {
            return Err(LoadError::IncompatibleProbeVersion(info.probe_api_version));
        }
        let stem = file_stem(filename);
        let name = compute_library_name(stem, platform);
        Ok(Extension { name, extension_info: info, api_callbacks: ApiCallbacks::default() })
    }

    pub fn get_name(&self) -> (r: &str)
        ensures
            r@ == self.name@,
    {
        self.name.as_str()
    }

    /// A fresh probe session for this extension: bound to its display name
    /// and to a new registry view in which the logging capability holds the
    /// given value and every consumer slot is empty.
    pub fn begin_probe(&self, log_api: LogApi) -> (r: ProbeApi)
        ensures
            r.extension_name@ == self.name@,
            r.apis.log_api.name@ == "LogApi"@,
            r.apis.log_api.version == 1,
            r.apis.log_api.api == log_api,
            r.apis.dummy_api.name@ == "DummyApi"@,
            r.apis.dummy_api.version == 1,
            r.apis.dummy_api.callbacks is None,
            r.apis.map_parser_api.name@ == "MapParserApi"@,
            r.apis.map_parser_api.version == 1,
            r.apis.map_parser_api.callbacks is None,
    {
        ProbeApi::new(self.get_name(), ExportedApis::new(log_api))
    }

    /// Conclude this extension's probe from the outcome its entry point
    /// reported and the session it negotiated against.  On `Success` the
    /// fulfilled callbacks are kept and the extension is retained; on
    /// `Failure` nothing is kept and the extension is to be excluded from
    /// the active set.
    pub fn probe(&mut self, outcome: ProbeResult, session: ProbeApi) -> (retained: bool)
        ensures
            retained == (outcome is Success),
            outcome is Success ==> final(self).name == old(self).name,
            outcome is Success ==> final(self).extension_info == old(self).extension_info,
            outcome is Success ==> final(self).api_callbacks.dummy_api_callbacks
                == session.apis.dummy_api.callbacks,
            outcome is Failure ==> *final(self) == *old(self),
    {
        match outcome {
            ProbeResult::Success => {
                let apis = session.into_apis();
                self.api_callbacks.dummy_api_callbacks = apis.dummy_api.take_callbacks();
                true
            },
            ProbeResult::Failure => false,
        }
    }

    /// The shared-library file-name suffix of a platform.
    pub fn library_extension_for_platform(platform: HostPlatform) -> (r: &'static str)
        ensures
            r@ == spec_library_extension(platform),
    {
        match platform {
            HostPlatform::Windows => {
                let s = "dll";
                proof {
                    reveal_strlit("dll");
                    assert(s@ =~= spec_library_extension(HostPlatform::Windows));
                }
                s
            },
            HostPlatform::Linux => {
                let s = "so";
                proof {
                    reveal_strlit("so");
                    assert(s@ =~= spec_library_extension(HostPlatform::Linux));
                }
                s
            },
        }
    }

    /// The library file-name prefix of a platform: `lib` on Linux, nothing
    /// on Windows.
    pub fn library_prefix_for_platform(platform: HostPlatform) -> (r: &'static str)
        ensures
            r@ == spec_library_prefix(platform),
    {
        match platform {
            HostPlatform::Windows => {
                let s = "";
                proof {
                    reveal_strlit("");
                    assert(s@ =~= spec_library_prefix(HostPlatform::Windows));
                }
                s
            },
            HostPlatform::Linux => {
                let s = "lib";
                proof {
                    reveal_strlit("lib");
                    assert(s@ =~= spec_library_prefix(HostPlatform::Linux));
                }
                s
            },
        }
    }
}

} // verus!
