use vstd::prelude::*;

use crate::api_info::ApiInfo;
use crate::dummy_api::DummyCallbacks;
use crate::log_api::LogApi;
use crate::map_parser_api::MapParserCallbacks;

verus! {

/// Version of the probe protocol this host implements.  An extension built
/// against any other version is refused at load time.
pub const API_VERSION: usize = 1;

/// Failure of one capability request, as reported to the extension.
#[derive(Clone, Copy, PartialEq, Eq, Structural, Debug)]
pub enum RequestError {
    /// The requested version did not match the version of the available
    /// capability.  The inner value is the actual version available.
    VersionDidNotMatch(usize),
    /// The capability was already obtained earlier in this session; the
    /// first fulfillment stands.
    AlreadyObtained,
}

/// Result of a probe call into an extension, distinct from the outcome of
/// any individual capability request: an extension may tolerate missing
/// optional capabilities and still report `Success`.
#[derive(Clone, Copy, PartialEq, Eq, Structural, Debug)]
pub enum ProbeResult {
    /// The extension obtained every capability it needs to operate.
    Success,
    /// The extension could not obtain the capabilities it needs.
    Failure,
}

/// Failure of one capability request, in the registry's own terms.
#[derive(Clone, Copy, PartialEq, Eq, Debug)]
pub enum ApiRequestError {
    /// Requested and actual version, in that order.
    MismatchedVersion((usize, usize)),
    /// The slot was already fulfilled earlier in this session.
    AlreadyObtained,
}

/// A provider slot: holds a ready capability value and hands a copy out
/// whenever the matching version is requested.  Stateless across requests.
pub struct ApiProvider<T> {
    pub name: &'static str,
    pub version: usize,
    pub api: T,
}

/// What a request against a provider slot returns: the held value on an
/// exact version match, and otherwise a mismatch error that carries the
/// slot's configured version.
pub open spec fn provider_outcome<T>(
    provider: ApiProvider<T>,
    requested_version: usize,
) -> Result<T, ApiRequestError> {
    if requested_version == provider.version {
        Ok(provider.api)
    } else {
        Err(ApiRequestError::MismatchedVersion((requested_version, provider.version)))
    }
}

impl<T: Copy> ApiProvider<T> {
    pub fn new(api_info: &ApiInfo, api: T) -> (r: Self)
        ensures
            r.name@ == api_info.name@,
            r.version == api_info.version,
            r.api == api,
    {
        Self { name: api_info.name, version: api_info.version, api }
    }

    pub fn get_name(&self) -> (r: &'static str)
        ensures
            r@ == self.name@,
    {
        self.name
    }

    pub fn get_version(&self) -> (r: usize)
        ensures
            r == self.version,
    {
        self.version
    }

    /// Request the held capability at `requested_version`.
    pub fn request_get_api(&self, requested_version: usize) -> (r: Result<T, ApiRequestError>)
        ensures
            r == provider_outcome(*self, requested_version),
    {
        if requested_version != self.version {
            return Err(ApiRequestError::MismatchedVersion((requested_version, self.version)));
        }
        Ok(self.api)
    }
}

/// A consumer slot: starts empty and holds at most one extension-supplied
/// callback record once fulfilled.
pub struct CallbacksContainer<T> {
    pub name: &'static str,
    pub version: usize,
    pub callbacks: Option<T>,
}

/// What a request against a consumer slot returns: a mismatch error carrying
/// the configured version when the versions differ, a distinct
/// already-obtained error when the slot was fulfilled before, and success
/// otherwise.
pub open spec fn consumer_outcome<T>(
    container: CallbacksContainer<T>,
    requested_version: usize,
) -> Result<(), ApiRequestError> {
    if requested_version != container.version {
        Err(ApiRequestError::MismatchedVersion((requested_version, container.version)))
    } else if container.callbacks is Some {
        Err(ApiRequestError::AlreadyObtained)
    } else {
        Ok(())
    }
}

/// The consumer slot after a request: the callback record is stored exactly
/// when the request succeeds, and nothing else ever changes.
pub open spec fn consumer_after<T>(
    container: CallbacksContainer<T>,
    requested_version: usize,
    callbacks: T,
) -> CallbacksContainer<T> {
    if consumer_outcome(container, requested_version) is Ok {
        CallbacksContainer { callbacks: Some(callbacks), ..container }
    } else {
        container
    }
}

impl<T> CallbacksContainer<T> {
    pub fn new(api_info: &ApiInfo) -> (r: Self)
        ensures
            r.name@ == api_info.name@,
            r.version == api_info.version,
            r.callbacks is None,
    {
        Self { name: api_info.name, version: api_info.version, callbacks: None }
    }

    pub fn get_name(&self) -> (r: &'static str)
        ensures
            r@ == self.name@,
    {
        self.name
    }

    pub fn get_version(&self) -> (r: usize)
        ensures
            r == self.version,
    {
        self.version
    }

    /// Fulfil the slot with the extension's callback record, at most once.
    pub fn request_set_callbacks(&mut self, requested_version: usize, callbacks: T) -> (r: Result<
        (),
        ApiRequestError,
    >)
        ensures
            r == consumer_outcome(*old(self), requested_version),
            *final(self) == consumer_after(*old(self), requested_version, callbacks),
    {
        if requested_version != self.version {
            return Err(ApiRequestError::MismatchedVersion((requested_version, self.version)));
        }
        if self.callbacks.is_some() {
            return Err(ApiRequestError::AlreadyObtained);
        }
        self.callbacks = Some(callbacks);
        Ok(())
    }

    /// Hand the negotiated callback record, if any, to the owner of the
    /// slot.
    pub fn take_callbacks(self) -> (r: Option<T>)
        ensures
            r == self.callbacks,
    {
        self.callbacks
    }
}

/// A capability request succeeds exactly when the requested version equals
/// the slot's configured version, and every version-mismatch failure reports
/// that configured version itself.  This holds for provider slots always and
/// for consumer slots that are not yet fulfilled; a fulfilled consumer slot
/// refuses even a matching request.
pub proof fn lemma_version_gate<P, C>(
    provider: ApiProvider<P>,
    container: CallbacksContainer<C>,
    requested_version: usize,
)
    ensures
        provider_outcome(provider, requested_version) is Ok <==> requested_version
            == provider.version,
        provider_outcome(provider, requested_version) matches Err(
            ApiRequestError::MismatchedVersion(pair),
        ) ==> pair.1 == provider.version,
        container.callbacks is None ==> (consumer_outcome(container, requested_version) is Ok
            <==> requested_version == container.version),
        consumer_outcome(container, requested_version) matches Err(
            ApiRequestError::MismatchedVersion(pair),
        ) ==> pair.1 == container.version,
{
}

/// A consumer slot accepts fulfillment exactly once.  From an unfulfilled
/// slot, a request at the configured version succeeds and stores the
/// callback record; from then on every request — whatever its version and
/// callback — fails, a matching one with the distinct already-obtained
/// error, and the stored record never changes.
pub proof fn lemma_consumer_fulfilled_once<T>(
    container: CallbacksContainer<T>,
    first: T,
    second_version: usize,
    second: T,
)
    requires
        container.callbacks is None,
    ensures
        consumer_outcome(container, container.version) is Ok,
        ({
            let fulfilled = consumer_after(container, container.version, first);
            &&& fulfilled.callbacks == Some(first)
            &&& consumer_outcome(fulfilled, second_version) is Err
            &&& second_version == container.version ==> consumer_outcome(
                fulfilled,
                second_version,
            ) == Err::<(), ApiRequestError>(ApiRequestError::AlreadyObtained)
            &&& consumer_after(fulfilled, second_version, second) == fulfilled
        }),
{
}

/// Translation of a slot-level failure into the form reported to the
/// extension: a version mismatch keeps only the actual available version.
pub open spec fn spec_process_result<T>(result: Result<T, ApiRequestError>) -> Result<
    T,
    RequestError,
> {
    match result {
        Ok(v) => Ok(v),
        Err(ApiRequestError::MismatchedVersion((_requested, actual))) => Err(
            RequestError::VersionDidNotMatch(actual),
        ),
        Err(ApiRequestError::AlreadyObtained) => Err(RequestError::AlreadyObtained),
    }
}

/// The fixed set of capability slots the host exposes to one probe session:
/// the logging bridge as a provider, the demonstration callback capability
/// and the map-parser capability as consumers.
pub struct ExportedApis {
    pub log_api: ApiProvider<LogApi>,
    pub dummy_api: CallbacksContainer<DummyCallbacks>,
    pub map_parser_api: CallbacksContainer<MapParserCallbacks>,
}

impl ExportedApis {
    /// A fresh registry view: the logging capability ready to serve, both
    /// consumer slots empty.
    pub fn new(log_api: LogApi) -> (r: Self)
        ensures
            r.log_api.name@ == "LogApi"@,
            r.log_api.version == 1,
            r.log_api.api == log_api,
            r.dummy_api.name@ == "DummyApi"@,
            r.dummy_api.version == 1,
            r.dummy_api.callbacks is None,
            r.map_parser_api.name@ == "MapParserApi"@,
            r.map_parser_api.version == 1,
            r.map_parser_api.callbacks is None,
    {
        Self {
            log_api: ApiProvider::new(&crate::log_api::api_info(), log_api),
            dummy_api: CallbacksContainer::new(&crate::dummy_api::api_info()),
            map_parser_api: CallbacksContainer::new(&crate::map_parser_api::api_info()),
        }
    }

    /// Request a copy of a provider slot's capability value.
    pub fn request_get_api<T: Copy>(
        provider: &mut ApiProvider<T>,
        requested_version: usize,
    ) -> (r: Result<T, RequestError>)
        ensures
            *final(provider) == *old(provider),
            r == spec_process_result(provider_outcome(*old(provider), requested_version)),
    {
        Self::process_result(provider.request_get_api(requested_version))
    }

    /// Fulfil a consumer slot with an extension's callback record.
    pub fn request_set_callbacks<T>(
        container: &mut CallbacksContainer<T>,
        requested_version: usize,
        callbacks: T,
    ) -> (r: Result<(), RequestError>)
        ensures
            r == spec_process_result(consumer_outcome(*old(container), requested_version)),
            *final(container) == consumer_after(*old(container), requested_version, callbacks),
    {
        Self::process_result(container.request_set_callbacks(requested_version, callbacks))
    }

    /// Report a slot-level outcome to the extension in the boundary form.
    pub fn process_result<T>(result: Result<T, ApiRequestError>) -> (r: Result<T, RequestError>)
        ensures
            r == spec_process_result(result),
    {
        match result {
            Ok(v) => Ok(v),
            Err(ApiRequestError::MismatchedVersion((_requested, actual))) => Err(
                RequestError::VersionDidNotMatch(actual),
            ),
            Err(ApiRequestError::AlreadyObtained) => Err(RequestError::AlreadyObtained),
        }
    }
}

/// One probe session: the negotiation handle passed to an extension's probe
/// entry point, bound to one extension's display name and one fresh registry
/// view for the duration of a single call.
pub struct ProbeApi {
    pub extension_name: String,
    pub apis: ExportedApis,
}

impl ProbeApi {
    pub fn new(extension_name: &str, apis: ExportedApis) -> (r: ProbeApi)
        ensures
            r.extension_name@ == extension_name@,
            r.apis == apis,
    {
        ProbeApi { extension_name: extension_name.to_owned(), apis }
    }

    /// Request the logging capability at `requested_version`: a copy of the
    /// host's value on an exact version match, and otherwise a failure that
    /// reports the actual configured version.  The session is unchanged
    /// either way.
    pub fn request_log_api(&mut self, requested_version: usize) -> (r: Result<
        LogApi,
        RequestError,
    >)
        ensures
            *final(self) == *old(self),
            r == spec_process_result(
                provider_outcome(old(self).apis.log_api, requested_version),
            ),
    {
        ExportedApis::request_get_api(&mut self.apis.log_api, requested_version)
    }

    /// Fulfil the demonstration callback capability at `requested_version`.
    /// The callback record is stored exactly when the request succeeds: on a
    /// version mismatch the failure reports the actual configured version,
    /// and once the slot is fulfilled a further attempt is refused as
    /// already obtained.  No other slot changes.
    pub fn register_dummy_api_callbacks(
        &mut self,
        requested_version: usize,
        callbacks: DummyCallbacks,
    ) -> (r: Result<(), RequestError>)
        ensures
            final(self).extension_name == old(self).extension_name,
            final(self).apis.log_api == old(self).apis.log_api,
            final(self).apis.map_parser_api == old(self).apis.map_parser_api,
            r == spec_process_result(
                consumer_outcome(old(self).apis.dummy_api, requested_version),
            ),
            final(self).apis.dummy_api == consumer_after(
                old(self).apis.dummy_api,
                requested_version,
                callbacks,
            ),
    {
        ExportedApis::request_set_callbacks(&mut self.apis.dummy_api, requested_version, callbacks)
    }

    /// Give the registry view back to the host once the probe call has
    /// returned, so that it can collect what the extension fulfilled.
    pub fn into_apis(self) -> (r: ExportedApis)
        ensures
            r == self.apis,
    {
        self.apis
    }
}

} // verus!

