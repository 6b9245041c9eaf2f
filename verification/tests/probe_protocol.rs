use bspsuite::probe_api::{
    ApiProvider, ApiRequestError, CallbacksContainer, ExportedApis, ProbeApi, RequestError,
    API_VERSION,
};
use bspsuite::dummy_api::DummyCallbacks;
use bspsuite::log_api::{create_api, LevelFilter, LogApi};
use bspsuite::ApiInfo;

#[test]
fn probe_protocol_version_constant() {
    assert_eq!(API_VERSION, 1);
}

#[test]
fn provider_request_exact_version_succeeds() {
    let info = ApiInfo::new("Cap", 3);
    let provider: ApiProvider<u64> = ApiProvider::new(&info, 77);
    assert_eq!(provider.get_version(), 3);
    assert_eq!(provider.get_name(), "Cap");
    assert_eq!(provider.request_get_api(3), Ok(77));
}

#[test]
fn provider_request_mismatch_reports_configured_version() {
    let info = ApiInfo::new("Cap", 3);
    let provider: ApiProvider<u64> = ApiProvider::new(&info, 77);
    for requested in [0usize, 1, 2, 4, 5, 100] {
        assert_eq!(
            provider.request_get_api(requested),
            Err(ApiRequestError::MismatchedVersion((requested, 3)))
        );
    }
}

#[test]
fn provider_round_trip_returns_equal_value() {
    let log_api: LogApi = create_api(LevelFilter::Debug);
    let info = ApiInfo::new("LogApi", 1);
    let provider: ApiProvider<LogApi> = ApiProvider::new(&info, log_api);
    let out = provider.request_get_api(1).unwrap();
    assert_eq!(out, log_api);
}

#[test]
fn consumer_request_exact_version_stores_callbacks() {
    let info = ApiInfo::new("Cap", 2);
    let mut container: CallbacksContainer<u32> = CallbacksContainer::new(&info);
    assert_eq!(container.get_version(), 2);
    assert_eq!(container.get_name(), "Cap");
    assert!(container.callbacks.is_none());
    assert_eq!(container.request_set_callbacks(2, 9), Ok(()));
    assert_eq!(container.callbacks, Some(9));
}

#[test]
fn consumer_request_mismatch_reports_configured_version() {
    let info = ApiInfo::new("Cap", 2);
    let mut container: CallbacksContainer<u32> = CallbacksContainer::new(&info);
    assert_eq!(
        container.request_set_callbacks(5, 9),
        Err(ApiRequestError::MismatchedVersion((5, 2)))
    );
    assert!(container.callbacks.is_none());
}

#[test]
fn consumer_second_fulfillment_rejected_not_overwritten() {
    let info = ApiInfo::new("Cap", 1);
    let mut container: CallbacksContainer<u32> = CallbacksContainer::new(&info);
    assert_eq!(container.request_set_callbacks(1, 11), Ok(()));
    assert_eq!(
        container.request_set_callbacks(1, 22),
        Err(ApiRequestError::AlreadyObtained)
    );
    assert_eq!(container.callbacks, Some(11));
    let taken = container.take_callbacks();
    assert_eq!(taken, Some(11));
}

#[test]
fn process_result_translates_failures() {
    assert_eq!(ExportedApis::process_result::<u8>(Ok(5)), Ok(5));
    assert_eq!(
        ExportedApis::process_result::<u8>(Err(ApiRequestError::MismatchedVersion((4, 2)))),
        Err(RequestError::VersionDidNotMatch(2))
    );
    assert_eq!(
        ExportedApis::process_result::<u8>(Err(ApiRequestError::AlreadyObtained)),
        Err(RequestError::AlreadyObtained)
    );
}

#[test]
fn exported_apis_start_fresh() {
    let apis = ExportedApis::new(create_api(LevelFilter::Trace));
    assert_eq!(apis.log_api.get_name(), "LogApi");
    assert_eq!(apis.log_api.get_version(), 1);
    assert_eq!(apis.dummy_api.get_name(), "DummyApi");
    assert_eq!(apis.dummy_api.get_version(), 1);
    assert!(apis.dummy_api.callbacks.is_none());
    assert_eq!(apis.map_parser_api.get_name(), "MapParserApi");
    assert_eq!(apis.map_parser_api.get_version(), 1);
    assert!(apis.map_parser_api.callbacks.is_none());
}

#[test]
fn session_log_request_succeeds_then_version_two_fails() {
    let host_value = create_api(LevelFilter::Info);
    let mut session = ProbeApi::new("demo", ExportedApis::new(host_value));
    assert_eq!(session.extension_name, "demo");
    let got = session.request_log_api(1);
    assert_eq!(got, Ok(host_value));
    let again = session.request_log_api(2);
    assert_eq!(again, Err(RequestError::VersionDidNotMatch(1)));
}

#[test]
fn session_dummy_registration_once_only() {
    let mut session = ProbeApi::new("demo", ExportedApis::new(create_api(LevelFilter::Off)));
    let callbacks = DummyCallbacks { entry_point: 0xbeef };
    assert_eq!(session.register_dummy_api_callbacks(1, callbacks), Ok(()));
    assert_eq!(
        session.register_dummy_api_callbacks(1, DummyCallbacks { entry_point: 0xdead }),
        Err(RequestError::AlreadyObtained)
    );
    assert_eq!(
        session.register_dummy_api_callbacks(9, DummyCallbacks { entry_point: 1 }),
        Err(RequestError::VersionDidNotMatch(1))
    );
    let apis = session.into_apis();
    assert_eq!(apis.dummy_api.callbacks, Some(callbacks));
}
