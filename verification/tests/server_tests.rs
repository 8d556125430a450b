use octopat::errors::FlowError;
use octopat::exchange::ExchangeError;
use octopat::server::{
    error_page, success_page, CallbackOutcome, CallbackServer, ServerPhase, ServerReply,
};

#[test]
fn code_callback_drives_completed_with_code_outcome() {
    let mut server = CallbackServer::start(true);
    assert_eq!(server.phase(), ServerPhase::Listening);
    let reply = server.on_request("/", "code=XYZ");
    assert_eq!(reply, ServerReply::ExchangeCode("XYZ".to_string()));
    assert_eq!(server.phase(), ServerPhase::Handling);
    assert_eq!(server.outcome(), &Some(CallbackOutcome::Code("XYZ".to_string())));
    server.finish_exchange(Ok("token-value".to_string()));
    assert_eq!(server.phase(), ServerPhase::Completed);
    assert_eq!(server.signals(), 1);
    assert_eq!(server.conclude(), Ok("token-value".to_string()));
}

#[test]
fn callback_without_code_is_denied() {
    let mut server = CallbackServer::start(true);
    let reply = server.on_request("/", "error=access_denied");
    assert_eq!(reply, ServerReply::ErrorPage);
    assert_eq!(server.phase(), ServerPhase::Completed);
    assert_eq!(server.outcome(), &Some(CallbackOutcome::Denied));
    assert_eq!(server.signals(), 1);
    assert_eq!(server.conclude(), Err(FlowError::ConsentDenied));
}

#[test]
fn callback_with_no_parameters_is_malformed() {
    let mut server = CallbackServer::start(true);
    let reply = server.on_request("/", "");
    assert_eq!(reply, ServerReply::ErrorPage);
    assert_eq!(server.phase(), ServerPhase::Completed);
    assert_eq!(server.outcome(), &Some(CallbackOutcome::Malformed));
    assert_eq!(server.conclude(), Err(FlowError::ConsentDenied));
}

#[test]
fn favicon_probe_leaves_server_listening() {
    let mut server = CallbackServer::start(true);
    let reply = server.on_request("/favicon.ico", "code=XYZ");
    assert_eq!(reply, ServerReply::EmptyPage);
    assert_eq!(server.phase(), ServerPhase::Listening);
    assert_eq!(server.signals(), 0);
}

#[test]
fn signal_fires_once_despite_favicon_probes() {
    let mut server = CallbackServer::start(true);
    for _ in 0..3 {
        server.on_request("/favicon.ico", "");
        assert_eq!(server.signals(), 0);
    }
    let reply = server.on_request("/", "code=XYZ");
    assert_eq!(reply, ServerReply::ExchangeCode("XYZ".to_string()));
    server.finish_exchange(Ok("tok".to_string()));
    assert_eq!(server.signals(), 1);
    for _ in 0..3 {
        let reply = server.on_request("/favicon.ico", "");
        assert_eq!(reply, ServerReply::EmptyPage);
    }
    let reply = server.on_request("/", "code=second");
    assert_eq!(reply, ServerReply::EmptyPage);
    assert_eq!(server.signals(), 1);
    assert_eq!(server.conclude(), Ok("tok".to_string()));
}

#[test]
fn bind_failure_aborts_without_serving() {
    let server = CallbackServer::start(false);
    assert_eq!(server.phase(), ServerPhase::Aborted);
    assert_eq!(server.signals(), 0);
    assert_eq!(server.conclude(), Err(FlowError::ConfigError));
}

#[test]
fn transport_failure_still_completes() {
    let mut server = CallbackServer::start(true);
    server.on_request("/", "code=XYZ");
    server.finish_exchange(Err(ExchangeError::NetworkError));
    assert_eq!(server.phase(), ServerPhase::Completed);
    assert_eq!(server.signals(), 1);
    assert_eq!(server.conclude(), Err(FlowError::NetworkError));
}

#[test]
fn provider_refusal_is_reported() {
    let mut server = CallbackServer::start(true);
    server.on_request("/", "code=stale");
    server.finish_exchange(Err(ExchangeError::ProviderError(
        "bad_verification_code".to_string(),
    )));
    assert_eq!(
        server.conclude(),
        Err(FlowError::ProviderError("bad_verification_code".to_string()))
    );
}

#[test]
fn pages_render_as_expected() {
    let page = success_page("abc123");
    assert!(page.contains("https://github.com/settings/connections/applications/abc123"));
    assert!(page.starts_with("<html>"));
    assert!(error_page().contains("Authorization failed"));
}
