use octopat::errors::FlowError;
use octopat::flow::{flow_action, flow_start, flow_step, FlowAction, FlowEvent, FlowState};
use octopat::scope::Scope;

#[test]
fn bind_failure_never_reaches_the_browser() {
    let state = flow_start("abc", vec![Scope::Repo], 4567);
    assert_eq!(flow_action(&state), FlowAction::Bind(4567));
    let state = flow_step(state, FlowEvent::BindFailed);
    assert_eq!(
        state,
        FlowState::Done { result: Err(FlowError::ConfigError), on_clipboard: false }
    );
    assert_eq!(flow_action(&state), FlowAction::Report);
}

#[test]
fn happy_path_delivers_the_token() {
    let state = flow_start("abc", vec![Scope::AdminOrg, Scope::AdminRepoHook], 4567);
    let state = flow_step(state, FlowEvent::BindSucceeded);
    assert_eq!(
        flow_action(&state),
        FlowAction::OpenBrowser(
            "https://github.com/login/oauth/authorize?client_id=abc&redirect_uri=http://localhost:4567/&scope=admin:org%20admin:repo_hook"
                .to_string()
        )
    );
    let state = flow_step(state, FlowEvent::BrowserOpened);
    assert_eq!(flow_action(&state), FlowAction::AwaitCallback);
    let state = flow_step(state, FlowEvent::ServerConcluded(Ok("tok".to_string())));
    assert_eq!(flow_action(&state), FlowAction::CopyToken("tok".to_string()));
    let state = flow_step(state, FlowEvent::ClipboardCopied);
    assert_eq!(
        state,
        FlowState::Done { result: Ok("tok".to_string()), on_clipboard: true }
    );
}

#[test]
fn clipboard_failure_keeps_the_token() {
    let state = FlowState::Delivering { token: "tok".to_string() };
    let state = flow_step(state, FlowEvent::ClipboardFailed);
    assert_eq!(
        state,
        FlowState::Done { result: Ok("tok".to_string()), on_clipboard: false }
    );
    assert_eq!(flow_action(&state), FlowAction::Report);
}

#[test]
fn browser_failure_is_fatal() {
    let state = FlowState::Launching { url: "u".to_string() };
    let state = flow_step(state, FlowEvent::BrowserFailed);
    assert_eq!(
        state,
        FlowState::Done { result: Err(FlowError::BrowserLaunchError), on_clipboard: false }
    );
}

#[test]
fn server_failure_propagates() {
    let state = flow_step(
        FlowState::Waiting,
        FlowEvent::ServerConcluded(Err(FlowError::ConsentDenied)),
    );
    assert_eq!(
        state,
        FlowState::Done { result: Err(FlowError::ConsentDenied), on_clipboard: false }
    );
}
