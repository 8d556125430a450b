use vstd::prelude::*;
use crate::authorize::{auth_url_chars, authorization_url};
use crate::errors::FlowError;
use crate::scope::Scope;

verus! {

/// The orchestrator's state between two external steps. The listener is
/// bound before the browser is asked to navigate, so a bind failure can
/// never reach the browser-launch collaborator.
#[derive(Debug, PartialEq, Eq)]
pub enum FlowState {
    /// The URL is built; the listener must be bound next.
    Binding { url: String, port: u16 },
    /// The listener is bound; the browser must be opened.
    Launching { url: String },
    /// The browser is open; waiting for the callback server to conclude.
    Waiting,
    /// A token was obtained; it must be handed to the clipboard.
    Delivering { token: String },
    /// Terminal: the flow's result, and whether the token reached the
    /// clipboard.
    Done { result: Result<String, FlowError>, on_clipboard: bool },
}

/// What the orchestrator asks its surroundings to do in a state.
#[derive(Debug, PartialEq, Eq)]
pub enum FlowAction {
    /// Bind the one-shot listener to this port.
    Bind(u16),
    /// Open the system browser at this URL.
    OpenBrowser(String),
    /// Wait until the callback server concludes or terminates, whichever
    /// resolves first.
    AwaitCallback,
    /// Put the token on the clipboard.
    CopyToken(String),
    /// Report the result. When a token was obtained but never reached the
    /// clipboard, it must still be surfaced to the user.
    Report,
}

/// What the surroundings hand back after performing an action.
pub enum FlowEvent {
    BindSucceeded,
    BindFailed,
    BrowserOpened,
    BrowserFailed,
    ServerConcluded(Result<String, FlowError>),
    ClipboardCopied,
    ClipboardFailed,
}

/// Begin a flow: build the authorization URL from the credentials' client
/// id, the selected scopes (in selection order) and the callback port.
pub fn flow_start(client_id: &str, scopes: Vec<Scope>, port: u16) -> (s: FlowState)
    ensures
        s matches FlowState::Binding { url, port: p } && url@ == auth_url_chars(
            client_id@,
            scopes@,
            port,
        ) && p == port,
{
    let url = authorization_url(client_id, scopes, port);
    FlowState::Binding { url, port }
}

/// How one event advances the orchestrator. An event that does not belong
/// to the current state is ignored; a `Done` state is terminal.
pub open spec fn spec_flow_step(s: FlowState, e: FlowEvent) -> FlowState {
    match s {
        FlowState::Binding { url, port } => match e {
            FlowEvent::BindSucceeded => FlowState::Launching { url },
            FlowEvent::BindFailed => FlowState::Done {
                result: Err(FlowError::ConfigError),
                on_clipboard: false,
            },
            _ => FlowState::Binding { url, port },
        },
        FlowState::Launching { url } => match e {
            FlowEvent::BrowserOpened => FlowState::Waiting,
            FlowEvent::BrowserFailed => FlowState::Done {
                result: Err(FlowError::BrowserLaunchError),
                on_clipboard: false,
            },
            _ => FlowState::Launching { url },
        },
        FlowState::Waiting => match e {
            FlowEvent::ServerConcluded(r) => match r {
                Ok(t) => FlowState::Delivering { token: t },
                Err(err) => FlowState::Done { result: Err(err), on_clipboard: false },
            },
            _ => FlowState::Waiting,
        },
        FlowState::Delivering { token } => match e {
            FlowEvent::ClipboardCopied => FlowState::Done {
                result: Ok(token),
                on_clipboard: true,
            },
            FlowEvent::ClipboardFailed => FlowState::Done {
                result: Ok(token),
                on_clipboard: false,
            },
            _ => FlowState::Delivering { token },
        },
        FlowState::Done { result, on_clipboard } => FlowState::Done { result, on_clipboard },
    }
}

/// Advance the orchestrator by one event.
pub fn flow_step(state: FlowState, event: FlowEvent) -> (r: FlowState)
    ensures
        r == spec_flow_step(state, event),
{
    match state {
        FlowState::Binding { url, port } => match event {
            FlowEvent::BindSucceeded => FlowState::Launching { url },
            FlowEvent::BindFailed => FlowState::Done {
                result: Err(FlowError::ConfigError),
                on_clipboard: false,
            },
            _ => FlowState::Binding { url, port },
        },
        FlowState::Launching { url } => match event {
            FlowEvent::BrowserOpened => FlowState::Waiting,
            FlowEvent::BrowserFailed => FlowState::Done {
                result: Err(FlowError::BrowserLaunchError),
                on_clipboard: false,
            },
            _ => FlowState::Launching { url },
        },
        FlowState::Waiting => match event {
            FlowEvent::ServerConcluded(r) => match r {
                Ok(t) => FlowState::Delivering { token: t },
                Err(err) => FlowState::Done { result: Err(err), on_clipboard: false },
            },
            _ => FlowState::Waiting,
        },
        FlowState::Delivering { token } => match event {
            FlowEvent::ClipboardCopied => FlowState::Done {
                result: Ok(token),
                on_clipboard: true,
            },
            FlowEvent::ClipboardFailed => FlowState::Done {
                result: Ok(token),
                on_clipboard: false,
            },
            _ => FlowState::Delivering { token },
        },
        FlowState::Done { result, on_clipboard } => FlowState::Done { result, on_clipboard },
    }
}

/// The action pending in a state. The browser is opened in the `Launching`
/// state and nowhere else.
pub fn flow_action(state: &FlowState) -> (r: FlowAction)
    ensures
        state matches FlowState::Binding { port, .. } ==> r == FlowAction::Bind(*port),
        (state matches FlowState::Launching { url } ==> r matches FlowAction::OpenBrowser(u)
            && u@ == url@),
        state is Waiting ==> r is AwaitCallback,
        (state matches FlowState::Delivering { token } ==> r matches FlowAction::CopyToken(t)
            && t@ == token@),
        state is Done ==> r is Report,
        r is OpenBrowser <==> state is Launching,
    {
    match state {
        FlowState::Binding { port, .. } => FlowAction::Bind(*port),
        FlowState::Launching { url } => FlowAction::OpenBrowser(url.clone()),
        FlowState::Waiting => FlowAction::AwaitCallback,
        FlowState::Delivering { token } => FlowAction::CopyToken(token.clone()),
        FlowState::Done { .. } => FlowAction::Report,
    }
}

/// The orchestrator after a whole sequence of events.
pub open spec fn run_flow(s: FlowState, evs: Seq<FlowEvent>) -> FlowState
    decreases evs.len(),
{
    if evs.len() == 0 {
        s
    } else {
        run_flow(spec_flow_step(s, evs[0]), evs.drop_first())
    }
}

/// A finished flow ignores every further event.
pub proof fn lemma_done_absorbs(s: FlowState, evs: Seq<FlowEvent>)
    requires
        s is Done,
    ensures
        run_flow(s, evs) == s,
    decreases evs.len(),
{
    if evs.len() > 0 {
        assert(spec_flow_step(s, evs[0]) == s);
        lemma_done_absorbs(s, evs.drop_first());
    }
}

/// Law: a bind failure surfaces as the configuration error, immediately
/// and terminally.
pub proof fn lemma_bind_failure_aborts(s: FlowState)
    requires
        s is Binding,
    ensures
        spec_flow_step(s, FlowEvent::BindFailed) matches FlowState::Done {
            result,
            on_clipboard,
        } && result == Err::<String, FlowError>(FlowError::ConfigError) && !on_clipboard,
{
}

/// Law: the browser-launch collaborator is never invoked unless the bind
/// succeeded. From the binding state, no sequence of events without a
/// successful bind — a bind failure among them — ever reaches the one
/// state whose action opens the browser; this holds of every prefix of a
/// run, since it holds of every event sequence.
pub proof fn lemma_browser_needs_bind(s: FlowState, evs: Seq<FlowEvent>)
    requires
        s is Binding,
        forall|i: int| 0 <= i < evs.len() ==> !(evs[i] is BindSucceeded),
    ensures
        !(run_flow(s, evs) is Launching),
    decreases evs.len(),
{
    if evs.len() > 0 {
        let s1 = spec_flow_step(s, evs[0]);
        let rest = evs.drop_first();
        assert(forall|i: int| 0 <= i < rest.len() ==> !(rest[i] is BindSucceeded));
        if s1 is Binding {
            lemma_browser_needs_bind(s1, rest);
        } else {
            assert(s1 is Done);
            lemma_done_absorbs(s1, rest);
        }
    }
}

} // verus!
