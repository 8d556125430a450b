use vstd::prelude::*;
use vstd::string::StringExecFns;
use crate::errors::{FlowError, FlowFailureModel, FlowOutcomeModel, result_model};
use crate::exchange::{ExchangeError, ExchangeModel, exchange_model};
use crate::query::{form_decoded, lookup_last, lookup_param, query_params, str_eq};

verus! {

/// The phases of the one-shot callback listener: it accepts at most one
/// meaningful request, then shuts down deterministically.
#[derive(Clone, Copy, Debug, PartialEq, Eq, Structural)]
pub enum ServerPhase {
    /// Bound and waiting for the browser redirect.
    Listening,
    /// The authoritative request arrived with a code; the exchange is in
    /// flight.
    Handling,
    /// Terminal: the one meaningful request was processed.
    Completed,
    /// Terminal: the listener could not be bound.
    Aborted,
}

/// The terminal result of the one redirect the server will ever process.
#[derive(Clone, Debug, PartialEq, Eq)]
pub enum CallbackOutcome {
    /// The redirect carried an authorization code.
    Code(String),
    /// The redirect carried an error parameter instead of a code.
    Denied,
    /// The redirect carried neither a code nor an error parameter.
    Malformed,
}

/// What the request handler asks its caller to do next.
#[derive(Debug, PartialEq, Eq)]
pub enum ServerReply {
    /// Answer with an empty success response.
    EmptyPage,
    /// Exchange this authorization code for a token, then report the result
    /// through `finish_exchange`.
    ExchangeCode(String),
    /// Answer with the error page; the interaction is over.
    ErrorPage,
}

/// The abstract form of a callback outcome.
pub enum OutcomeModel {
    Code(Seq<char>),
    Denied,
    Malformed,
}

/// The abstract form of an outcome value.
pub open spec fn outcome_model(o: CallbackOutcome) -> OutcomeModel {
    match o {
        CallbackOutcome::Code(c) => OutcomeModel::Code(c@),
        CallbackOutcome::Denied => OutcomeModel::Denied,
        CallbackOutcome::Malformed => OutcomeModel::Malformed,
    }
}

/// The abstract state of the callback server: its phase, the classified
/// outcome, the recorded exchange result, and how many completion signals
/// it has emitted.
pub struct ServerModel {
    pub phase: ServerPhase,
    pub outcome: Option<OutcomeModel>,
    pub exchange: Option<ExchangeModel>,
    pub signals: nat,
}

/// Well-formedness of a server state: one signal exactly when completed,
/// and the outcome and exchange records match the phase.
pub open spec fn wf_model(m: ServerModel) -> bool {
    &&& m.signals == if m.phase is Completed {
        1nat
    } else {
        0nat
    }
    &&& (m.phase is Listening || m.phase is Aborted) ==> m.outcome is None && m.exchange is None
    &&& m.phase is Handling ==> (m.outcome matches Some(OutcomeModel::Code(_))) && m.exchange
        is None
    &&& m.phase is Completed ==> m.outcome is Some
    &&& m.phase is Completed ==> ((m.outcome matches Some(OutcomeModel::Code(_))) <==> m.exchange
        is Some)
}

/// The state of a freshly started server.
pub open spec fn fresh_model(bind_ok: bool) -> ServerModel {
    ServerModel {
        phase: if bind_ok {
            ServerPhase::Listening
        } else {
            ServerPhase::Aborted
        },
        outcome: None,
        exchange: None,
        signals: 0,
    }
}

/// Classify the decoded query of the authoritative request: a `code`
/// parameter wins; otherwise an `error` parameter means consent was denied;
/// otherwise the redirect is malformed.
pub open spec fn classify_model(pairs: Seq<(Seq<char>, Seq<char>)>) -> OutcomeModel {
    match lookup_last(pairs, "code"@) {
        Some(c) => OutcomeModel::Code(c),
        None => if lookup_last(pairs, "error"@) is Some {
            OutcomeModel::Denied
        } else {
            OutcomeModel::Malformed
        },
    }
}

/// How one inbound request transforms the server: a favicon probe never
/// counts, a request outside the listening phase is ignored, and the one
/// authoritative request is classified by its query.
pub open spec fn spec_on_request(
    m: ServerModel,
    favicon: bool,
    pairs: Seq<(Seq<char>, Seq<char>)>,
) -> ServerModel {
    if favicon || !(m.phase is Listening) {
        m
    } else {
        match classify_model(pairs) {
            OutcomeModel::Code(c) => ServerModel {
                phase: ServerPhase::Handling,
                outcome: Some(OutcomeModel::Code(c)),
                ..m
            },
            o => ServerModel {
                phase: ServerPhase::Completed,
                outcome: Some(o),
                signals: m.signals + 1,
                ..m
            },
        }
    }
}

/// How the exchange's result completes a handling server; outside the
/// handling phase nothing changes.
pub open spec fn spec_finish(m: ServerModel, x: ExchangeModel) -> ServerModel {
    if m.phase is Handling {
        ServerModel { phase: ServerPhase::Completed, exchange: Some(x), signals: m.signals + 1, ..m }
    } else {
        m
    }
}

/// What a finished server reports to the orchestrator.
pub open spec fn spec_conclude(m: ServerModel) -> FlowOutcomeModel {
    if m.phase is Aborted {
        FlowOutcomeModel::Fail(FlowFailureModel::Config)
    } else {
        match m.outcome {
            Some(OutcomeModel::Code(_)) => match m.exchange {
                Some(ExchangeModel::Token(t)) => FlowOutcomeModel::Token(t),
                Some(ExchangeModel::NetFailed) => FlowOutcomeModel::Fail(FlowFailureModel::Net),
                Some(ExchangeModel::BadBody) => FlowOutcomeModel::Fail(FlowFailureModel::BadBody),
                Some(ExchangeModel::Refused(e)) => FlowOutcomeModel::Fail(
                    FlowFailureModel::Provider(e),
                ),
                None => FlowOutcomeModel::Fail(FlowFailureModel::Config),
            },
            _ => FlowOutcomeModel::Fail(FlowFailureModel::Consent),
        }
    }
}

/// The one-shot callback server.
pub struct CallbackServer {
    phase: ServerPhase,
    outcome: Option<CallbackOutcome>,
    exchange: Option<Result<String, ExchangeError>>,
    signals: u32,
}

impl CallbackServer {
    /// The abstract state this server is in.
    pub closed spec fn model(&self) -> ServerModel {
        ServerModel {
            phase: self.phase,
            outcome: match self.outcome {
                Some(o) => Some(outcome_model(o)),
                None => None,
            },
            exchange: match self.exchange {
                Some(r) => Some(exchange_model(r)),
                None => None,
            },
            signals: self.signals as nat,
        }
    }

    /// Well-formedness of this server.
    pub open spec fn wf(&self) -> bool {
        wf_model(self.model())
    }

    /// Start the one-shot listener: listening after a successful bind,
    /// aborted after a bind failure (no retry — retrying silently could
    /// mask a configuration problem).
    pub fn start(bind_ok: bool) -> (s: Self)
        ensures
            s.wf(),
            s.model() == fresh_model(bind_ok),
    {
        CallbackServer {
            phase: if bind_ok {
                ServerPhase::Listening
            } else {
                ServerPhase::Aborted
            },
            outcome: None,
            exchange: None,
            signals: 0,
        }
    }

    /// The server's phase.
    pub fn phase(&self) -> (p: ServerPhase)
        ensures
            p == self.model().phase,
    {
        self.phase
    }

    /// The classified outcome of the one meaningful request, if it arrived.
    pub fn outcome(&self) -> (o: &Option<CallbackOutcome>)
        ensures
            self.model().outcome == match *o {
                Some(oc) => Some(outcome_model(oc)),
                None => None::<OutcomeModel>,
            },
    {
        &self.outcome
    }

    /// How many completion signals have been emitted.
    pub fn signals(&self) -> (n: u32)
        ensures
            n as nat == self.model().signals,
    {
        self.signals
    }

    /// Handle one inbound request. The browser's implicit favicon probe is
    /// answered empty and never counts as the callback, even after
    /// completion; any other request is treated as the OAuth redirect, but
    /// the state is checked before acting, so only the first one is
    /// authoritative.
    pub fn on_request(&mut self, path: &str, query: &str) -> (r: ServerReply)
        requires
            old(self).wf(),
        ensures
            final(self).wf(),
            final(self).model() == spec_on_request(
                old(self).model(),
                path@ == "/favicon.ico"@,
                form_decoded(query@),
            ),
            (path@ == "/favicon.ico"@ || !(old(self).model().phase is Listening)) ==> r
                is EmptyPage,
            (path@ != "/favicon.ico"@ && old(self).model().phase is Listening) ==> match
                lookup_last(form_decoded(query@), "code"@) {
                Some(c) => r matches ServerReply::ExchangeCode(s) && s@ == c,
                None => r is ErrorPage,
            },
    {
        if str_eq(path, "/favicon.ico") {
            return ServerReply::EmptyPage;
        }
        match self.phase {
            ServerPhase::Listening => {
                let pairs = query_params(query);
                match lookup_param(&pairs, "code") {
                    Some(code) => {
                        self.phase = ServerPhase::Handling;
                        self.outcome = Some(CallbackOutcome::Code(code.clone()));
                        ServerReply::ExchangeCode(code)
                    },
                    None => {
                        let denied = lookup_param(&pairs, "error").is_some();
                        self.phase = ServerPhase::Completed;
                        self.outcome = Some(
                            if denied {
                                CallbackOutcome::Denied
                            } else {
                                CallbackOutcome::Malformed
                            },
                        );
                        self.signals = self.signals + 1;
                        ServerReply::ErrorPage
                    },
                }
            },
            _ => ServerReply::EmptyPage,
        }
    }

    /// Record the result of the token exchange and complete. The browser
    /// interaction is over either way — an exchange failure still completes
    /// the server — and the single completion signal fires here.
    pub fn finish_exchange(&mut self, result: Result<String, ExchangeError>)
        requires
            old(self).wf(),
            old(self).model().phase is Handling,
        ensures
            final(self).wf(),
            final(self).model() == spec_finish(old(self).model(), exchange_model(result)),
    {
        self.exchange = Some(result);
        self.phase = ServerPhase::Completed;
        self.signals = self.signals + 1;
    }

    /// The flow-level result of a finished server: what the orchestrator
    /// reports for this invocation.
    pub fn conclude(&self) -> (r: Result<String, FlowError>)
        requires
            self.wf(),
            self.model().phase is Completed || self.model().phase is Aborted,
        ensures
            result_model(r) == spec_conclude(self.model()),
    {
        match self.phase {
            ServerPhase::Aborted => Err(FlowError::ConfigError),
            _ => match &self.outcome {
                Some(CallbackOutcome::Code(_)) => match &self.exchange {
                    Some(Ok(t)) => Ok(t.clone()),
                    Some(Err(ExchangeError::NetworkError)) => Err(FlowError::NetworkError),
                    Some(Err(ExchangeError::MalformedResponse)) => Err(
                        FlowError::MalformedResponse,
                    ),
                    Some(Err(ExchangeError::ProviderError(m))) => Err(
                        FlowError::ProviderError(m.clone()),
                    ),
                    None => Err(FlowError::ConfigError),
                },
                _ => Err(FlowError::ConsentDenied),
            },
        }
    }
}

/// The confirmation page rendered after a successful exchange, pointing at
/// the app's access-management page for this client id.
pub open spec fn success_page_chars(client_id: Seq<char>) -> Seq<char> {
    "<html><body><h1>All done</h1><p>Your token is on the clipboard. You can close this tab and manage this app's access at https://github.com/settings/connections/applications/"@
        + client_id + "</p></body></html>"@
}

/// Render the confirmation page for a successful exchange.
pub fn success_page(client_id: &str) -> (r: String)
    ensures
        r@ == success_page_chars(client_id@),
{
    let mut s =
        "<html><body><h1>All done</h1><p>Your token is on the clipboard. You can close this tab and manage this app's access at https://github.com/settings/connections/applications/".to_owned();
    s.append(client_id);
    s.append("</p></body></html>");
    proof {
        assert(s@ =~= success_page_chars(client_id@));
    }
    s
}

/// Render the error page shown when the redirect carried no code.
pub fn error_page() -> (r: String)
    ensures
        r@ == "<html><body><h1>Authorization failed</h1><p>No authorization code was received. You can close this tab.</p></body></html>"@,
{
    "<html><body><h1>Authorization failed</h1><p>No authorization code was received. You can close this tab.</p></body></html>".to_owned()
}

/// One interaction event seen by the running listener: a favicon probe, or
/// a callback request with its decoded query and, should the exchange be
/// needed, the exchange's result.
pub enum ServerEvent {
    Favicon,
    Callback { pairs: Seq<(Seq<char>, Seq<char>)>, exchange: ExchangeModel },
}

/// How one event transforms the abstract server: a favicon probe is routed
/// as such; a callback request is routed as authoritative, and when it
/// carries a code the exchange result completes the server.
pub open spec fn apply_event(m: ServerModel, ev: ServerEvent) -> ServerModel {
    match ev {
        ServerEvent::Favicon => spec_on_request(m, true, Seq::empty()),
        ServerEvent::Callback { pairs, exchange } => {
            let m1 = spec_on_request(m, false, pairs);
            if m1.phase is Handling {
                spec_finish(m1, exchange)
            } else {
                m1
            }
        },
    }
}

/// The abstract server after a whole sequence of events.
pub open spec fn run_events(m: ServerModel, evs: Seq<ServerEvent>) -> ServerModel
    decreases evs.len(),
{
    if evs.len() == 0 {
        m
    } else {
        run_events(apply_event(m, evs[0]), evs.drop_first())
    }
}

/// Whether some event in the sequence is a callback request.
pub open spec fn has_callback(evs: Seq<ServerEvent>) -> bool {
    exists|i: int| 0 <= i < evs.len() && evs[i] is Callback
}

/// A settled server — completed or aborted — ignores every further event.
pub proof fn lemma_settled_absorbs(m: ServerModel, evs: Seq<ServerEvent>)
    requires
        m.phase is Completed || m.phase is Aborted,
    ensures
        run_events(m, evs) == m,
    decreases evs.len(),
{
    if evs.len() > 0 {
        assert(apply_event(m, evs[0]) == m);
        lemma_settled_absorbs(m, evs.drop_first());
    }
}

/// Law: the completion signal fires exactly once per flow invocation. A
/// listening server taken through any sequence of events emits exactly one
/// signal if some callback request arrived, and none otherwise — no matter
/// how many favicon probes came before, between or after.
pub proof fn lemma_signal_fires_once(m: ServerModel, evs: Seq<ServerEvent>)
    requires
        m.phase is Listening,
        m.signals == 0,
    ensures
        run_events(m, evs).signals == if has_callback(evs) {
            1nat
        } else {
            0nat
        },
    decreases evs.len(),
{
    if evs.len() > 0 {
        let rest = evs.drop_first();
        match evs[0] {
            ServerEvent::Favicon => {
                assert(apply_event(m, evs[0]) == m);
                lemma_signal_fires_once(m, rest);
                assert(has_callback(evs) == has_callback(rest)) by {
                    if has_callback(rest) {
                        let j = choose|j: int| 0 <= j < rest.len() && rest[j] is Callback;
                        assert(evs[j + 1] is Callback);
                    }
                    if has_callback(evs) {
                        let i = choose|i: int| 0 <= i < evs.len() && evs[i] is Callback;
                        assert(i != 0);
                        assert(rest[i - 1] is Callback);
                    }
                }
            },
            ServerEvent::Callback { pairs, exchange } => {
                let m2 = apply_event(m, evs[0]);
                assert(m2.phase is Completed && m2.signals == 1);
                lemma_settled_absorbs(m2, rest);
                assert(has_callback(evs));
            },
        }
    }
}

/// Law: a transport failure during the token exchange still completes the
/// server — the browser sees its page — and the flow reports the network
/// error.
pub proof fn lemma_transport_failure_completes(m: ServerModel, pairs: Seq<(Seq<char>, Seq<char>)>)
    requires
        wf_model(m),
        m.phase is Listening,
        lookup_last(pairs, "code"@) is Some,
    ensures
        apply_event(m, ServerEvent::Callback { pairs, exchange: ExchangeModel::NetFailed }).phase
            is Completed,
        spec_conclude(
            apply_event(m, ServerEvent::Callback { pairs, exchange: ExchangeModel::NetFailed }),
        ) == FlowOutcomeModel::Fail(FlowFailureModel::Net),
{
}

} // verus!
