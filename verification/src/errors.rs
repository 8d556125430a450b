use vstd::prelude::*;

verus! {

/// Every way one flow invocation can fail. All of these propagate to the
/// top and end the invocation; none is recovered silently.
#[derive(Clone, Debug, PartialEq, Eq)]
pub enum FlowError {
    /// Bad or missing credentials, or an unusable port: fatal before any
    /// network activity.
    ConfigError,
    /// The user declined consent (or the redirect carried no code): a
    /// user-level outcome, not a bug.
    ConsentDenied,
    /// No browser could be opened for the authorization URL.
    BrowserLaunchError,
    /// The token exchange failed in transport.
    NetworkError,
    /// The token endpoint's response was not the expected shape.
    MalformedResponse,
    /// The provider refused the exchange, with its error token.
    ProviderError(String),
}

/// The abstract form of a flow failure.
pub enum FlowFailureModel {
    Config,
    Consent,
    Browser,
    Net,
    BadBody,
    Provider(Seq<char>),
}

/// The abstract form of a finished flow: a token, or a failure.
pub enum FlowOutcomeModel {
    Token(Seq<char>),
    Fail(FlowFailureModel),
}

/// The abstract form of a flow error.
pub open spec fn flow_error_model(e: FlowError) -> FlowFailureModel {
    match e {
        FlowError::ConfigError => FlowFailureModel::Config,
        FlowError::ConsentDenied => FlowFailureModel::Consent,
        FlowError::BrowserLaunchError => FlowFailureModel::Browser,
        FlowError::NetworkError => FlowFailureModel::Net,
        FlowError::MalformedResponse => FlowFailureModel::BadBody,
        FlowError::ProviderError(m) => FlowFailureModel::Provider(m@),
    }
}

/// The abstract form of a flow result.
pub open spec fn result_model(r: Result<String, FlowError>) -> FlowOutcomeModel {
    match r {
        Ok(t) => FlowOutcomeModel::Token(t@),
        Err(e) => FlowOutcomeModel::Fail(flow_error_model(e)),
    }
}

} // verus!
