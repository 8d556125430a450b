use vstd::prelude::*;

verus! {

/// GitHub app credentials, opaque strings owned by the external credential
/// store; immutable input for the duration of one flow.
#[derive(Clone)]
pub struct App {
    pub client_id: String,
    pub client_secret: String,
}

/// Why a code-for-token exchange failed. Authorization codes are single-use
/// and short-lived, so none of these is ever retried.
#[derive(Clone, Debug, PartialEq, Eq)]
pub enum ExchangeError {
    /// The POST to the token endpoint failed in transport.
    NetworkError,
    /// The response body could not be read as the expected
    /// `{access_token}` shape.
    MalformedResponse,
    /// The provider's JSON payload indicates an error
    /// (e.g. `bad_verification_code`).
    ProviderError(String),
}

/// What the HTTP layer got back from the token endpoint, reduced to plain
/// values: transport failure, an unparseable body, or the fields of the
/// response's JSON object.
pub enum TokenReply {
    TransportFailed,
    Unparseable,
    Json { access_token: Option<String>, error: Option<String> },
}

/// The abstract form of an exchange result.
pub enum ExchangeModel {
    Token(Seq<char>),
    NetFailed,
    BadBody,
    Refused(Seq<char>),
}

/// The abstract form of an exchange result value.
pub open spec fn exchange_model(r: Result<String, ExchangeError>) -> ExchangeModel {
    match r {
        Ok(t) => ExchangeModel::Token(t@),
        Err(ExchangeError::NetworkError) => ExchangeModel::NetFailed,
        Err(ExchangeError::MalformedResponse) => ExchangeModel::BadBody,
        Err(ExchangeError::ProviderError(m)) => ExchangeModel::Refused(m@),
    }
}

/// The token endpoint the exchange POSTs to.
pub fn token_endpoint() -> (r: String)
    ensures
        r@ == "https://github.com/login/oauth/access_token"@,
{
    "https://github.com/login/oauth/access_token".to_owned()
}

/// The form fields of the exchange request, in order: `client_id`,
/// `client_secret`, `code`.
pub fn token_request_form(client_id: &str, client_secret: &str, code: &str) -> (r: Vec<
    (String, String),
>)
    ensures
        r@.len() == 3,
        r@[0].0@ == "client_id"@ && r@[0].1@ == client_id@,
        r@[1].0@ == "client_secret"@ && r@[1].1@ == client_secret@,
        r@[2].0@ == "code"@ && r@[2].1@ == code@,
{
    let mut v: Vec<(String, String)> = Vec::new();
    v.push(("client_id".to_owned(), client_id.to_owned()));
    v.push(("client_secret".to_owned(), client_secret.to_owned()));
    v.push(("code".to_owned(), code.to_owned()));
    v
}

/// The outcome of the exchange, given what the HTTP layer got back: a
/// provider-indicated error wins over a token, a token without an error
/// succeeds, and a JSON object with neither is malformed.
pub fn classify_exchange(reply: TokenReply) -> (r: Result<String, ExchangeError>)
    ensures
        r == match reply {
            TokenReply::TransportFailed => Err::<String, ExchangeError>(
                ExchangeError::NetworkError,
            ),
            TokenReply::Unparseable => Err::<String, ExchangeError>(
                ExchangeError::MalformedResponse,
            ),
            TokenReply::Json { access_token, error } => if error is Some {
                Err::<String, ExchangeError>(ExchangeError::ProviderError(error->0))
            } else if access_token is Some {
                Ok::<String, ExchangeError>(access_token->0)
            } else {
                Err::<String, ExchangeError>(ExchangeError::MalformedResponse)
            },
        },
{
    match reply {
        TokenReply::TransportFailed => Err(ExchangeError::NetworkError),
        TokenReply::Unparseable => Err(ExchangeError::MalformedResponse),
        TokenReply::Json { access_token, error } => match error {
            Some(e) => Err(ExchangeError::ProviderError(e)),
            None => match access_token {
                Some(t) => Ok(t),
                None => Err(ExchangeError::MalformedResponse),
            },
        },
    }
}

} // verus!
