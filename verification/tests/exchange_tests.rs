use octopat::exchange::{classify_exchange, token_endpoint, token_request_form, ExchangeError, TokenReply};

#[test]
fn transport_failure_is_a_network_error() {
    assert_eq!(
        classify_exchange(TokenReply::TransportFailed),
        Err(ExchangeError::NetworkError)
    );
}

#[test]
fn unparseable_body_is_malformed() {
    assert_eq!(
        classify_exchange(TokenReply::Unparseable),
        Err(ExchangeError::MalformedResponse)
    );
}

#[test]
fn token_field_succeeds() {
    assert_eq!(
        classify_exchange(TokenReply::Json {
            access_token: Some("tok".to_string()),
            error: None,
        }),
        Ok("tok".to_string())
    );
}

#[test]
fn provider_error_wins_over_token() {
    assert_eq!(
        classify_exchange(TokenReply::Json {
            access_token: Some("tok".to_string()),
            error: Some("bad_verification_code".to_string()),
        }),
        Err(ExchangeError::ProviderError("bad_verification_code".to_string()))
    );
}

#[test]
fn empty_object_is_malformed() {
    assert_eq!(
        classify_exchange(TokenReply::Json { access_token: None, error: None }),
        Err(ExchangeError::MalformedResponse)
    );
}

#[test]
fn exchange_request_shape() {
    assert_eq!(token_endpoint(), "https://github.com/login/oauth/access_token");
    let form = token_request_form("id", "secret", "code-1");
    assert_eq!(
        form,
        vec![
            ("client_id".to_string(), "id".to_string()),
            ("client_secret".to_string(), "secret".to_string()),
            ("code".to_string(), "code-1".to_string()),
        ]
    );
}
