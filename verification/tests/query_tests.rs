use octopat::query::{query_param, query_params};

#[test]
fn request_query_params() {
    let url = url::Url::parse("https://foo.bar?baz=boom").unwrap();
    let query = url.query().unwrap();
    let expect = vec![("baz".to_string(), "boom".to_string())];
    assert_eq!(query_params(query), expect);
}

#[test]
fn request_query_param() {
    let url = url::Url::parse("https://foo.bar?baz=boom").unwrap();
    let query = url.query().unwrap();
    assert_eq!(query_param(query, "baz"), Some("boom".into()));
}

#[test]
fn missing_parameter_is_none() {
    assert_eq!(query_param("baz=boom", "code"), None);
    assert_eq!(query_param("", "code"), None);
}

#[test]
fn later_duplicate_overrides_earlier() {
    assert_eq!(query_param("a=1&a=2", "a"), Some("2".into()));
}

#[test]
fn values_are_percent_decoded() {
    assert_eq!(query_param("code=a%20b", "code"), Some("a b".into()));
    assert_eq!(query_params("x=%25try%25"), vec![("x".to_string(), "%try%".to_string())]);
}
