use octopat::authorize::{authorization_url, scope_query, u16_to_dec};
use octopat::opts::Opts;
use octopat::scope::Scope;

#[test]
fn auth_url_returns_expected_url() {
    assert_eq!(
        authorization_url("client_id", vec![Scope::AdminOrg, Scope::AdminRepoHook], 4567),
        "https://github.com/login/oauth/authorize?client_id=client_id&redirect_uri=http://localhost:4567/&scope=admin:org%20admin:repo_hook"
    )
}

#[test]
fn auth_url_keeps_scope_parameter_when_empty() {
    assert_eq!(
        authorization_url("abc", vec![], 4567),
        "https://github.com/login/oauth/authorize?client_id=abc&redirect_uri=http://localhost:4567/&scope="
    )
}

#[test]
fn auth_url_preserves_selection_order() {
    assert_eq!(
        authorization_url("abc", vec![Scope::Gist, Scope::Repo], 80),
        "https://github.com/login/oauth/authorize?client_id=abc&redirect_uri=http://localhost:80/&scope=gist%20repo"
    )
}

#[test]
fn scope_query_joins_with_percent_twenty() {
    assert_eq!(scope_query(&vec![]), "");
    assert_eq!(scope_query(&vec![Scope::Repo]), "repo");
    assert_eq!(
        scope_query(&vec![Scope::Repo, Scope::Gist, Scope::User]),
        "repo%20gist%20user"
    );
}

#[test]
fn ports_render_in_decimal() {
    assert_eq!(u16_to_dec(0), "0");
    assert_eq!(u16_to_dec(7), "7");
    assert_eq!(u16_to_dec(80), "80");
    assert_eq!(u16_to_dec(4567), "4567");
    assert_eq!(u16_to_dec(65535), "65535");
}

#[test]
fn opts_fall_back_to_defaults() {
    let opts = Opts { port: None, alias: None };
    assert_eq!(opts.effective_port(), 4567);
    assert_eq!(opts.effective_alias(), "default");
    let opts = Opts { port: Some(9999), alias: Some("work".to_string()) };
    assert_eq!(opts.effective_port(), 9999);
    assert_eq!(opts.effective_alias(), "work");
}
