use vstd::prelude::*;
use vstd::string::StringExecFns;
use crate::scope::Scope;

verus! {

/// The decimal digit character for `d`.
pub open spec fn dec_digit(d: int) -> char {
    if d == 0 {
        '0'
    } else if d == 1 {
        '1'
    } else if d == 2 {
        '2'
    } else if d == 3 {
        '3'
    } else if d == 4 {
        '4'
    } else if d == 5 {
        '5'
    } else if d == 6 {
        '6'
    } else if d == 7 {
        '7'
    } else if d == 8 {
        '8'
    } else {
        '9'
    }
}

/// The decimal numeral for `n`, most significant digit first, without
/// leading zeros (the numeral for zero is "0").
pub open spec fn dec_rep(n: int) -> Seq<char>
    decreases n,
{
    if n < 10 {
        seq![dec_digit(n)]
    } else {
        dec_rep(n / 10).push(dec_digit(n % 10))
    }
}

fn dec_digit_str(d: u16) -> (r: &'static str)
    requires
        d < 10,
    ensures
        r@ == seq![dec_digit(d as int)],
{
    if d == 0 {
        proof {
            reveal_strlit("0");
            assert("0"@ =~= seq![dec_digit(0)]);
        }
        "0"
    } else if d == 1 {
        proof {
            reveal_strlit("1");
            assert("1"@ =~= seq![dec_digit(1)]);
        }
        "1"
    } else if d == 2 {
        proof {
            reveal_strlit("2");
            assert("2"@ =~= seq![dec_digit(2)]);
        }
        "2"
    } else if d == 3 {
        proof {
            reveal_strlit("3");
            assert("3"@ =~= seq![dec_digit(3)]);
        }
        "3"
    } else if d == 4 {
        proof {
            reveal_strlit("4");
            assert("4"@ =~= seq![dec_digit(4)]);
        }
        "4"
    } else if d == 5 {
        proof {
            reveal_strlit("5");
            assert("5"@ =~= seq![dec_digit(5)]);
        }
        "5"
    } else if d == 6 {
        proof {
            reveal_strlit("6");
            assert("6"@ =~= seq![dec_digit(6)]);
        }
        "6"
    } else if d == 7 {
        proof {
            reveal_strlit("7");
            assert("7"@ =~= seq![dec_digit(7)]);
        }
        "7"
    } else if d == 8 {
        proof {
            reveal_strlit("8");
            assert("8"@ =~= seq![dec_digit(8)]);
        }
        "8"
    } else {
        proof {
            reveal_strlit("9");
            assert("9"@ =~= seq![dec_digit(9)]);
        }
        "9"
    }
}

/// Render a port number as its decimal numeral.
pub fn u16_to_dec(n: u16) -> (r: String)
    ensures
        r@ == dec_rep(n as int),
    decreases n,
{
    if n < 10 {
        dec_digit_str(n).to_owned()
    } else {
        let mut s = u16_to_dec(n / 10);
        let d = dec_digit_str(n % 10);
        s.append(d);
        proof {
            assert(dec_rep((n / 10) as int).push(dec_digit((n % 10) as int)) =~= dec_rep(
                (n / 10) as int,
            ) + d@);
        }
        s
    }
}

/// The value of the `scope` query parameter: the wire-format scope tokens
/// joined in the order supplied, with `%20` as the separator.
pub open spec fn scope_query_value(scopes: Seq<Scope>) -> Seq<char>
    decreases scopes.len(),
{
    if scopes.len() == 0 {
        Seq::empty()
    } else if scopes.len() == 1 {
        scopes[0].wire_spec()
    } else {
        scope_query_value(scopes.drop_last()) + "%20"@ + scopes.last().wire_spec()
    }
}

/// Join the selected scopes into the `scope` query parameter value.
pub fn scope_query(scopes: &Vec<Scope>) -> (r: String)
    ensures
        r@ == scope_query_value(scopes@),
{
    let mut s = String::new();
    let mut i: usize = 0;
    while i < scopes.len()
        invariant
            i <= scopes@.len(),
            s@ == scope_query_value(scopes@.take(i as int)),
        decreases scopes@.len() - i,
    {
        if i > 0 {
            s.append("%20");
        }
        let w = scopes[i].wire();
        s.append(w.as_str());
        proof {
            let taken = scopes@.take(i + 1);
            assert(taken.drop_last() =~= scopes@.take(i as int));
            assert(taken.last() == scopes@[i as int]);
            if i == 0 {
                assert(s@ =~= scope_query_value(taken));
            } else {
                assert(s@ =~= scope_query_value(taken.drop_last()) + "%20"@ + taken.last().wire_spec());
            }
        }
        i += 1;
    }
    proof {
        assert(scopes@.take(scopes@.len() as int) =~= scopes@);
    }
    s
}

/// The full browser-navigation URL for the authorization endpoint: the
/// loopback redirect URI is always `http://localhost:{port}/`, and the
/// `scope` parameter is always present, empty when no scope was selected.
pub open spec fn auth_url_chars(client_id: Seq<char>, scopes: Seq<Scope>, port: u16) -> Seq<char> {
    "https://github.com/login/oauth/authorize?client_id="@ + client_id
        + "&redirect_uri=http://localhost:"@ + dec_rep(port as int) + "/&scope="@
        + scope_query_value(scopes)
}

/// Build the authorization URL from the client id, the selected scopes (in
/// selection order) and the callback port.
pub fn authorization_url(client_id: &str, scopes: Vec<Scope>, port: u16) -> (r: String)
    ensures
        r@ == auth_url_chars(client_id@, scopes@, port),
{
    let mut s = "https://github.com/login/oauth/authorize?client_id=".to_owned();
    s.append(client_id);
    s.append("&redirect_uri=http://localhost:");
    let p = u16_to_dec(port);
    s.append(p.as_str());
    s.append("/&scope=");
    let q = scope_query(&scopes);
    s.append(q.as_str());
    proof {
        assert(s@ =~= auth_url_chars(client_id@, scopes@, port));
    }
    s
}

} // verus!
