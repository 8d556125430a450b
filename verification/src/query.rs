use vstd::prelude::*;

verus! {

/// What `application/x-www-form-urlencoded` parsing yields on a query
/// string: its (name, value) pairs, percent-decoded, in the order they
/// appear.
pub uninterp spec fn form_decoded(q: Seq<char>) -> Seq<(Seq<char>, Seq<char>)>;

/// The views of an owned pair list.
pub open spec fn pair_views(pairs: Seq<(String, String)>) -> Seq<(Seq<char>, Seq<char>)> {
    pairs.map_values(|p: (String, String)| (p.0@, p.1@))
}

/// Relies on url::form_urlencoded::parse: the decoded pairs are a function
/// of the query string alone, and an empty query string holds no pairs.
#[verifier::external_body]
fn parse_query(q: &str) -> (r: Vec<(String, String)>)
    ensures
        pair_views(r@) == form_decoded(q@),
        q@.len() == 0 ==> r@.len() == 0,
{
    url::form_urlencoded::parse(q.as_bytes()).into_owned().collect()
}

/// Whether two string slices hold the same characters.
pub fn str_eq(a: &str, b: &str) -> (r: bool)
    ensures
        r == (a@ == b@),
{
    a.to_owned() == b.to_owned()
}

/// The decoded (name, value) pairs of a query string.
pub fn query_params(q: &str) -> (r: Vec<(String, String)>)
    ensures
        pair_views(r@) == form_decoded(q@),
{
    parse_query(q)
}

/// The value bound to `key` among decoded pairs: the value of the last pair
/// with that name, as a later duplicate overrides an earlier one.
pub open spec fn lookup_last(pairs: Seq<(Seq<char>, Seq<char>)>, key: Seq<char>) -> Option<
    Seq<char>,
>
    decreases pairs.len(),
{
    if pairs.len() == 0 {
        None
    } else if pairs.last().0 == key {
        Some(pairs.last().1)
    } else {
        lookup_last(pairs.drop_last(), key)
    }
}

/// Look a parameter up in a query string by name.
pub fn query_param(q: &str, name: &str) -> (r: Option<String>)
    ensures
        match r {
            Some(v) => lookup_last(form_decoded(q@), name@) == Some(v@),
            None => lookup_last(form_decoded(q@), name@) is None,
        },
{
    let pairs = query_params(q);
    lookup_param(&pairs, name)
}

/// Look a parameter up among decoded pairs by name; the last pair with that
/// name wins.
pub fn lookup_param(pairs: &Vec<(String, String)>, name: &str) -> (r: Option<String>)
    ensures
        match r {
            Some(v) => lookup_last(pair_views(pairs@), name@) == Some(v@),
            None => lookup_last(pair_views(pairs@), name@) is None,
        },
{
    let key = name.to_owned();
    let mut r: Option<String> = None;
    let mut i: usize = 0;
    while i < pairs.len()
        invariant
            i <= pairs@.len(),
            key@ == name@,
            match r {
                Some(v) => lookup_last(pair_views(pairs@).take(i as int), name@) == Some(v@),
                None => lookup_last(pair_views(pairs@).take(i as int), name@) is None,
            },
        decreases pairs@.len() - i,
    {
        if pairs[i].0 == key {
            r = Some(pairs[i].1.clone());
        }
        proof {
            let m = pair_views(pairs@);
            assert(m.take(i + 1).drop_last() =~= m.take(i as int));
            assert(m.take(i + 1).last() == m[i as int]);
        }
        i += 1;
    }
    proof {
        assert(pair_views(pairs@).take(pairs@.len() as int) =~= pair_views(pairs@));
    }
    r
}

} // verus!
