//! Query-string handling: the percent-decoded (name, value) pairs of a
//! query string, and the last-one-wins lookup of the `wait` parameter.

use vstd::prelude::*;
use url::form_urlencoded;

verus! {

/// The (name, value) pairs that `form_urlencoded::parse` yields on a query
/// string, in order of appearance, names and values percent-decoded.
pub uninterp spec fn query_pairs(q: Seq<char>) -> Seq<(Seq<char>, Seq<char>)>;

/// Relies on url's `form_urlencoded::parse`: it splits a query string on `&`
/// and `=`, percent-decodes each name and value, and yields the pairs in
/// order; the result depends on the input characters alone, and an empty
/// input yields no pairs.
#[verifier::external_body]
fn parse_query_pairs(q: &str) -> (r: Vec<(String, String)>)
    ensures
        r@.len() == query_pairs(q@).len(),
        forall|i: int|
            0 <= i < r@.len() ==> (#[trigger] r@[i]).0@ == query_pairs(q@)[i].0 && r@[i].1@
                == query_pairs(q@)[i].1,
        q@.len() == 0 ==> r@.len() == 0,
{
    form_urlencoded::parse(q.as_bytes()).into_owned().collect()
}

/// The value of the last pair whose name is `key`, if any.
pub open spec fn last_value_for(pairs: Seq<(Seq<char>, Seq<char>)>, key: Seq<char>) -> Option<
    Seq<char>,
>
    decreases pairs.len(),
{
    if pairs.len() == 0 {
        None
    } else if pairs.last().0 == key {
        Some(pairs.last().1)
    } else {
        last_value_for(pairs.drop_last(), key)
    }
}

/// The `wait` parameter of a query string; when the key repeats, the last
/// occurrence wins, deterministically.
pub open spec fn wait_value(q: Seq<char>) -> Option<Seq<char>> {
    last_value_for(query_pairs(q), "wait"@)
}

/// Finds the `wait` parameter of the query string `q`.
pub fn lookup_wait(q: &str) -> (r: Option<String>)
    ensures
        r is Some <==> wait_value(q@) is Some,
        r matches Some(v) ==> wait_value(q@) == Some(v@),
{
    let pairs = parse_query_pairs(q);
    let key: String = String::from_str("wait");
    let ghost ps = query_pairs(q@);
    let mut found: Option<String> = None;
    let mut i: usize = 0;
    while i < pairs.len()
        invariant
            i <= pairs.len(),
            key@ == "wait"@,
            pairs@.len() == ps.len(),
            forall|j: int|
                0 <= j < pairs@.len() ==> (#[trigger] pairs@[j]).0@ == ps[j].0 && pairs@[j].1@
                    == ps[j].1,
            match found {
                None => last_value_for(ps.take(i as int), "wait"@) is None,
                Some(v) => last_value_for(ps.take(i as int), "wait"@) == Some(v@),
            },
        decreases pairs.len() - i,
    {
        proof {
            assert(ps.take(i + 1).drop_last() =~= ps.take(i as int));
            assert(ps.take(i + 1).last() == ps[i as int]);
        }
        if pairs[i].0 == key {
            found = Some(pairs[i].1.clone());
        }
        i = i + 1;
    }
    proof {
        assert(ps.take(ps.len() as int) =~= ps);
    }
    found
}

} // verus!
