use vstd::prelude::*;

use crate::record::texts;

verus! {

/// The identifiers a request names: the values of its query parameters
/// whose key is `showid`, in order, repeats included.
pub open spec fn ids_in_query(pairs: Seq<(Seq<char>, Seq<char>)>) -> Seq<Seq<char>>
    decreases pairs.len(),
{
    if pairs.len() == 0 {
        Seq::empty()
    } else {
        let earlier = ids_in_query(pairs.drop_last());
        if pairs.last().0 == "showid"@ {
            earlier.push(pairs.last().1)
        } else {
            earlier
        }
    }
}

/// Name-value pairs as texts.
pub open spec fn pairs_view(pairs: Seq<(String, String)>) -> Seq<(Seq<char>, Seq<char>)> {
    pairs.map_values(|p: (String, String)| (p.0@, p.1@))
}

/// Picks the requested identifiers out of a request's query parameters.
pub fn requested_ids(pairs: &Vec<(String, String)>) -> (r: Vec<String>)
    ensures
        texts(r@) == ids_in_query(pairs_view(pairs@)),
{
    let key = "showid".to_owned();
    let mut out: Vec<String> = Vec::new();
    let mut i: usize = 0;
    while i < pairs.len()
        invariant
            i <= pairs@.len(),
            key@ == "showid"@,
            texts(out@) == ids_in_query(pairs_view(pairs@).take(i as int)),
        decreases pairs@.len() - i,
    {
        assert(pairs_view(pairs@).take(i as int + 1).drop_last() =~= pairs_view(pairs@).take(i as int));
        if pairs[i].0 == key {
            out.push(pairs[i].1.clone());
            assert(texts(out@) =~= ids_in_query(pairs_view(pairs@).take(i as int)).push(pairs@[i as int].1@));
        }
        i = i + 1;
    }
    assert(pairs_view(pairs@).take(i as int) =~= pairs_view(pairs@));
    out
}

/// The cross-origin headers every answer carries: any origin, with
/// credentials, for GET and OPTIONS, with any request header.
pub open spec fn cors() -> Seq<(Seq<char>, Seq<char>)> {
    seq![
        ("Access-Control-Allow-Origin"@, "*"@),
        ("Access-Control-Allow-Credentials"@, "true"@),
        ("Access-Control-Allow-Methods"@, "GET, OPTIONS"@),
        ("Access-Control-Allow-Headers"@, "*"@),
    ]
}

/// The cross-origin headers, as names and values.
pub fn cors_headers() -> (r: Vec<(String, String)>)
    ensures
        pairs_view(r@) == cors(),
{
    let mut out: Vec<(String, String)> = Vec::new();
    out.push(("Access-Control-Allow-Origin".to_owned(), "*".to_owned()));
    out.push(("Access-Control-Allow-Credentials".to_owned(), "true".to_owned()));
    out.push(("Access-Control-Allow-Methods".to_owned(), "GET, OPTIONS".to_owned()));
    out.push(("Access-Control-Allow-Headers".to_owned(), "*".to_owned()));
    assert(pairs_view(out@) =~= cors());
    out
}

/// An answer with a plain-text body.
pub struct PlainReply {
    pub status: u16,
    pub body: String,
    pub headers: Vec<(String, String)>,
}

/// The answer to a cross-origin preflight (an OPTIONS request): success,
/// an empty body and the cross-origin headers, with nothing else done.
pub fn preflight() -> (r: PlainReply)
    ensures
        r.status == 200,
        r.body@.len() == 0,
        pairs_view(r.headers@) == cors(),
{
    PlainReply { status: 200, body: String::new(), headers: cors_headers() }
}

/// The answer to a request that names no show: a client error with the
/// reason as text, and the cross-origin headers.
pub fn missing_ids_reply() -> (r: PlainReply)
    ensures
        r.status == 400,
        r.body@ == "No showid query parameter provided"@,
        pairs_view(r.headers@) == cors(),
{
    PlainReply {
        status: 400,
        body: "No showid query parameter provided".to_owned(),
        headers: cors_headers(),
    }
}

} // verus!
