//! Query-string encoding, base-URL normalisation, and the transport's
//! request and response model.

use vstd::prelude::*;
use crate::json::JsonValue;
use crate::model::FromJson;
use crate::text::{int_text, push_int};

verus! {

/// The view of an optional string.
pub open spec fn opt_text(o: Option<String>) -> Option<Seq<char>> {
    match o {
        Some(s) => Some(s@),
        None => None,
    }
}

/// `key=value` for a present parameter value.
pub open spec fn param_text(key: Seq<char>, value: int) -> Seq<char> {
    key + seq!['='] + int_text(value)
}

/// The query string built from parameter fragments, left to right: absent
/// fragments are skipped, the first present one is preceded by `?` and each
/// later one by `&`.
pub open spec fn query_text(ps: Seq<Option<Seq<char>>>) -> Seq<char>
    decreases ps.len(),
{
    if ps.len() == 0 {
        Seq::empty()
    } else {
        let prev = query_text(ps.drop_last());
        match ps.last() {
            None => prev,
            Some(p) => if prev.len() == 0 {
                seq!['?'] + p
            } else {
                prev + seq!['&'] + p
            },
        }
    }
}

/// `s` without its last character when that character is `/`.
pub open spec fn strip_slash(s: Seq<char>) -> Seq<char> {
    if s.len() > 0 && s.last() == '/' {
        s.drop_last()
    } else {
        s
    }
}

/// Builds the `key=value` fragment of a present value; `None` when the value
/// is absent.
pub fn param(key: &str, value: Option<i64>) -> (r: Option<String>)
    ensures
        value is None ==> r is None,
        value is Some ==> r is Some && r->Some_0@ == param_text(key@, value->Some_0 as int),
{
    match value {
        Some(v) => {
            let mut s = key.to_owned();
            proof { reveal_strlit("="); }
            s.append("=");
            push_int(v, &mut s);
            assert(s@ =~= param_text(key@, v as int));
            Some(s)
        },
        None => None,
    }
}

/// Joins the present fragments into `?a&b&...`; the empty string when none
/// is present.
pub fn params(fragments: Vec<Option<String>>) -> (r: String)
    ensures
        r@ == query_text(fragments@.map_values(|p: Option<String>| opt_text(p))),
{
    let ghost pv = fragments@.map_values(|p: Option<String>| opt_text(p));
    let mut s = String::new();
    let mut i: usize = 0;
    assert(pv.take(0) =~= Seq::<Option<Seq<char>>>::empty());
    while i < fragments.len()
        invariant
            i <= fragments.len(),
            pv == fragments@.map_values(|p: Option<String>| opt_text(p)),
            s@ == query_text(pv.take(i as int)),
        decreases fragments.len() - i,
    {
        assert(pv.take(i + 1).drop_last() =~= pv.take(i as int));
        assert(pv.take(i + 1).last() == opt_text(fragments@[i as int]));
        proof { reveal_strlit("?"); reveal_strlit("&"); }
        match &fragments[i] {
            Some(p) => {
                if s.as_str().is_empty() {
                    s.append("?");
                } else {
                    s.append("&");
                }
                s.append(p.as_str());
            },
            None => {},
        }
        assert(s@ =~= query_text(pv.take(i + 1)));
        i = i + 1;
    }
    assert(pv.take(i as int) =~= pv);
    s
}

/// Removes one trailing `/` from `s`, if there is one.
pub fn remove_trailing_slash(s: &str) -> (r: String)
    ensures
        r@ == strip_slash(s@),
{
    let n = s.unicode_len();
    if n > 0 && s.get_char(n - 1) == '/' {
        s.substring_char(0, n - 1).to_owned()
    } else {
        s.to_owned()
    }
}

/// No present fragment: the query string is empty.
pub proof fn lemma_query_all_absent(ps: Seq<Option<Seq<char>>>)
    requires
        forall|i: int| 0 <= i < ps.len() ==> (#[trigger] ps[i]) is None,
    ensures
        query_text(ps) == Seq::<char>::empty(),
    decreases ps.len(),
{
    if ps.len() > 0 {
        lemma_query_all_absent(ps.drop_last());
    }
}

/// A single `key=value` parameter encodes as `?key=value`.
pub proof fn lemma_query_single(key: Seq<char>, value: int)
    ensures
        query_text(seq![Some(param_text(key, value))]) == seq!['?'] + key + seq!['='] + int_text(value),
{
    let ps = seq![Some(param_text(key, value))];
    assert(ps.drop_last() =~= Seq::<Option<Seq<char>>>::empty());
    assert(query_text(ps.drop_last()) == Seq::<char>::empty());
    assert(query_text(ps) =~= seq!['?'] + key + seq!['='] + int_text(value));
}

/// Two present parameters encode as `?k1=v1&k2=v2`, in their order.
pub proof fn lemma_query_pair(k1: Seq<char>, v1: int, k2: Seq<char>, v2: int)
    ensures
        query_text(seq![Some(param_text(k1, v1)), Some(param_text(k2, v2))])
            == seq!['?'] + param_text(k1, v1) + seq!['&'] + param_text(k2, v2),
{
    let ps = seq![Some(param_text(k1, v1)), Some(param_text(k2, v2))];
    let first = seq![Some(param_text(k1, v1))];
    assert(ps.drop_last() =~= first);
    assert(first.drop_last() =~= Seq::<Option<Seq<char>>>::empty());
    assert(query_text(first.drop_last()) == Seq::<char>::empty());
    assert(query_text(first) =~= seq!['?'] + param_text(k1, v1));
    assert(query_text(ps) =~= seq!['?'] + param_text(k1, v1) + seq!['&'] + param_text(k2, v2));
}

/// An absent fragment anywhere in the sequence changes nothing, separators
/// included.
pub proof fn lemma_query_skips_absent(a: Seq<Option<Seq<char>>>, b: Seq<Option<Seq<char>>>)
    ensures
        query_text(a + seq![None] + b) == query_text(a + b),
    decreases b.len(),
{
    if b.len() == 0 {
        assert((a + seq![None] + b).drop_last() =~= a);
        assert(a + b =~= a);
    } else {
        let b1 = b.drop_last();
        lemma_query_skips_absent(a, b1);
        assert((a + seq![None] + b).drop_last() =~= a + seq![None] + b1);
        assert((a + b).drop_last() =~= a + b1);
        assert((a + seq![None] + b).last() == b.last());
        assert((a + b).last() == b.last());
    }
}

/// Normalising a base URL twice gives what normalising once gives, for any
/// text that does not end in two slashes.
pub proof fn lemma_strip_slash_idempotent(s: Seq<char>)
    requires
        !(s.len() >= 2 && s[s.len() - 1] == '/' && s[s.len() - 2] == '/'),
    ensures
        strip_slash(strip_slash(s)) == strip_slash(s),
{
}

} // verus!

verus! {

/// Why a request did not produce a value.
#[derive(Debug, PartialEq)]
pub enum Error {
    /// The request could not be carried out (name resolution, connection,
    /// TLS); holds the underlying cause.
    Transport(String),
    /// The service answered with a status other than 200.
    Status(u16),
    /// The response body is not JSON of the expected shape; holds what
    /// failed to decode.
    Decode(String),
}

/// A decode error naming what failed.
pub fn decode_error(what: &str) -> (r: Error)
    ensures
        r is Decode,
        r->Decode_0@ == what@,
{
    Error::Decode(what.to_owned())
}

} // verus!

verus! {

/// The HTTP methods that the service's operations use.
#[derive(Debug, Clone, Copy, PartialEq, Eq, Structural)]
pub enum Method {
    Get,
    Post,
    Delete,
}

/// The identity sent in the `X-Requested-By` header, which the service
/// requires as a guard against cross-site request forgery.
pub const REQUESTED_BY: &'static str = "livy";

/// One request to the service: method, absolute URL, optional JSON body and
/// the credential policy of the client that issued it.
#[derive(Debug, PartialEq)]
pub struct Request {
    pub method: Method,
    pub url: String,
    pub body: Option<JsonValue>,
    /// Whether to authenticate with negotiated (SPNEGO) credentials.
    pub gssnegotiate: Option<bool>,
    /// The user name to negotiate as.
    pub username: Option<String>,
}

/// The view of a header list.
pub open spec fn headers_view(h: Seq<(String, String)>) -> Seq<(Seq<char>, Seq<char>)> {
    h.map_values(|e: (String, String)| (e.0@, e.1@))
}

impl Request {
    /// The headers of the request, as views: `Content-Type: application/json`
    /// when there is a body, then `X-Requested-By`.
    pub open spec fn headers_spec(self) -> Seq<(Seq<char>, Seq<char>)> {
        if self.body is Some {
            seq![("Content-Type"@, "application/json"@), ("X-Requested-By"@, REQUESTED_BY@)]
        } else {
            seq![("X-Requested-By"@, REQUESTED_BY@)]
        }
    }

    /// The user name to authenticate as with negotiated credentials, or
    /// `None` when the request goes unauthenticated: negotiation happens only
    /// when it was asked for, and without a user name it negotiates as the
    /// empty name, leaving the choice to the credential cache.
    pub open spec fn negotiate_as_spec(self) -> Option<Seq<char>> {
        if self.gssnegotiate == Some(true) {
            match self.username {
                Some(u) => Some(u@),
                None => Some(Seq::empty()),
            }
        } else {
            None
        }
    }

    /// The user name to negotiate credentials as; `None` when the request
    /// is sent without authentication.
    pub fn negotiate_as(&self) -> (r: Option<String>)
        ensures
            opt_text(r) == self.negotiate_as_spec(),
    {
        if self.gssnegotiate == Some(true) {
            match &self.username {
                Some(u) => Some(u.clone()),
                None => Some(String::new()),
            }
        } else {
            None
        }
    }

    /// The headers to send with the request.
    pub fn headers(&self) -> (r: Vec<(String, String)>)
        ensures
            headers_view(r@) == self.headers_spec(),
    {
        let mut h: Vec<(String, String)> = Vec::new();
        if self.body.is_some() {
            h.push(("Content-Type".to_owned(), "application/json".to_owned()));
        }
        h.push(("X-Requested-By".to_owned(), REQUESTED_BY.to_owned()));
        assert(headers_view(h@) =~= self.headers_spec());
        h
    }
}

/// What came back for a request that reached the service: the status code,
/// and the body read as JSON or the reason it could not be.
#[derive(Debug, PartialEq)]
pub struct Response {
    pub status: u16,
    pub body: Result<JsonValue, String>,
}

/// Only status 200 is success; any other status is an error carrying it.
pub fn check_status(status: u16) -> (r: Result<(), Error>)
    ensures
        r is Ok <==> status == 200,
        r is Err ==> r->Err_0 == Error::Status(status),
{
    if status == 200 {
        Ok(())
    } else {
        Err(Error::Status(status))
    }
}

/// Classifies the outcome of one request and decodes its value: a failure
/// to carry out the request is a transport error, a status other than 200 a
/// status error, and a body that is not JSON or not of `T`'s shape a decode
/// error.
pub fn receive<T: FromJson>(outcome: Result<Response, String>) -> (r: Result<T, Error>)
    ensures
        match outcome {
            Err(cause) => r == Err::<T, Error>(Error::Transport(cause)),
            Ok(resp) => if resp.status != 200 {
                r == Err::<T, Error>(Error::Status(resp.status))
            } else {
                match resp.body {
                    Err(detail) => r == Err::<T, Error>(Error::Decode(detail)),
                    Ok(v) => {
                        &&& r is Ok <==> T::decodes(v)
                        &&& r is Ok ==> r->Ok_0.decoded_from(v)
                        &&& r is Err ==> r->Err_0 is Decode
                    },
                }
            },
        },
{
    match outcome {
        Err(cause) => Err(Error::Transport(cause)),
        Ok(resp) => {
            check_status(resp.status)?;
            match resp.body {
                Err(detail) => Err(Error::Decode(detail)),
                Ok(v) => T::from_json(&v),
            }
        },
    }
}

} // verus!
