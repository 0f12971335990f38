//! The client: a base URL and a credential policy, fixed at construction,
//! and the service's operations, each as the request it sends.

use vstd::prelude::*;
use crate::http::{opt_text, param, param_text, params, query_text, remove_trailing_slash, strip_slash, Method, Request};
use crate::json::JsonValue;
use crate::request::{members_view, Field, NewBatchRequest, NewSessionRequest, RunStatementRequest};
use crate::text::{int_text, push_int};

verus! {

/// The fragment of an optional paging parameter.
pub open spec fn page_param(key: Seq<char>, value: Option<i64>) -> Option<Seq<char>> {
    match value {
        Some(v) => Some(param_text(key, v as int)),
        None => None,
    }
}

/// The query string of the `from` and `size` paging parameters.
pub open spec fn page_query(from: Option<i64>, size: Option<i64>) -> Seq<char> {
    query_text(seq![page_param("from"@, from), page_param("size"@, size)])
}

fn page_params(from: Option<i64>, size: Option<i64>) -> (r: String)
    ensures
        r@ == page_query(from, size),
{
    let f = param("from", from);
    let s = param("size", size);
    let v = vec![f, s];
    let r = params(v);
    assert(v@.map_values(|p: Option<String>| opt_text(p)) =~= seq![page_param("from"@, from), page_param("size"@, size)]);
    r
}

/// A client of the service.
#[derive(Debug, PartialEq)]
pub struct Client {
    url: String,
    gssnegotiate: Option<bool>,
    username: Option<String>,
}

impl Client {
    /// The base URL, without the trailing slash it was given with.
    pub closed spec fn url_spec(self) -> Seq<char> {
        self.url@
    }

    /// The credential policy: whether to negotiate credentials.
    pub closed spec fn gssnegotiate_spec(self) -> Option<bool> {
        self.gssnegotiate
    }

    /// The credential policy: the user name to negotiate as.
    pub closed spec fn username_spec(self) -> Option<Seq<char>> {
        opt_text(self.username)
    }

    /// Whether `r` is the request this client sends with `method` to the
    /// base URL followed by `path`, under its credential policy.
    pub open spec fn issued(self, r: Request, method: Method, path: Seq<char>) -> bool {
        &&& r.method == method
        &&& r.url@ == self.url_spec() + path
        &&& r.gssnegotiate == self.gssnegotiate_spec()
        &&& opt_text(r.username) == self.username_spec()
    }

    /// Makes a client for the service at `url`; one trailing `/` is removed.
    pub fn new(url: &str, gssnegotiate: Option<bool>, username: Option<String>) -> (r: Client)
        ensures
            r.url_spec() == strip_slash(url@),
            r.gssnegotiate_spec() == gssnegotiate,
            r.username_spec() == opt_text(username),
    {
        Client { url: remove_trailing_slash(url), gssnegotiate, username }
    }

    /// The base URL.
    pub fn url(&self) -> (r: &str)
        ensures
            r@ == self.url_spec(),
    {
        self.url.as_str()
    }

    /// Whether requests negotiate credentials.
    pub fn gssnegotiate(&self) -> (r: Option<bool>)
        ensures
            r == self.gssnegotiate_spec(),
    {
        self.gssnegotiate
    }

    /// The user name that requests negotiate as.
    pub fn username(&self) -> (r: Option<&str>)
        ensures
            match r {
                Some(s) => self.username_spec() == Some(s@),
                None => self.username_spec() is None,
            },
    {
        match &self.username {
            Some(s) => Some(s.as_str()),
            None => None,
        }
    }

    /// The request with `method` to the base URL followed by `path`.
    fn request(&self, method: Method, path: String, body: Option<JsonValue>) -> (r: Request)
        ensures
            self.issued(r, method, path@),
            r.body == body,
    {
        let mut url = self.url.clone();
        url.append(path.as_str());
        let username = match &self.username {
            Some(u) => Some(u.clone()),
            None => None,
        };
        Request { method, url, body, gssnegotiate: self.gssnegotiate, username }
    }

    /// Lists interactive sessions.
    ///
    /// `GET /sessions` with the `from` and `size` parameters.
    pub fn get_sessions(&self, from: Option<i64>, size: Option<i64>) -> (r: Request)
        ensures
            self.issued(r, Method::Get, "/sessions"@ + page_query(from, size)),
            r.body is None,
    {
        let mut path = "/sessions".to_owned();
        path.append(page_params(from, size).as_str());
        assert(path@ =~= "/sessions"@ + page_query(from, size));
        self.request(Method::Get, path, None)
    }

    /// Creates an interactive session.
    ///
    /// `POST /sessions`
    pub fn create_session(&self, new_session_request: NewSessionRequest) -> (r: Request)
        ensures
            self.issued(r, Method::Post, "/sessions"@),
            r.body is Some && r.body->Some_0 is Object,
            members_view(r.body->Some_0->Object_0@) == new_session_request.members_spec(),
    {
        let mut path = "/sessions".to_owned();
        assert(path@ =~= "/sessions"@);
        let body = new_session_request.to_json();
        self.request(Method::Post, path, Some(body))
    }

    /// Gets one interactive session.
    ///
    /// `GET /sessions/{session_id}`
    pub fn get_session(&self, session_id: i64) -> (r: Request)
        ensures
            self.issued(r, Method::Get, "/sessions/"@ + int_text(session_id as int)),
            r.body is None,
    {
        let mut path = "/sessions/".to_owned();
        push_int(session_id, &mut path);
        assert(path@ =~= "/sessions/"@ + int_text(session_id as int));
        self.request(Method::Get, path, None)
    }

    /// Gets the state of one interactive session.
    ///
    /// `GET /sessions/{session_id}/state`
    pub fn get_session_state(&self, session_id: i64) -> (r: Request)
        ensures
            self.issued(r, Method::Get, "/sessions/"@ + int_text(session_id as int) + "/state"@),
            r.body is None,
    {
        let mut path = "/sessions/".to_owned();
        push_int(session_id, &mut path);
        path.append("/state");
        assert(path@ =~= "/sessions/"@ + int_text(session_id as int) + "/state"@);
        self.request(Method::Get, path, None)
    }

    /// Kills and deletes one interactive session.
    ///
    /// `DELETE /sessions/{session_id}`
    pub fn kill_session(&self, session_id: i64) -> (r: Request)
        ensures
            self.issued(r, Method::Delete, "/sessions/"@ + int_text(session_id as int)),
            r.body is None,
    {
        let mut path = "/sessions/".to_owned();
        push_int(session_id, &mut path);
        assert(path@ =~= "/sessions/"@ + int_text(session_id as int));
        self.request(Method::Delete, path, None)
    }

    /// Deletes one interactive session; the same request as `kill_session`.
    ///
    /// `DELETE /sessions/{session_id}`
    pub fn delete_session(&self, session_id: i64) -> (r: Request)
        ensures
            self.issued(r, Method::Delete, "/sessions/"@ + int_text(session_id as int)),
            r.body is None,
    {
        let mut path = "/sessions/".to_owned();
        push_int(session_id, &mut path);
        assert(path@ =~= "/sessions/"@ + int_text(session_id as int));
        self.request(Method::Delete, path, None)
    }

    /// Gets log lines of one interactive session.
    ///
    /// `GET /sessions/{session_id}/log` with the `from` and `size` parameters.
    pub fn get_session_log(&self, session_id: i64, from: Option<i64>, size: Option<i64>) -> (r: Request)
        ensures
            self.issued(r, Method::Get, "/sessions/"@ + int_text(session_id as int) + "/log"@ + page_query(from, size)),
            r.body is None,
    {
        let mut path = "/sessions/".to_owned();
        push_int(session_id, &mut path);
        path.append("/log");
        path.append(page_params(from, size).as_str());
        assert(path@ =~= "/sessions/"@ + int_text(session_id as int) + "/log"@ + page_query(from, size));
        self.request(Method::Get, path, None)
    }

    /// Lists the statements of a session.
    ///
    /// `GET /sessions/{session_id}/statements`
    pub fn get_statements(&self, session_id: i64) -> (r: Request)
        ensures
            self.issued(r, Method::Get, "/sessions/"@ + int_text(session_id as int) + "/statements"@),
            r.body is None,
    {
        let mut path = "/sessions/".to_owned();
        push_int(session_id, &mut path);
        path.append("/statements");
        assert(path@ =~= "/sessions/"@ + int_text(session_id as int) + "/statements"@);
        self.request(Method::Get, path, None)
    }

    /// Runs a statement in a session.
    ///
    /// `POST /sessions/{session_id}/statements`
    pub fn run_statement(&self, session_id: i64, run_statement_request: RunStatementRequest) -> (r: Request)
        ensures
            self.issued(r, Method::Post, "/sessions/"@ + int_text(session_id as int) + "/statements"@),
            r.body is Some && r.body->Some_0 is Object,
            members_view(r.body->Some_0->Object_0@) == seq![("code"@, Some(Field::Text(run_statement_request.code@)))],
    {
        let mut path = "/sessions/".to_owned();
        push_int(session_id, &mut path);
        path.append("/statements");
        assert(path@ =~= "/sessions/"@ + int_text(session_id as int) + "/statements"@);
        let body = run_statement_request.to_json();
        self.request(Method::Post, path, Some(body))
    }

    /// Gets one statement of a session.
    ///
    /// `GET /sessions/{session_id}/statements/{statement_id}`
    pub fn get_statement(&self, session_id: i64, statement_id: i64) -> (r: Request)
        ensures
            self.issued(r, Method::Get, "/sessions/"@ + int_text(session_id as int) + "/statements/"@ + int_text(statement_id as int)),
            r.body is None,
    {
        let mut path = "/sessions/".to_owned();
        push_int(session_id, &mut path);
        path.append("/statements/");
        push_int(statement_id, &mut path);
        assert(path@ =~= "/sessions/"@ + int_text(session_id as int) + "/statements/"@ + int_text(statement_id as int));
        self.request(Method::Get, path, None)
    }

    /// Cancels one statement of a session.
    ///
    /// `POST /sessions/{session_id}/statements/{statement_id}/cancel`
    pub fn cancel_statement(&self, session_id: i64, statement_id: i64) -> (r: Request)
        ensures
            self.issued(r, Method::Post, "/sessions/"@ + int_text(session_id as int) + "/statements/"@ + int_text(statement_id as int) + "/cancel"@),
            r.body is None,
    {
        let mut path = "/sessions/".to_owned();
        push_int(session_id, &mut path);
        path.append("/statements/");
        push_int(statement_id, &mut path);
        path.append("/cancel");
        assert(path@ =~= "/sessions/"@ + int_text(session_id as int) + "/statements/"@ + int_text(statement_id as int) + "/cancel"@);
        self.request(Method::Post, path, None)
    }

    /// Lists batch jobs.
    ///
    /// `GET /batches` with the `from` and `size` parameters.
    pub fn get_batches(&self, from: Option<i64>, size: Option<i64>) -> (r: Request)
        ensures
            self.issued(r, Method::Get, "/batches"@ + page_query(from, size)),
            r.body is None,
    {
        let mut path = "/batches".to_owned();
        path.append(page_params(from, size).as_str());
        assert(path@ =~= "/batches"@ + page_query(from, size));
        self.request(Method::Get, path, None)
    }

    /// Launches a batch job.
    ///
    /// `POST /batches`
    pub fn create_batch(&self, new_batch_request: NewBatchRequest) -> (r: Request)
        ensures
            self.issued(r, Method::Post, "/batches"@),
            r.body is Some && r.body->Some_0 is Object,
            members_view(r.body->Some_0->Object_0@) == new_batch_request.members_spec(),
    {
        let mut path = "/batches".to_owned();
        assert(path@ =~= "/batches"@);
        let body = new_batch_request.to_json();
        self.request(Method::Post, path, Some(body))
    }

    /// Gets one batch job.
    ///
    /// `GET /batches/{batch_id}`
    pub fn get_batch(&self, batch_id: i64) -> (r: Request)
        ensures
            self.issued(r, Method::Get, "/batches/"@ + int_text(batch_id as int)),
            r.body is None,
    {
        let mut path = "/batches/".to_owned();
        push_int(batch_id, &mut path);
        assert(path@ =~= "/batches/"@ + int_text(batch_id as int));
        self.request(Method::Get, path, None)
    }

    /// Gets the state of one batch job.
    ///
    /// `GET /batches/{batch_id}/state`
    pub fn get_batch_state(&self, batch_id: i64) -> (r: Request)
        ensures
            self.issued(r, Method::Get, "/batches/"@ + int_text(batch_id as int) + "/state"@),
            r.body is None,
    {
        let mut path = "/batches/".to_owned();
        push_int(batch_id, &mut path);
        path.append("/state");
        assert(path@ =~= "/batches/"@ + int_text(batch_id as int) + "/state"@);
        self.request(Method::Get, path, None)
    }

    /// Kills one batch job.
    ///
    /// `DELETE /batches/{batch_id}`
    pub fn kill_batch(&self, batch_id: i64) -> (r: Request)
        ensures
            self.issued(r, Method::Delete, "/batches/"@ + int_text(batch_id as int)),
            r.body is None,
    {
        let mut path = "/batches/".to_owned();
        push_int(batch_id, &mut path);
        assert(path@ =~= "/batches/"@ + int_text(batch_id as int));
        self.request(Method::Delete, path, None)
    }

    /// Gets log lines of one batch job.
    ///
    /// `GET /batches/{batch_id}/log` with the `from` and `size` parameters.
    pub fn get_batch_log(&self, batch_id: i64, from: Option<i64>, size: Option<i64>) -> (r: Request)
        ensures
            self.issued(r, Method::Get, "/batches/"@ + int_text(batch_id as int) + "/log"@ + page_query(from, size)),
            r.body is None,
    {
        let mut path = "/batches/".to_owned();
        push_int(batch_id, &mut path);
        path.append("/log");
        path.append(page_params(from, size).as_str());
        assert(path@ =~= "/batches/"@ + int_text(batch_id as int) + "/log"@ + page_query(from, size));
        self.request(Method::Get, path, None)
    }
}

} // verus!
