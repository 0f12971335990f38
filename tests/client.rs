use livy::client::Client;
use livy::http::{receive, Error, Method, Response};
use livy::json::JsonValue;
use livy::model::{Session, SessionKillResult, Sessions, Statement};
use livy::request::{NewBatchRequest, NewSessionRequest, RunStatementRequest};
use livy::state::{SessionKind, SessionState, StatementState};

struct NewCase {
    url: &'static str,
    expected_url: String,
    gssnegotiate: Option<bool>,
    username: Option<String>,
}

fn new_cases() -> Vec<NewCase> {
    vec![
        NewCase {
            url: "http://example.com:8998",
            expected_url: "http://example.com:8998".to_string(),
            gssnegotiate: None,
            username: None,
        },
        NewCase {
            url: "http://example.com:8998/",
            expected_url: "http://example.com:8998".to_string(),
            gssnegotiate: Some(false),
            username: Some("".to_string()),
        },
        NewCase {
            url: "http://example.com:8998",
            expected_url: "http://example.com:8998".to_string(),
            gssnegotiate: Some(true),
            username: Some("user".to_string()),
        },
    ]
}

#[test]
fn client_test_client_new() {
    for case in new_cases() {
        let client = Client::new(case.url, case.gssnegotiate.clone(), case.username.clone());
        assert_eq!(case.expected_url, client.url());
        assert_eq!(case.gssnegotiate, client.gssnegotiate());
        assert_eq!(case.username.as_deref(), client.username());
    }
}

#[test]
fn v0_3_0_test_client_new() {
    for case in new_cases() {
        let client = Client::new(case.url, case.gssnegotiate.clone(), case.username.clone());
        assert_eq!(case.expected_url, client.url());
        assert_eq!(case.gssnegotiate, client.gssnegotiate());
        assert_eq!(case.username.as_deref(), client.username());
    }
}

fn text(s: &str) -> JsonValue {
    JsonValue::Text(s.to_string())
}

fn num(s: &str) -> JsonValue {
    JsonValue::Number(s.to_string())
}

fn obj(members: Vec<(&str, JsonValue)>) -> JsonValue {
    JsonValue::Object(members.into_iter().map(|(k, v)| (k.to_string(), v)).collect())
}

/// serde_json's document tree as the library's document model.
fn convert(v: serde_json::Value) -> JsonValue {
    match v {
        serde_json::Value::Null => JsonValue::Null,
        serde_json::Value::Bool(b) => JsonValue::Bool(b),
        serde_json::Value::Number(n) => JsonValue::Number(n.to_string()),
        serde_json::Value::String(s) => JsonValue::Text(s),
        serde_json::Value::Array(a) => JsonValue::Array(a.into_iter().map(convert).collect()),
        serde_json::Value::Object(m) => JsonValue::Object(m.into_iter().map(|(k, x)| (k, convert(x))).collect()),
    }
}

/// Reads JSON text into the library's document model.
fn parse(text: &str) -> JsonValue {
    convert(serde_json::from_str(text).unwrap())
}

fn client() -> Client {
    Client::new("http://h:1/", None, None)
}

#[test]
fn list_sessions_scenario() {
    let req = client().get_sessions(Some(0), Some(10));
    assert_eq!(Method::Get, req.method);
    assert_eq!("http://h:1/sessions?from=0&size=10", req.url);
    assert_eq!(None, req.body);

    let body = parse(r#"{"from":0,"total":1,"sessions":[{"id":7,"state":"idle"}]}"#);
    let got: Result<Sessions, Error> = receive(Ok(Response { status: 200, body: Ok(body) }));
    let sessions = got.unwrap();
    assert_eq!(Some(1), sessions.total());
    assert_eq!(Some(0), sessions.from());
    let list = sessions.sessions().unwrap();
    assert_eq!(1, list.len());
    assert_eq!(Some(&SessionState::Idle), list[0].state());
    assert_eq!(Some(7), list[0].id());
    assert_eq!(None, list[0].app_id());
}

#[test]
fn create_session_answered_201_is_a_status_error() {
    let req = client().create_session(NewSessionRequest::new(SessionKind::Spark));
    assert_eq!(Method::Post, req.method);
    assert_eq!("http://h:1/sessions", req.url);
    assert_eq!(Some(obj(vec![("kind", text("spark"))])), req.body);

    let answer = parse(r#"{"id":1,"state":"starting"}"#);
    let got: Result<Session, Error> = receive(Ok(Response { status: 201, body: Ok(answer) }));
    assert_eq!(Err(Error::Status(201)), got);
}

#[test]
fn kill_session_scenario() {
    let req = client().kill_session(7);
    assert_eq!(Method::Delete, req.method);
    assert_eq!("http://h:1/sessions/7", req.url);
    assert_eq!(None, req.body);

    let got: Result<SessionKillResult, Error> =
        receive(Ok(Response { status: 200, body: Ok(parse(r#"{"msg":"deleted"}"#)) }));
    assert_eq!(Ok(SessionKillResult { msg: Some("deleted".to_string()) }), got);
}

#[test]
fn operation_paths() {
    let c = Client::new("http://h:8998", Some(true), Some("me".to_string()));
    assert_eq!("http://h:8998/sessions", c.get_sessions(None, None).url);
    assert_eq!("http://h:8998/sessions?size=5", c.get_sessions(None, Some(5)).url);
    assert_eq!("http://h:8998/sessions/3", c.get_session(3).url);
    assert_eq!("http://h:8998/sessions/3/state", c.get_session_state(3).url);
    let delete = c.delete_session(3);
    assert_eq!(Method::Delete, delete.method);
    assert_eq!("http://h:8998/sessions/3", delete.url);
    assert_eq!(None, delete.body);
    assert_eq!("http://h:8998/sessions/3/log?from=1&size=2", c.get_session_log(3, Some(1), Some(2)).url);
    assert_eq!("http://h:8998/sessions/3/statements", c.get_statements(3).url);
    assert_eq!("http://h:8998/sessions/3/statements/4", c.get_statement(3, 4).url);
    let cancel = c.cancel_statement(3, 4);
    assert_eq!(Method::Post, cancel.method);
    assert_eq!("http://h:8998/sessions/3/statements/4/cancel", cancel.url);
    assert_eq!(None, cancel.body);
    assert_eq!("http://h:8998/batches?from=10", c.get_batches(Some(10), None).url);
    assert_eq!("http://h:8998/batches/-1", c.get_batch(-1).url);
    assert_eq!("http://h:8998/batches/12/state", c.get_batch_state(12).url);
    let kill = c.kill_batch(12);
    assert_eq!(Method::Delete, kill.method);
    assert_eq!("http://h:8998/batches/12", kill.url);
    assert_eq!("http://h:8998/batches/12/log", c.get_batch_log(12, None, None).url);
    let get = c.get_batch(12);
    assert_eq!(Some(true), get.gssnegotiate);
    assert_eq!(Some("me".to_string()), get.username);
}

#[test]
fn run_statement_and_create_batch_bodies() {
    let c = client();
    let run = c.run_statement(2, RunStatementRequest { code: "1 + 1".to_string() });
    assert_eq!(Method::Post, run.method);
    assert_eq!("http://h:1/sessions/2/statements", run.url);
    assert_eq!(Some(obj(vec![("code", text("1 + 1"))])), run.body);

    let mut batch = NewBatchRequest::new("/jobs/pi.py".to_string());
    batch.num_executors = Some(4);
    let create = c.create_batch(batch);
    assert_eq!("http://h:1/batches", create.url);
    assert_eq!(Some(obj(vec![("file", text("/jobs/pi.py")), ("numExecutors", num("4"))])), create.body);
}

#[test]
fn statement_decodes_with_output() {
    let body = obj(vec![
        ("id", num("0")),
        ("state", text("available")),
        (
            "output",
            obj(vec![
                ("status", text("ok")),
                ("execution_count", num("0")),
                ("data", obj(vec![("text/plain", text("2")), ("other", JsonValue::Null)])),
            ]),
        ),
    ]);
    let got: Result<Statement, Error> = receive(Ok(Response { status: 200, body: Ok(body) }));
    let st = got.unwrap();
    assert_eq!(Some(&StatementState::Available), st.state());
    let out = st.output().unwrap();
    assert_eq!(Some("ok"), out.status());
    assert_eq!(Some(0), out.execution_count());
    let data = out.data().unwrap();
    assert_eq!(2, data.len());
    assert_eq!(Some(&Some("2".to_string())), data.get("text/plain"));
    assert_eq!(Some(&None), data.get("other"));
    assert_eq!(None, data.get("missing"));
}

#[test]
fn unknown_state_is_a_decode_error() {
    let body = obj(vec![("sessions", JsonValue::Array(vec![obj(vec![("state", text("sleeping"))])]))]);
    let got: Result<Sessions, Error> = receive(Ok(Response { status: 200, body: Ok(body) }));
    assert!(matches!(got, Err(Error::Decode(_))));
}

#[test]
fn credentials_are_negotiated_only_when_asked() {
    let plain = Client::new("http://h", None, Some("me".to_string())).get_sessions(None, None);
    assert_eq!(None, plain.negotiate_as());
    let off = Client::new("http://h", Some(false), Some("me".to_string())).get_sessions(None, None);
    assert_eq!(None, off.negotiate_as());
    let named = Client::new("http://h", Some(true), Some("me".to_string())).get_sessions(None, None);
    assert_eq!(Some("me".to_string()), named.negotiate_as());
    let unnamed = Client::new("http://h", Some(true), None).get_sessions(None, None);
    assert_eq!(Some(String::new()), unnamed.negotiate_as());
}

#[test]
fn wrong_member_names_the_member() {
    let body = parse(r#"{"id":"seven"}"#);
    let got: Result<Session, Error> = receive(Ok(Response { status: 200, body: Ok(body) }));
    assert_eq!(Err(Error::Decode("id".to_string())), got);
    let body = parse(r#"{"state":"asleep"}"#);
    let got: Result<Session, Error> = receive(Ok(Response { status: 200, body: Ok(body) }));
    assert_eq!(Err(Error::Decode("asleep".to_string())), got);
}

#[test]
fn duplicate_info_keys_keep_the_last_value() {
    let body = obj(vec![(
        "appInfo",
        obj(vec![("driverLogUrl", text("a")), ("sparkUiUrl", JsonValue::Null), ("driverLogUrl", text("b"))]),
    )]);
    let got: Result<Session, Error> = receive(Ok(Response { status: 200, body: Ok(body) }));
    let session = got.unwrap();
    let info = session.app_info().unwrap();
    assert_eq!(2, info.len());
    assert_eq!(Some(&Some("b".to_string())), info.get("driverLogUrl"));
    assert_eq!("driverLogUrl", info.entries()[0].0);
}
