use livy::json::JsonValue;
use livy::map::StringMap;
use livy::request::{NewBatchRequest, NewSessionRequest, RunStatementRequest};
use livy::state::SessionKind;

fn text(s: &str) -> JsonValue {
    JsonValue::Text(s.to_string())
}

fn member(k: &str, v: JsonValue) -> (String, JsonValue) {
    (k.to_string(), v)
}

#[test]
fn minimal_session_request_holds_only_the_kind() {
    let req = NewSessionRequest::new(SessionKind::Spark);
    assert_eq!(JsonValue::Object(vec![member("kind", text("spark"))]), req.to_json());
}

#[test]
fn minimal_batch_request_holds_only_the_file() {
    let req = NewBatchRequest::new("a.jar".to_string());
    assert_eq!(JsonValue::Object(vec![member("file", text("a.jar"))]), req.to_json());
}

#[test]
fn present_fields_use_wire_names_in_order() {
    let mut req = NewSessionRequest::new(SessionKind::Pyspark);
    req.proxy_user = Some("alice".to_string());
    req.jars = Some(vec!["a.jar".to_string(), "b.jar".to_string()]);
    req.driver_cores = Some(2);
    let mut conf = StringMap::new();
    conf.insert("spark.x".to_string(), "0".to_string());
    conf.insert("spark.x".to_string(), "1".to_string());
    req.conf = Some(conf);
    req.heartbeat_timeout_in_second = Some(-1);
    let expected = JsonValue::Object(vec![
        member("kind", text("pyspark")),
        member("proxyUser", text("alice")),
        member("jars", JsonValue::Array(vec![text("a.jar"), text("b.jar")])),
        member("driverCores", JsonValue::Number("2".to_string())),
        member("conf", JsonValue::Object(vec![member("spark.x", text("1"))])),
        member("heartbeatTimeoutInSecond", JsonValue::Number("-1".to_string())),
    ]);
    assert_eq!(expected, req.to_json());
}

#[test]
fn batch_request_fields() {
    let mut req = NewBatchRequest::new("pi.py".to_string());
    req.class_name = Some("Pi".to_string());
    req.args = Some(vec!["10".to_string()]);
    req.queue = Some("default".to_string());
    let expected = JsonValue::Object(vec![
        member("file", text("pi.py")),
        member("className", text("Pi")),
        member("args", JsonValue::Array(vec![text("10")])),
        member("queue", text("default")),
    ]);
    assert_eq!(expected, req.to_json());
}

#[test]
fn run_statement_body() {
    let req = RunStatementRequest { code: "print(1)".to_string() };
    assert_eq!(JsonValue::Object(vec![member("code", text("print(1)"))]), req.to_json());
}
