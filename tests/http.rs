use livy::http::{params, param, remove_trailing_slash, check_status, receive, Error, Method, Request, Response};
use livy::json::JsonValue;
use livy::model::SessionKillResult;

struct ParamCase {
    key: &'static str,
    value: Option<i64>,
    expected: Option<String>,
}

fn param_cases() -> Vec<ParamCase> {
    vec![
        ParamCase { key: "from", value: Some(2), expected: Some("from=2".to_string()) },
        ParamCase { key: "from", value: None, expected: None },
    ]
}

struct ParamsCase {
    params: Vec<Option<String>>,
    expected: String,
}

fn params_cases() -> Vec<ParamsCase> {
    vec![
        ParamsCase { params: vec![], expected: "".to_string() },
        ParamsCase { params: vec![None], expected: "".to_string() },
        ParamsCase { params: vec![Some("key1=value1".to_string())], expected: "?key1=value1".to_string() },
        ParamsCase { params: vec![Some("key1=value1".to_string()), None], expected: "?key1=value1".to_string() },
        ParamsCase { params: vec![None, Some("key1=value1".to_string())], expected: "?key1=value1".to_string() },
        ParamsCase {
            params: vec![Some("key1=value1".to_string()), Some("key2=value2".to_string())],
            expected: "?key1=value1&key2=value2".to_string(),
        },
    ]
}

struct SlashCase {
    s: &'static str,
    expected: String,
}

fn slash_cases() -> Vec<SlashCase> {
    vec![
        SlashCase { s: "http://example.com/", expected: "http://example.com".to_string() },
        SlashCase { s: "http://example.com", expected: "http://example.com".to_string() },
    ]
}

#[test]
fn http_test_param() {
    for case in param_cases() {
        assert_eq!(case.expected, param(case.key, case.value));
    }
}

#[test]
fn http_test_params() {
    for case in params_cases() {
        assert_eq!(case.expected, params(case.params));
    }
}

#[test]
fn http_test_remove_trailing_slash() {
    for case in slash_cases() {
        assert_eq!(case.expected, remove_trailing_slash(case.s));
    }
}

#[test]
fn mod_test_param() {
    for case in param_cases() {
        assert_eq!(case.expected, param(case.key, case.value));
    }
}

#[test]
fn mod_test_params() {
    for case in params_cases() {
        assert_eq!(case.expected, params(case.params));
    }
}

#[test]
fn mod_test_remove_trailing_slash() {
    for case in slash_cases() {
        assert_eq!(case.expected, remove_trailing_slash(case.s));
    }
}

#[test]
fn params_all_absent_is_empty() {
    assert_eq!("", params(vec![param("from", None), param("size", None)]));
}

#[test]
fn params_single_pair() {
    assert_eq!("?size=10", params(vec![param("size", Some(10))]));
}

#[test]
fn params_two_pairs_keep_order() {
    assert_eq!("?from=0&size=10", params(vec![param("from", Some(0)), param("size", Some(10))]));
    assert_eq!("?size=10&from=0", params(vec![param("size", Some(10)), param("from", Some(0))]));
}

#[test]
fn params_absent_pairs_interleaved() {
    let got = params(vec![None, param("a", Some(1)), None, None, param("b", Some(-2)), None]);
    assert_eq!("?a=1&b=-2", got);
}

#[test]
fn param_formats_extreme_values() {
    assert_eq!(Some("n=-9223372036854775808".to_string()), param("n", Some(i64::MIN)));
    assert_eq!(Some("n=9223372036854775807".to_string()), param("n", Some(i64::MAX)));
    assert_eq!(Some("n=0".to_string()), param("n", Some(0)));
}

#[test]
fn base_url_normalisation() {
    assert_eq!("http://h:1", remove_trailing_slash("http://h:1/"));
    assert_eq!("http://h:1", remove_trailing_slash("http://h:1"));
    assert_eq!("", remove_trailing_slash(""));
    assert_eq!("", remove_trailing_slash("/"));
    // Only one slash goes.
    assert_eq!("http://h:1/", remove_trailing_slash("http://h:1//"));
}

#[test]
fn base_url_normalisation_is_idempotent() {
    for s in ["http://h:1/", "http://h:1", "", "/", "x/y/", "ü/"] {
        let once = remove_trailing_slash(s);
        assert_eq!(once, remove_trailing_slash(&once));
    }
}

#[test]
fn only_status_200_succeeds() {
    assert_eq!(Ok(()), check_status(200));
    assert_eq!(Err(Error::Status(201)), check_status(201));
    assert_eq!(Err(Error::Status(404)), check_status(404));
    assert_eq!(Err(Error::Status(500)), check_status(500));
}

#[test]
fn transport_failure_is_classified() {
    let r: Result<SessionKillResult, Error> = receive(Err("connection refused".to_string()));
    assert_eq!(Err(Error::Transport("connection refused".to_string())), r);
}

#[test]
fn unparseable_body_is_a_decode_error() {
    let r: Result<SessionKillResult, Error> =
        receive(Ok(Response { status: 200, body: Err("expected value".to_string()) }));
    assert_eq!(Err(Error::Decode("expected value".to_string())), r);
}

#[test]
fn status_is_checked_before_the_body() {
    let r: Result<SessionKillResult, Error> =
        receive(Ok(Response { status: 404, body: Err("not json".to_string()) }));
    assert_eq!(Err(Error::Status(404)), r);
}

#[test]
fn body_of_wrong_shape_is_a_decode_error() {
    let r: Result<SessionKillResult, Error> =
        receive(Ok(Response { status: 200, body: Ok(JsonValue::Array(vec![])) }));
    assert!(matches!(r, Err(Error::Decode(_))));
    let r: Result<SessionKillResult, Error> = receive(Ok(Response {
        status: 200,
        body: Ok(JsonValue::Object(vec![("msg".to_string(), JsonValue::Number("1".to_string()))])),
    }));
    assert!(matches!(r, Err(Error::Decode(_))));
}

#[test]
fn headers_follow_the_body() {
    let get = Request {
        method: Method::Get,
        url: "http://h/sessions".to_string(),
        body: None,
        gssnegotiate: None,
        username: None,
    };
    assert_eq!(vec![("X-Requested-By".to_string(), "livy".to_string())], get.headers());
    let post = Request {
        method: Method::Post,
        url: "http://h/sessions".to_string(),
        body: Some(JsonValue::Object(vec![])),
        gssnegotiate: None,
        username: None,
    };
    assert_eq!(
        vec![
            ("Content-Type".to_string(), "application/json".to_string()),
            ("X-Requested-By".to_string(), "livy".to_string()),
        ],
        post.headers()
    );
}
