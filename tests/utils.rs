use livy::utils::{param, remove_trailing_slash};

#[test]
fn utils_test_param() {
    let cases: Vec<(&str, Option<i64>, Option<String>)> =
        vec![("from", Some(2), Some("from=2".to_string())), ("from", None, None)];
    for (key, value, expected) in cases {
        assert_eq!(expected, param(key, value));
    }
}

#[test]
fn utils_test_remove_trailing_slash() {
    let cases = vec![
        ("http://example.com/", "http://example.com".to_string()),
        ("http://example.com", "http://example.com".to_string()),
    ];
    for (s, expected) in cases {
        assert_eq!(expected, remove_trailing_slash(s));
    }
}
