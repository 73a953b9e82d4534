use browser_window::browser::{eval_js_result, navigation_result, JsEvaluationError};

#[test]
fn value_gives_ok() {
    let r = eval_js_result(Some("2".to_string()), None);
    assert_eq!(r.unwrap(), "2");
}

#[test]
fn exception_gives_error_with_message() {
    let r = eval_js_result(None, Some("Error: x".to_string()));
    let e = r.unwrap_err();
    assert!(e.message().contains("x"));
    assert_eq!(e.message(), "Error: x");
}

#[test]
fn error_wins_over_value() {
    let r = eval_js_result(Some("1".to_string()), Some("boom".to_string()));
    assert_eq!(r.unwrap_err().message(), "boom");
}

#[test]
fn missing_value_is_empty_string() {
    assert_eq!(eval_js_result(None, None).unwrap(), "");
}

#[test]
fn error_keeps_message() {
    let e = JsEvaluationError::new("ReferenceError: y is not defined".to_string());
    assert_eq!(e.message(), "ReferenceError: y is not defined");
}

#[test]
fn navigation_code_zero_is_success() {
    assert!(navigation_result(0, String::new()).is_ok());
}

#[test]
fn navigation_error_code_kept() {
    let e = navigation_result(3, "invalid url".to_string()).unwrap_err();
    assert_eq!(e.code, 3);
    assert_eq!(e.message, "invalid url");
}
