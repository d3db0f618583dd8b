use matrix_fuzz::model::OpenapiResponse;
use matrix_fuzz::policy::{benign_substrings, build_allowed_codes, classify_response, Verdict};

fn resp(key: &str) -> (String, OpenapiResponse) {
    (
        key.to_string(),
        OpenapiResponse { description: String::new(), schema: None },
    )
}

#[test]
fn declared_status_passes() {
    let codes: Vec<u16> = vec![200, 400];
    assert_eq!(classify_response(&codes, 200, None), Verdict::Pass);
    assert_eq!(classify_response(&codes, 400, None), Verdict::Pass);
}

#[test]
fn benign_substring_overrides_status() {
    // Responses declare {200, 400}; a 403 whose body names an invalid
    // password is a documented rejection, not a finding.
    let codes: Vec<u16> = vec![200, 400];
    let body = "{\"error\": \"Invalid username or password\"}".to_string();
    assert_eq!(classify_response(&codes, 403, Some(&body)), Verdict::Pass);
}

#[test]
fn undeclared_status_without_marker_fails() {
    // Responses declare {200} only; a 500 with no benign marker is a
    // discovered failure.
    let codes: Vec<u16> = vec![200];
    let body = "Internal server error".to_string();
    assert_eq!(classify_response(&codes, 500, Some(&body)), Verdict::Fail);
}

#[test]
fn unreadable_body_is_not_a_pass() {
    let codes: Vec<u16> = vec![200];
    assert_eq!(classify_response(&codes, 500, None), Verdict::Fail);
}

#[test]
fn every_benign_marker_passes() {
    let codes: Vec<u16> = vec![];
    for marker in benign_substrings() {
        let body = format!("prefix {} suffix", marker);
        assert_eq!(classify_response(&codes, 500, Some(&body)), Verdict::Pass);
    }
}

#[test]
fn benign_marker_list_is_fixed() {
    let markers = benign_substrings();
    assert_eq!(markers.len(), 12);
    assert!(markers.contains(&"M_UNRECOGNIZED"));
    assert!(markers.contains(&"M_ROOM_IN_USE"));
    assert!(markers.contains(&" too large"));
}

#[test]
fn empty_allowed_set_never_passes_by_status() {
    let codes: Vec<u16> = vec![];
    let body = "anything".to_string();
    assert_eq!(classify_response(&codes, 200, Some(&body)), Verdict::Fail);
}

#[test]
fn allowed_codes_follow_declaration_order() {
    let rs = vec![resp("200"), resp("429"), resp("400")];
    assert_eq!(build_allowed_codes(&rs), Ok(vec![200, 429, 400]));
}

#[test]
fn non_numeric_status_key_is_fatal() {
    let rs = vec![resp("200"), resp("default"), resp("400")];
    assert_eq!(build_allowed_codes(&rs), Err("default".to_string()));
}

#[test]
fn out_of_range_status_key_is_fatal() {
    let rs = vec![resp("70000")];
    assert_eq!(build_allowed_codes(&rs), Err("70000".to_string()));
}

#[test]
fn leading_zeros_parse_as_the_same_code() {
    let rs = vec![resp("0200")];
    assert_eq!(build_allowed_codes(&rs), Ok(vec![200]));
}

#[test]
fn empty_responses_yield_empty_allowed_set() {
    let rs: Vec<(String, OpenapiResponse)> = vec![];
    assert_eq!(build_allowed_codes(&rs), Ok(vec![]));
}
