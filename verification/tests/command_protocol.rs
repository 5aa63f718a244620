//! The command protocol: every row of the command table, both transport
//! shapes, and the shapes that must be ignored.
use lanlink::command::{handle_message, ActuationCall};

#[test]
fn presentation_left_direct() {
    let r = handle_message(r#"{"type":"presentation","action":"left"}"#);
    assert_eq!(r, Some(ActuationCall::PreviousSlide));
}

#[test]
fn presentation_right_direct() {
    let r = handle_message(r#"{"type":"presentation","action":"right"}"#);
    assert_eq!(r, Some(ActuationCall::NextSlide));
}

#[test]
fn cursor_left_click_direct() {
    let r = handle_message(r#"{"type":"cursor","action":"left_click"}"#);
    assert_eq!(r, Some(ActuationCall::PrimaryClick));
}

#[test]
fn cursor_right_click_direct() {
    let r = handle_message(r#"{"type":"cursor","action":"right_click"}"#);
    assert_eq!(r, Some(ActuationCall::SecondaryClick));
}

#[test]
fn cursor_move_direct() {
    let r = handle_message(r#"{"type":"cursor","action":"move","deltaX":10,"deltaY":-3}"#);
    assert_eq!(r, Some(ActuationCall::MoveCursor { dx: 10, dy: -3 }));
}

#[test]
fn cursor_scroll_up() {
    let r = handle_message(r#"{"type":"cursor","action":"scroll","direction":"up","delta":5}"#);
    assert_eq!(r, Some(ActuationCall::ScrollVertical { amount: 5 }));
}

#[test]
fn cursor_scroll_down_negates() {
    let r = handle_message(r#"{"type":"cursor","action":"scroll","direction":"down","delta":5}"#);
    assert_eq!(r, Some(ActuationCall::ScrollVertical { amount: -5 }));
}

#[test]
fn cursor_scroll_other_direction_negates() {
    let r = handle_message(
        r#"{"type":"cursor","action":"scroll","direction":"sideways","delta":7}"#,
    );
    assert_eq!(r, Some(ActuationCall::ScrollVertical { amount: -7 }));
}

#[test]
fn cursor_scroll_min_delta_saturates() {
    let msg = format!(
        r#"{{"type":"cursor","action":"scroll","direction":"down","delta":{}}}"#,
        i64::MIN
    );
    let r = handle_message(&msg);
    assert_eq!(r, Some(ActuationCall::ScrollVertical { amount: i64::MAX }));
}

#[test]
fn nested_data_left_click() {
    let r = handle_message(r#"{"data":"{\"type\":\"cursor\",\"action\":\"left_click\"}"}"#);
    assert_eq!(r, Some(ActuationCall::PrimaryClick));
}

#[test]
fn nested_data_scroll_matches_direct() {
    let inner = r#"{"type":"cursor","action":"scroll","direction":"up","delta":5}"#;
    let wrapped = format!(r#"{{"data":{}}}"#, serde_json::to_string(inner).unwrap());
    assert_eq!(handle_message(&wrapped), handle_message(inner));
    assert_eq!(handle_message(&wrapped), Some(ActuationCall::ScrollVertical { amount: 5 }));
}

#[test]
fn unknown_type_is_ignored() {
    assert_eq!(handle_message(r#"{"type":"keyboard","action":"left"}"#), None);
}

#[test]
fn unknown_action_is_ignored() {
    assert_eq!(handle_message(r#"{"type":"presentation","action":"up"}"#), None);
}

#[test]
fn move_without_deltas_is_ignored() {
    assert_eq!(handle_message(r#"{"type":"cursor","action":"move","deltaX":4}"#), None);
}

#[test]
fn scroll_without_delta_is_ignored() {
    assert_eq!(handle_message(r#"{"type":"cursor","action":"scroll","direction":"up"}"#), None);
}

#[test]
fn scroll_with_string_delta_is_ignored() {
    let r = handle_message(
        r#"{"type":"cursor","action":"scroll","direction":"up","delta":"five"}"#,
    );
    assert_eq!(r, None);
}

#[test]
fn non_json_is_ignored() {
    assert_eq!(handle_message("hello there"), None);
}

#[test]
fn non_object_json_is_ignored() {
    assert_eq!(handle_message("[1,2,3]"), None);
    assert_eq!(handle_message("42"), None);
}

#[test]
fn empty_object_is_ignored() {
    assert_eq!(handle_message("{}"), None);
}

#[test]
fn nested_data_without_envelope_is_ignored() {
    assert_eq!(handle_message(r#"{"data":"{\"foo\":\"bar\"}"}"#), None);
}

#[test]
fn nested_data_not_json_is_ignored() {
    assert_eq!(handle_message(r#"{"data":"plain text"}"#), None);
}

#[test]
fn numeric_type_member_is_not_an_envelope() {
    assert_eq!(handle_message(r#"{"type":3,"action":"left"}"#), None);
}

#[test]
fn type_without_action_falls_to_data() {
    let r = handle_message(
        r#"{"type":"cursor","data":"{\"type\":\"presentation\",\"action\":\"right\"}"}"#,
    );
    assert_eq!(r, Some(ActuationCall::NextSlide));
}
