use redis_kv::clerk::{set_reply, SetReply};
use redis_kv::report::{get_outcome_line, set_outcome_line};
use redis_kv::text::str_contains;

#[test]
fn successful_set_is_reported_as_success() {
    assert_eq!(set_reply(&Ok(())), SetReply::Success);
}

#[test]
fn server_success_frame_is_reported_as_success() {
    let outcome = Err("unexpected frame: SUCCESS".to_string());
    assert_eq!(set_reply(&outcome), SetReply::Success);
}

#[test]
fn other_set_errors_are_forwarded() {
    let outcome = Err("connection reset by server".to_string());
    assert_eq!(set_reply(&outcome), SetReply::ForwardError);
    let outcome = Err("success".to_string());
    assert_eq!(set_reply(&outcome), SetReply::ForwardError);
}

#[test]
fn set_outcome_lines() {
    assert_eq!(set_outcome_line(&Ok(())), "[SUCCESS] SET");
    assert_eq!(
        set_outcome_line(&Err("\"boom\"".to_string())),
        "[FAIL] SET error: \"boom\""
    );
}

#[test]
fn get_outcome_lines() {
    assert_eq!(
        get_outcome_line(&Ok(Some(b"World!".to_vec()))),
        "[SUCCESS] GET output: b\"World!\""
    );
    assert_eq!(get_outcome_line(&Ok(None)), "[SUCCESS] GET output empty");
    assert_eq!(
        get_outcome_line(&Err("\"boom\"".to_string())),
        "[FAIL] GET error: \"boom\""
    );
}

#[test]
fn get_output_escapes_bytes() {
    let data = vec![b'a', b'\n', b'\r', b'\t', b'\\', b'"', 0, 0x7f, 0xff, 0x1b, b' ', b'~'];
    assert_eq!(
        get_outcome_line(&Ok(Some(data))),
        "[SUCCESS] GET output: b\"a\\n\\r\\t\\\\\\\"\\0\\x7f\\xff\\x1b ~\""
    );
    assert_eq!(get_outcome_line(&Ok(Some(vec![]))), "[SUCCESS] GET output: b\"\"");
}

#[test]
fn text_search() {
    assert!(str_contains("unexpected frame: SUCCESS", "SUCCESS"));
    assert!(str_contains("SUCCESS", "SUCCESS"));
    assert!(str_contains("abc", ""));
    assert!(str_contains("", ""));
    assert!(!str_contains("", "a"));
    assert!(!str_contains("SUCCES", "SUCCESS"));
    assert!(!str_contains("success", "SUCCESS"));
    assert!(str_contains("héllo wörld", "ö"));
    assert!(str_contains("aaab", "aab"));
}
