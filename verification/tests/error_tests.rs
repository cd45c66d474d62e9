use mme::error::{ErrorText, IntoMmeResult, MmeCodeLocation, MmeError, MmeResult, MmeResultTrait};

fn here() -> MmeCodeLocation {
    MmeCodeLocation::new("src/main.rs".to_string(), 12, 5)
}

fn painted(text: &str, code: &str) -> Vec<String> {
    vec![text.to_string(), format!("\x1b[{}m{}\x1b[0m", code, text)]
}

#[test]
fn new_error_is_blank() {
    let e = MmeError::new(here());
    assert_eq!(e.code, 0);
    assert!(e.category.is_empty());
    assert!(e.messages.is_empty());
    let loc = e.code_location.unwrap();
    assert_eq!(loc.file, "src/main.rs");
    assert_eq!(loc.line, 12);
    assert_eq!(loc.column, 5);
}

#[test]
fn builders_change_one_part_each() {
    let e = MmeError::new(here())
        .set_code(7)
        .msg("first".to_string())
        .category("io".to_string())
        .msg("second".to_string())
        .category("disk".to_string());
    assert_eq!(e.code, 7);
    assert_eq!(e.messages, vec!["first".to_string(), "second".to_string()]);
    assert_eq!(e.category, vec!["io".to_string(), "disk".to_string()]);
    let e = e.set_code(9).location(MmeCodeLocation::new("lib.rs".to_string(), 1, 2));
    assert_eq!(e.code, 9);
    assert_eq!(e.messages.len(), 2);
    assert_eq!(e.code_location.unwrap().file, "lib.rs");
}

#[test]
fn code_109_is_utf8_decoding_error() {
    let e = MmeError::code(109, here());
    assert_eq!(e.code, 109);
    assert_eq!(e.category, vec!["decoding".to_string()]);
    assert_eq!(e.messages, vec!["conversion from utf8 failed".to_string()]);
    assert!(e.code_location.is_some());
}

#[test]
fn code_108_is_deserialisation_error() {
    let e = MmeError::code(108, here());
    assert_eq!(e.code, 108);
    assert_eq!(e.category, vec!["decoding".to_string()]);
    assert_eq!(e.messages, vec!["serde deserialisation failed".to_string()]);
}

#[test]
fn unknown_code_gives_blank_error_with_code_zero() {
    let e = MmeError::code(42, here());
    assert_eq!(e.code, 0);
    assert!(e.category.is_empty());
    assert!(e.messages.is_empty());
    assert_eq!(e.code_location.unwrap().line, 12);
}

#[test]
fn location_text() {
    assert_eq!(here().to_string(), "file: src/main.rs line: 12 column: 5");
    let big = MmeCodeLocation::new("a".to_string(), 4294967295, 0);
    assert_eq!(big.to_string(), "file: a line: 4294967295 column: 0");
    let mid = MmeCodeLocation::new("b.rs".to_string(), 10, 1009);
    assert_eq!(mid.to_string(), "file: b.rs line: 10 column: 1009");
}

#[test]
fn log_lines_with_tags() {
    let e = MmeError::new(here()).msg("boom".to_string()).msg("again".to_string());
    let lines = e.log_with_tags("LOCATION", "MSG");
    assert_eq!(
        lines,
        vec![
            "MmeError envountered!".to_string(),
            "[ LOCATION ] file: src/main.rs line: 12 column: 5".to_string(),
            "[ MSG ] boom".to_string(),
            "[ MSG ] again".to_string(),
        ]
    );
}

#[test]
fn log_lines_without_location() {
    let mut e = MmeError::new(here()).msg("x".to_string());
    e.code_location = None;
    assert_eq!(e.log_with_tags("L", "M"), vec!["MmeError envountered!".to_string(), "[ M ] x".to_string()]);
}

#[test]
fn log_renders_yellow_tags_or_plain_tags() {
    let e = MmeError::new(here()).msg("boom".to_string());
    let lines = e.log();
    assert_eq!(lines.len(), 3);
    assert_eq!(lines[0], "MmeError envountered!");
    let loc_ok = painted("LOCATION", "33")
        .iter()
        .any(|t| lines[1] == format!("[ {} ] file: src/main.rs line: 12 column: 5", t));
    assert!(loc_ok);
    let msg_ok = painted("MSG", "33").iter().any(|t| lines[2] == format!("[ {} ] boom", t));
    assert!(msg_ok);
}

#[test]
fn handle_keeps_the_error() {
    let e = MmeError::code(109, here());
    let (back, lines) = e.clone().handle();
    assert_eq!(back.code, e.code);
    assert_eq!(back.messages, e.messages);
    assert_eq!(back.category, e.category);
    assert_eq!(lines.len(), 3);
}

#[test]
fn critical_lines_without_messages() {
    let e = MmeError::new(here()).set_code(5);
    assert_eq!(
        e.critical_with_tags("CRITICAL", "MSG", "LOCATION"),
        vec![
            "CRITICAL MmeError with code: 5".to_string(),
            "LOCATION file: src/main.rs line: 12 column: 5".to_string(),
        ]
    );
}

#[test]
fn critical_lines_with_messages() {
    let mut e = MmeError::new(here()).set_code(108).msg("a".to_string()).msg("b".to_string()).msg("c".to_string());
    e.code_location = None;
    assert_eq!(
        e.critical_with_tags("C", "M", "L"),
        vec!["C MmeError with code: 108 - a".to_string(), "M b".to_string(), "M c".to_string()]
    );
}

#[test]
fn critical_renders_red_tags_or_plain_tags() {
    let e = MmeError::new(here()).set_code(3);
    let lines = e.critical_lines();
    assert_eq!(lines.len(), 2);
    assert!(painted("CRITICAL", "31").iter().any(|t| lines[0] == format!("{} MmeError with code: 3", t)));
    assert!(painted("LOCATION", "31")
        .iter()
        .any(|t| lines[1] == format!("{} file: src/main.rs line: 12 column: 5", t)));
}

#[test]
fn from_display_parts_builds_one_message() {
    let e = MmeError::from_display_parts("std::io::Error", "not found", here());
    assert_eq!(e.code, 0);
    assert!(e.category.is_empty());
    assert_eq!(e.messages, vec!["From std::io::Error: not found".to_string()]);
    assert_eq!(e.code_location.unwrap().column, 5);
}

#[test]
fn mme_result_keeps_values() {
    let r: Result<u8, ErrorText> = Ok(4);
    assert_eq!(r.mme_result(here()).unwrap(), 4);
    let r: Result<u8, ErrorText> = Ok(6);
    assert_eq!(r.mme_result_msg("context".to_string(), here()).unwrap(), 6);
}

#[test]
fn mme_result_converts_errors_into_misc() {
    let r: Result<u8, ErrorText> = Err(ErrorText { kind: "X".to_string(), shown: "bad".to_string() });
    let e = r.mme_result(here()).unwrap_err();
    assert_eq!(e.category, vec!["misc".to_string()]);
    assert_eq!(e.messages, vec!["From X: bad".to_string()]);
    assert_eq!(e.code, 0);
    let r: Result<u8, ErrorText> = Err(ErrorText { kind: "X".to_string(), shown: "bad".to_string() });
    let e = r.mme_result_msg("while loading".to_string(), here()).unwrap_err();
    assert_eq!(e.category, vec!["misc".to_string()]);
    assert_eq!(e.messages, vec!["while loading".to_string(), "From X: bad".to_string()]);
}

#[test]
fn critical_unwraps_a_value() {
    let r: MmeResult<&str> = Ok("value");
    assert_eq!(r.critical(), "value");
}

#[test]
fn handle_with_tags_emits_the_log_lines() {
    let e = MmeError::new(here()).msg("boom".to_string());
    let (back, lines) = e.clone().handle_with_tags("L", "M");
    assert_eq!(lines, e.log_with_tags("L", "M"));
    assert_eq!(back.messages, e.messages);
    assert_eq!(back.code, e.code);
}
