use stepflow::dto::template::{TemplateDto, TemplateUpsert};
use stepflow::json::{empty_object, null_value, parse_json, string_member_object};
use stepflow::service::execution::{inline_document, new_run_id};
use stepflow::routes::timer::find_before_params;
use stepflow::service::template::{created_template, template_dto_from_row};
use stepflow::text::{decimal_string, parse_i64, trim};

#[test]
fn parse_i64_accepts_what_str_parse_accepts() {
    for s in ["0", "42", "-7", "+15", "007", "9223372036854775807", "-9223372036854775808", "", "-", "+", "1a", " 1", "1 ", "9223372036854775808", "-9223372036854775809", "+-1", "١٢"] {
        assert_eq!(parse_i64(s), s.parse::<i64>().ok(), "input {:?}", s);
    }
    assert_eq!(parse_i64("123"), Some(123));
    assert_eq!(parse_i64("-0"), Some(0));
    assert_eq!(parse_i64("99999999999999999999999"), None);
}

#[test]
fn decimal_string_writes_like_display() {
    for n in [0usize, 5, 9, 10, 99, 100, 4096, usize::MAX] {
        assert_eq!(decimal_string(n), n.to_string());
    }
}

#[test]
fn decimal_text_parses_back() {
    for n in [0usize, 1, 17, 123456789] {
        assert_eq!(parse_i64(&decimal_string(n)), Some(n as i64));
    }
}

#[test]
fn trim_removes_unicode_white_space_like_str_trim() {
    for s in ["  http ", "\t\nshell\r\n", "\u{3000}file\u{a0}", "   ", "", "a b", "\u{200b}x", "\u{85}y\u{2029}"] {
        assert_eq!(trim(s), s.trim(), "input {:?}", s);
    }
}

#[test]
fn json_quote_escapes() {
    assert_eq!(string_member_object("k", "a\"b\\c\n"), "{\"k\":\"a\\\"b\\\\c\\n\"}");
    assert_eq!(string_member_object("k", "plain"), "{\"k\":\"plain\"}");
}

#[test]
fn json_shape_tells_values_apart() {
    let d = inline_document(r#"{ "a" : 1 }"#).unwrap();
    assert_eq!((d.text.as_str(), d.from_string), (r#"{"a":1}"#, false));
    let d = inline_document(r#""{\"x\":2}""#).unwrap();
    assert_eq!((d.text.as_str(), d.from_string), (r#"{"x":2}"#, true));
    assert_eq!(parse_json("[1, 2]").unwrap(), "[1,2]");
    assert!(parse_json("{oops").is_err());
}

#[test]
fn parse_json_gives_compact_text() {
    assert_eq!(parse_json(" [ true , null ] ").unwrap(), "[true,null]");
    assert_eq!(parse_json("\"hi\"").unwrap(), "\"hi\"");
    assert!(parse_json("nope").is_err());
}

#[test]
fn json_framing_helpers() {
    assert_eq!(string_member_object("error", "x"), r#"{"error":"x"}"#);
    assert_eq!(empty_object(), "{}");
    assert_eq!(null_value(), "null");
}

#[test]
fn uuid_is_hyphenated_version_four() {
    let id = new_run_id();
    assert_eq!(id.len(), 36);
    assert_eq!(id.chars().nth(14), Some('4'));
    for (i, c) in id.chars().enumerate() {
        if [8, 13, 18, 23].contains(&i) {
            assert_eq!(c, '-');
        } else {
            assert!(c.is_ascii_hexdigit() && !c.is_ascii_uppercase());
        }
    }
    assert_ne!(new_run_id(), id);
}

#[test]
fn clock_reading_is_rfc3339() {
    let t = TemplateDto::from_upsert(TemplateUpsert { name: "n".to_string(), dsl: "{}".to_string() });
    assert!(chrono::DateTime::parse_from_rfc3339(&t.created_at).is_ok());
}

#[test]
fn json_quote_escapes_control_characters() {
    assert_eq!(
        string_member_object("k", "\u{8}\t\u{c}\r\u{1}\u{1f} \u{7f}é"),
        "{\"k\":\"\\b\\t\\f\\r\\u0001\\u001f \u{7f}é\"}"
    );
}

#[test]
fn clock_reading_reads_back_as_itself() {
    let t = TemplateDto::from_upsert(TemplateUpsert { name: "n".to_string(), dsl: "{}".to_string() });
    let (read, limit) = find_before_params(&Some(t.created_at.clone()), &None).unwrap();
    assert_eq!(read, t.created_at);
    assert_eq!(limit, 100);
}

#[test]
fn created_template_reads_back_as_written() {
    let body = TemplateUpsert { name: "flow".to_string(), dsl: r#"{"a":[1,"x\n"],"b":null}"#.to_string() };
    let (row, dto) = created_template("t-1".to_string(), body.clone(), &"2024-01-02T03:04:05+00:00".to_string());
    let read = template_dto_from_row(row);
    assert_eq!(read.id, "t-1");
    assert_eq!(read.name, body.name);
    assert_eq!(read.dsl, body.dsl);
    assert_eq!(read.dsl, dto.dsl);
    assert_eq!(read.created_at, "2024-01-02T03:04:05+00:00");
}
