//! JSON values are held by this library as their JSON text. Parsing and
//! quoting are done by `serde_json`; the library only frames text.
use vstd::prelude::*;

verus! {

/// The lower-case hexadecimal digit of `n` (for `0 <= n < 16`).
pub open spec fn hex_digit(n: int) -> char {
    seq!['0', '1', '2', '3', '4', '5', '6', '7', '8', '9', 'a', 'b', 'c', 'd', 'e', 'f'][n]
}

/// How one character stands inside a JSON string literal: `"` and `\`
/// and the control characters that have a short escape are written as
/// that escape, the other control characters below U+0020 as `\u00XX`
/// in lower-case hex, every other character as itself.
pub open spec fn json_escaped_char(c: char) -> Seq<char> {
    if c == '"' {
        seq!['\\', '"']
    } else if c == '\\' {
        seq!['\\', '\\']
    } else if c == '\u{8}' {
        seq!['\\', 'b']
    } else if c == '\t' {
        seq!['\\', 't']
    } else if c == '\n' {
        seq!['\\', 'n']
    } else if c == '\u{c}' {
        seq!['\\', 'f']
    } else if c == '\r' {
        seq!['\\', 'r']
    } else if (c as int) < 0x20 {
        seq!['\\', 'u', '0', '0', hex_digit((c as int) / 16), hex_digit((c as int) % 16)]
    } else {
        seq![c]
    }
}

/// The characters of `s`, each escaped as inside a JSON string literal.
pub open spec fn json_escaped(s: Seq<char>) -> Seq<char>
    decreases s.len(),
{
    if s.len() == 0 {
        Seq::empty()
    } else {
        json_escaped(s.drop_last()) + json_escaped_char(s.last())
    }
}

/// The JSON string literal of `s`: its escaped characters between double
/// quotes.
pub open spec fn json_string_literal(s: Seq<char>) -> Seq<char> {
    seq!['"'] + json_escaped(s) + seq!['"']
}

/// `serde_json::to_string` applied to a string: the quoted JSON literal of
/// `s`, escaped by `serde_json`'s table (short escapes for `"`, `\`, and
/// backspace, tab, line feed, form feed and carriage return; `\u00XX` in
/// lower-case hex for the other characters below U+0020; every other
/// character as itself). Serialising a `str` cannot fail in `serde_json`.
#[verifier::external_body]
pub(crate) fn json_quote(s: &str) -> (r: String)
    ensures
        r@ == json_string_literal(s@),
{
    serde_json::to_string(s).unwrap()
}

} // verus!

verus! {

/// What `serde_json` reads from a JSON text: a parse error (with its
/// message), an object (with its compact serialisation), a string (with
/// its contents), or any other value (with its compact serialisation).
pub enum JsonShape {
    Invalid(String),
    Object(String),
    Text(String),
    Other(String),
}

/// Mathematical counterpart of [`JsonShape`].
pub enum JsonShapeView {
    Invalid(Seq<char>),
    Object(Seq<char>),
    Text(Seq<char>),
    Other(Seq<char>),
}

impl View for JsonShape {
    type V = JsonShapeView;

    open spec fn view(&self) -> JsonShapeView {
        match self {
            JsonShape::Invalid(m) => JsonShapeView::Invalid(m@),
            JsonShape::Object(t) => JsonShapeView::Object(t@),
            JsonShape::Text(s) => JsonShapeView::Text(s@),
            JsonShape::Other(t) => JsonShapeView::Other(t@),
        }
    }
}

/// How `serde_json::from_str::<Value>` reads `text`.
pub uninterp spec fn json_shape_of(text: Seq<char>) -> JsonShapeView;

/// `serde_json::from_str::<serde_json::Value>` on `text`, told apart by the
/// variant of the parsed value; the error is kept as its `Display` text and
/// objects and other values as their compact `to_string` serialisation.
#[verifier::external_body]
pub(crate) fn json_shape(text: &str) -> (r: JsonShape)
    ensures
        r@ == json_shape_of(text@),
{
    match serde_json::from_str::<serde_json::Value>(text) {
        Err(e) => JsonShape::Invalid(e.to_string()),
        Ok(serde_json::Value::String(s)) => JsonShape::Text(s),
        Ok(v @ serde_json::Value::Object(_)) => JsonShape::Object(v.to_string()),
        Ok(v) => JsonShape::Other(v.to_string()),
    }
}

/// The compact JSON text of the object `{"<key>": <value>}` whose single
/// member holds the string `value`.
pub open spec fn single_string_member_object(key: Seq<char>, value: Seq<char>) -> Seq<char> {
    seq!['{'] + json_string_literal(key) + seq![':'] + json_string_literal(value) + seq!['}']
}

/// Frames the compact JSON text of `{"<key>": "<value>"}`.
pub fn string_member_object(key: &str, value: &str) -> (r: String)
    ensures
        r@ == single_string_member_object(key@, value@),
{
    let mut out = String::from_str("{");
    let k = json_quote(key);
    out.append(k.as_str());
    out.append(":");
    let v = json_quote(value);
    out.append(v.as_str());
    out.append("}");
    proof {
        reveal_strlit("{");
        reveal_strlit(":");
        reveal_strlit("}");
    }
    out
}

/// The JSON text of the empty object.
pub open spec fn empty_object_text() -> Seq<char> {
    seq!['{', '}']
}

/// The JSON text of `null`.
pub open spec fn null_text() -> Seq<char> {
    seq!['n', 'u', 'l', 'l']
}

pub fn empty_object() -> (r: String)
    ensures
        r@ == empty_object_text(),
{
    proof {
        reveal_strlit("{}");
    }
    String::from_str("{}")
}

pub fn null_value() -> (r: String)
    ensures
        r@ == null_text(),
{
    proof {
        reveal_strlit("null");
    }
    String::from_str("null")
}

/// The compact JSON text of a parsed value; `None` if the text did not
/// parse.
pub open spec fn compact_text_of(shape: JsonShapeView) -> Option<Seq<char>> {
    match shape {
        JsonShapeView::Invalid(_) => None,
        JsonShapeView::Object(t) => Some(t),
        JsonShapeView::Text(s) => Some(json_string_literal(s)),
        JsonShapeView::Other(t) => Some(t),
    }
}

/// Reads `text` as JSON: its compact serialisation, or the parse error's
/// text.
pub fn parse_json(text: &str) -> (r: Result<String, String>)
    ensures
        match json_shape_of(text@) {
            JsonShapeView::Invalid(e) => r matches Err(m) && m@ == e,
            shape => r matches Ok(t) && Some(t@) == compact_text_of(shape),
        },
{
    match json_shape(text) {
        JsonShape::Invalid(e) => Err(e),
        JsonShape::Object(t) => Ok(t),
        JsonShape::Text(s) => Ok(json_quote(s.as_str())),
        JsonShape::Other(t) => Ok(t),
    }
}

} // verus!
