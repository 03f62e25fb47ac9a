//! JSON documents as LG Buddy reads and writes them: what a JSON Pointer
//! addresses in a document, the compact form of a document, and JSON string
//! literals. serde_json does the parsing and printing.

use vstd::prelude::*;

verus! {

/// What the logic reads of one JSON value: its kind and, for scalars, its
/// content. A number is kept as the `i64` and the `u64` it can be read as,
/// if any.
#[derive(Debug, Clone, PartialEq, Eq)]
pub enum JsonNode {
    Null,
    Bool(bool),
    Number { as_i64: Option<i64>, as_u64: Option<u64> },
    String(String),
    Array,
    Object,
}

/// A `JsonNode` with its text as characters.
pub enum JsonNodeView {
    Null,
    Bool(bool),
    Number { as_i64: Option<i64>, as_u64: Option<u64> },
    String(Seq<char>),
    Array,
    Object,
}

impl View for JsonNode {
    type V = JsonNodeView;

    open spec fn view(&self) -> JsonNodeView {
        match self {
            JsonNode::Null => JsonNodeView::Null,
            JsonNode::Bool(b) => JsonNodeView::Bool(*b),
            JsonNode::Number { as_i64, as_u64 } => JsonNodeView::Number {
                as_i64: *as_i64,
                as_u64: *as_u64,
            },
            JsonNode::String(s) => JsonNodeView::String(s@),
            JsonNode::Array => JsonNodeView::Array,
            JsonNode::Object => JsonNodeView::Object,
        }
    }
}

/// The views of an optional node.
pub open spec fn node_view(n: Option<JsonNode>) -> Option<JsonNodeView> {
    match n {
        Some(node) => Some(node@),
        None => None,
    }
}

/// The value that the JSON Pointer `pointer` (RFC 6901) addresses in the
/// JSON document `text`, as serde_json parses the document and resolves the
/// pointer; `None` when `text` is not JSON or nothing is there.
pub uninterp spec fn json_node_at(text: Seq<char>, pointer: Seq<char>) -> Option<JsonNodeView>;

/// The document `text` as serde_json prints it after parsing it (compact,
/// keys in order); `None` when `text` is not JSON.
pub uninterp spec fn json_compact_text(text: Seq<char>) -> Option<Seq<char>>;

/// The value at `pointer` in the document `text`.
///
/// Calls `serde_json::from_str::<serde_json::Value>` and
/// `serde_json::Value::pointer`, and reads the kind and scalar content of the
/// value found (`Number::as_i64`, `Number::as_u64` for numbers). The contract
/// only names the result; what it is for given text is serde_json's.
#[verifier::external_body]
pub(crate) fn node_at(text: &str, pointer: &str) -> (r: Option<JsonNode>)
    ensures
        node_view(r) == json_node_at(text@, pointer@),
{
    let document: serde_json::Value = serde_json::from_str(text).ok()?;
    Some(match document.pointer(pointer)? {
        serde_json::Value::Null => JsonNode::Null,
        serde_json::Value::Bool(b) => JsonNode::Bool(*b),
        serde_json::Value::Number(n) => JsonNode::Number { as_i64: n.as_i64(), as_u64: n.as_u64() },
        serde_json::Value::String(s) => JsonNode::String(s.clone()),
        serde_json::Value::Array(_) => JsonNode::Array,
        serde_json::Value::Object(_) => JsonNode::Object,
    })
}

/// The compact text of the document `text`, if it is JSON.
///
/// Parses with `serde_json::from_str::<serde_json::Value>` and prints with
/// `Value::to_string`; `None` when the parse fails. The contract only names
/// the result.
#[verifier::external_body]
pub(crate) fn compact_text(text: &str) -> (r: Option<String>)
    ensures
        match r {
            Some(s) => json_compact_text(text@) == Some(s@),
            None => json_compact_text(text@) is None,
        },
{
    match serde_json::from_str::<serde_json::Value>(text) {
        Ok(document) => Some(document.to_string()),
        Err(_) => None,
    }
}

/// The hexadecimal digit `d` (0 to 15) in lower case.
pub open spec fn hex_digit(d: int) -> char {
    if d < 10 {
        ('0' as int + d) as char
    } else {
        ('a' as int + d - 10) as char
    }
}

/// How serde_json writes the character `c` inside a string literal.
pub open spec fn json_char_escape(c: char) -> Seq<char> {
    if c == '"' {
        seq!['\\', '"']
    } else if c == '\\' {
        seq!['\\', '\\']
    } else if c == '\u{8}' {
        seq!['\\', 'b']
    } else if c == '\t' {
        seq!['\\', 't']
    } else if c == '\n' {
        seq!['\\', 'n']
    } else if c == '\u{c}' {
        seq!['\\', 'f']
    } else if c == '\r' {
        seq!['\\', 'r']
    } else if (c as u32) < 0x20 {
        seq!['\\', 'u', '0', '0', hex_digit((c as int) / 16), hex_digit((c as int) % 16)]
    } else {
        seq![c]
    }
}

/// The characters of `s`, each escaped as serde_json escapes it.
pub open spec fn json_escaped(s: Seq<char>) -> Seq<char>
    decreases s.len(),
{
    if s.len() == 0 {
        Seq::empty()
    } else {
        json_escaped(s.drop_last()) + json_char_escape(s.last())
    }
}

/// `s` as a JSON string literal.
pub open spec fn json_string_literal(s: Seq<char>) -> Seq<char> {
    seq!['"'] + json_escaped(s) + seq!['"']
}

/// `s` as a JSON string literal.
///
/// Calls `serde_json::to_string` on the string. The contract states the
/// escaping of serde_json's default formatter (`format_escaped_str` with the
/// `ESCAPE` table of `ser.rs`): `"` and `\` are escaped with a backslash,
/// backspace, tab, line feed, form feed and carriage return by their short
/// escapes, other characters below U+0020 as `\u00` and two lower-case hex
/// digits, all else as it is. Serialising a `str` into a `Vec` cannot fail.
#[verifier::external_body]
pub(crate) fn quote(s: &str) -> (r: String)
    ensures
        r@ == json_string_literal(s@),
{
    match serde_json::to_string(s) {
        Ok(text) => text,
        Err(_) => String::new(),
    }
}

} // verus!
