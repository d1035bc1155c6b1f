//! Read access to JSON documents.
//!
//! `serde_json` parses the text; a document is then queried by JSON pointer
//! (RFC 6901), and each query answers with a shallow [`JsonNode`] of plain
//! values. The library's decoders are written over these answers.

use vstd::prelude::*;

verus! {

#[verifier::external_type_specification]
#[verifier::external_body]
pub struct ExJsonValue(serde_json::Value);

/// The shape of one JSON value, without its children.
#[derive(Debug, Clone, PartialEq, Eq)]
pub enum JsonNode {
    Null,
    Bool(bool),
    /// A number, with the `u64` and `i64` it converts to without loss.
    Number { as_u64: Option<u64>, as_i64: Option<i64> },
    Str(String),
    /// An array, by its length.
    Array(usize),
    /// An object, by its keys.
    Object(Vec<String>),
}

/// A parsed JSON document together with the text it was parsed from.
///
/// Both fields are set only by [`parse_json`], so `value` is always what
/// `serde_json` makes of `text`.
pub struct JsonDoc {
    text: String,
    value: serde_json::Value,
}

impl View for JsonDoc {
    type V = Seq<char>;

    closed spec fn view(&self) -> Seq<char> {
        self.text@
    }
}

/// Whether `serde_json::from_str::<serde_json::Value>` accepts a text.
pub uninterp spec fn json_accepts(text: Seq<char>) -> bool;

/// What `serde_json::Value::pointer` finds in the document parsed from `text`
/// at `pointer`, in shallow form.
pub uninterp spec fn json_at(text: Seq<char>, pointer: Seq<char>) -> Option<JsonNode>;

/// A lowercase hexadecimal digit, for `d < 16`.
pub open spec fn hex_lower(d: int) -> char {
    if d < 10 { (48 + d) as char } else { (87 + d) as char }
}

/// How `serde_json` writes one character inside a string literal: `"` and
/// `\` behind a backslash; backspace, tab, line feed, form feed and
/// carriage return as `\b`, `\t`, `\n`, `\f`, `\r`; any other control
/// character below U+0020 as `\u00XX` with lowercase hex digits; every other
/// character as itself.
pub open spec fn json_char_text(c: char) -> Seq<char> {
    let n = c as int;
    if c == '"' {
        seq!['\\', '"']
    } else if c == '\\' {
        seq!['\\', '\\']
    } else if n == 8 {
        seq!['\\', 'b']
    } else if n == 9 {
        seq!['\\', 't']
    } else if n == 10 {
        seq!['\\', 'n']
    } else if n == 12 {
        seq!['\\', 'f']
    } else if n == 13 {
        seq!['\\', 'r']
    } else if n < 32 {
        seq!['\\', 'u', '0', '0', hex_lower(n / 16), hex_lower(n % 16)]
    } else {
        seq![c]
    }
}

/// The characters of a string, each written as [`json_char_text`] says.
pub open spec fn json_escaped(s: Seq<char>) -> Seq<char>
    decreases s.len(),
{
    if s.len() == 0 {
        Seq::empty()
    } else {
        json_escaped(s.drop_last()) + json_char_text(s.last())
    }
}

/// What `serde_json::to_string` makes of a string: the escaped characters
/// between double quotes.
pub open spec fn json_quoted(s: Seq<char>) -> Seq<char> {
    seq!['"'] + json_escaped(s) + seq!['"']
}

/// Parses a text with `serde_json::from_str::<serde_json::Value>`. Succeeds
/// exactly when `serde_json` accepts the text (the name `json_accepts`), and
/// the document keeps that text as its view.
#[verifier::external_body]
pub(crate) fn parse_json(text: &str) -> (r: Option<JsonDoc>)
    ensures
        r is Some <==> json_accepts(text@),
        r matches Some(d) ==> d@ == text@,
{
    match serde_json::from_str::<serde_json::Value>(text) {
        Ok(value) => Some(JsonDoc { text: text.to_string(), value }),
        Err(_) => None,
    }
}

/// Looks up `pointer` in a document with `serde_json::Value::pointer` and
/// returns the shape of the value found. The answer is the name `json_at`
/// applied to the document's text and the pointer.
#[verifier::external_body]
pub(crate) fn json_lookup(doc: &JsonDoc, pointer: &str) -> (r: Option<JsonNode>)
    ensures
        r == json_at(doc@, pointer@),
{
    match doc.value.pointer(pointer) {
        None => None,
        Some(serde_json::Value::Null) => Some(JsonNode::Null),
        Some(serde_json::Value::Bool(b)) => Some(JsonNode::Bool(*b)),
        Some(serde_json::Value::Number(n)) => Some(JsonNode::Number { as_u64: n.as_u64(), as_i64: n.as_i64() }),
        Some(serde_json::Value::String(s)) => Some(JsonNode::Str(s.clone())),
        Some(serde_json::Value::Array(a)) => Some(JsonNode::Array(a.len())),
        Some(serde_json::Value::Object(m)) => Some(JsonNode::Object(m.keys().cloned().collect())),
    }
}

/// Renders a string as a JSON string literal with `serde_json::to_string`
/// (which does not fail on a `str`): see [`json_quoted`].
#[verifier::external_body]
pub(crate) fn json_quote(s: &str) -> (r: String)
    ensures
        r@ == json_quoted(s@),
{
    match serde_json::to_string(s) {
        Ok(q) => q,
        Err(_) => String::new(),
    }
}

} // verus!
verus! {

/// The pointer to member `key` of the value at `p`.
pub open spec fn ptr_key(p: Seq<char>, key: Seq<char>) -> Seq<char> {
    p + seq!['/'] + key
}

/// The pointer to element `i` of the array at `p`.
pub open spec fn ptr_idx(p: Seq<char>, i: nat) -> Seq<char> {
    p + seq!['/'] + crate::text::decimal_text(i)
}

/// The string at `p`, if the value there is a string.
pub open spec fn str_at(t: Seq<char>, p: Seq<char>) -> Option<Seq<char>> {
    match json_at(t, p) {
        Some(JsonNode::Str(s)) => Some(s@),
        _ => None,
    }
}

/// The number at `p`, if it is one that converts to `u64`.
pub open spec fn u64_at(t: Seq<char>, p: Seq<char>) -> Option<u64> {
    match json_at(t, p) {
        Some(JsonNode::Number { as_u64: Some(v), .. }) => Some(v),
        _ => None,
    }
}

/// The length of the array at `p`, if the value there is an array.
pub open spec fn len_at(t: Seq<char>, p: Seq<char>) -> Option<usize> {
    match json_at(t, p) {
        Some(JsonNode::Array(n)) => Some(n),
        _ => None,
    }
}

/// Whether the value at `p` is an object.
pub open spec fn is_object_at(t: Seq<char>, p: Seq<char>) -> bool {
    json_at(t, p) matches Some(JsonNode::Object(_))
}

/// Whether the value at `p` can fill an optional string: absent, null or a string.
pub open spec fn opt_str_ok(t: Seq<char>, p: Seq<char>) -> bool {
    match json_at(t, p) {
        None => true,
        Some(JsonNode::Null) => true,
        Some(JsonNode::Str(_)) => true,
        _ => false,
    }
}

/// Whether `r` is the optional string read at `p` (none when absent or null).
pub open spec fn is_opt_str_at(t: Seq<char>, p: Seq<char>, r: Option<String>) -> bool {
    match r {
        Some(s) => str_at(t, p) == Some(s@),
        None => str_at(t, p) is None,
    }
}

/// The pointer `p/key`.
pub fn pointer_child(p: &String, key: &str) -> (r: String)
    ensures
        r@ == ptr_key(p@, key@),
{
    let mut r = p.clone();
    crate::text::push_char(&mut r, '/');
    crate::text::push_str(&mut r, key);
    r
}

/// The pointer `p/i`.
pub fn pointer_index(p: &String, i: usize) -> (r: String)
    ensures
        r@ == ptr_idx(p@, i as nat),
{
    let mut r = p.clone();
    crate::text::push_char(&mut r, '/');
    let digits = crate::text::u64_to_text(i as u64);
    crate::text::push_str(&mut r, digits.as_str());
    r
}

/// Reads the string at `p`.
pub fn lookup_str(doc: &JsonDoc, p: &String) -> (r: Option<String>)
    ensures
        r is Some <==> str_at(doc@, p@) is Some,
        r matches Some(s) ==> str_at(doc@, p@) == Some(s@),
{
    match json_lookup(doc, p.as_str()) {
        Some(JsonNode::Str(s)) => Some(s),
        _ => None,
    }
}

/// Reads the `u64` at `p`.
pub fn lookup_u64(doc: &JsonDoc, p: &String) -> (r: Option<u64>)
    ensures
        r == u64_at(doc@, p@),
{
    match json_lookup(doc, p.as_str()) {
        Some(JsonNode::Number { as_u64: Some(v), .. }) => Some(v),
        _ => None,
    }
}

/// Reads the length of the array at `p`.
pub fn lookup_len(doc: &JsonDoc, p: &String) -> (r: Option<usize>)
    ensures
        r == len_at(doc@, p@),
{
    match json_lookup(doc, p.as_str()) {
        Some(JsonNode::Array(n)) => Some(n),
        _ => None,
    }
}

/// Whether the value at `p` is an object.
pub fn lookup_is_object(doc: &JsonDoc, p: &String) -> (r: bool)
    ensures
        r == is_object_at(doc@, p@),
{
    match json_lookup(doc, p.as_str()) {
        Some(JsonNode::Object(_)) => true,
        _ => false,
    }
}

/// Reads an optional string at `p`: `Err` when the value there is neither
/// absent, null nor a string.
pub fn lookup_opt_str(doc: &JsonDoc, p: &String) -> (r: Result<Option<String>, ()>)
    ensures
        r is Ok <==> opt_str_ok(doc@, p@),
        r matches Ok(o) ==> is_opt_str_at(doc@, p@, o),
{
    match json_lookup(doc, p.as_str()) {
        None => Ok(None),
        Some(JsonNode::Null) => Ok(None),
        Some(JsonNode::Str(s)) => Ok(Some(s)),
        _ => Err(()),
    }
}

} // verus!
