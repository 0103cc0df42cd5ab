//! JSON, as far as the settings and the broadcast messages need it. Parsing and writing
//! are `serde_json`'s; this module says what it writes, and names what it parses.

use vstd::prelude::*;

verus! {

/// A JSON value of the `serde_json` crate.
#[verifier::external_type_specification]
#[verifier::external_body]
pub struct ExJsonValue(serde_json::Value);

/// What a JSON value holds, written out: its compact JSON text, which is what
/// `Value::to_string` returns. Two values with the same text are the same value.
pub uninterp spec fn json_text(value: serde_json::Value) -> Seq<char>;

/// The compact JSON text of the value that `serde_json::from_str` parses `text` to, or
/// `None` where it reports an error.
pub uninterp spec fn json_normalized(text: Seq<char>) -> Option<Seq<char>>;

/// The lower-case hexadecimal digit `d`.
pub open spec fn lower_hex_char(d: int) -> char {
    if d == 0 {
        '0'
    } else if d == 1 {
        '1'
    } else if d == 2 {
        '2'
    } else if d == 3 {
        '3'
    } else if d == 4 {
        '4'
    } else if d == 5 {
        '5'
    } else if d == 6 {
        '6'
    } else if d == 7 {
        '7'
    } else if d == 8 {
        '8'
    } else if d == 9 {
        '9'
    } else if d == 10 {
        'a'
    } else if d == 11 {
        'b'
    } else if d == 12 {
        'c'
    } else if d == 13 {
        'd'
    } else if d == 14 {
        'e'
    } else {
        'f'
    }
}

/// Whether `c` is written as it is inside a JSON string: every character but the quote,
/// the backslash and the control characters below the space.
pub open spec fn is_plain(c: char) -> bool {
    c != '"' && c != '\\' && c as u32 >= 0x20
}

/// How `serde_json` writes the character `c` inside a JSON string. The quote and the
/// backslash get a backslash in front; backspace, tab, line feed, form feed and carriage
/// return are written `\b`, `\t`, `\n`, `\f`, `\r`; the other control characters below
/// the space are written `\u00` and two lower-case hexadecimal digits; every other
/// character is written as it is.
pub open spec fn json_escaped_char(c: char) -> Seq<char> {
    let u = c as u32;
    if c == '"' {
        seq!['\\', '"']
    } else if c == '\\' {
        seq!['\\', '\\']
    } else if u == 0x08 {
        seq!['\\', 'b']
    } else if u == 0x09 {
        seq!['\\', 't']
    } else if u == 0x0A {
        seq!['\\', 'n']
    } else if u == 0x0C {
        seq!['\\', 'f']
    } else if u == 0x0D {
        seq!['\\', 'r']
    } else if u < 0x20 {
        seq!['\\', 'u', '0', '0', lower_hex_char(u as int / 16), lower_hex_char(u as int % 16)]
    } else {
        seq![c]
    }
}

/// The characters of `text` as they are written inside a JSON string.
pub open spec fn json_escaped(text: Seq<char>) -> Seq<char>
    decreases text.len(),
{
    if text.len() == 0 {
        Seq::empty()
    } else {
        json_escaped(text.drop_last()) + json_escaped_char(text.last())
    }
}

/// The JSON text of the string value with the characters `text`: the escaped characters
/// between two quotes.
pub open spec fn json_quoted(text: Seq<char>) -> Seq<char> {
    seq!['"'] + json_escaped(text) + seq!['"']
}

/// Whether `a` comes before `b` in the order of strings, which compares them character
/// by character and puts a string before its extensions.
pub open spec fn text_before(a: Seq<char>, b: Seq<char>) -> bool
    decreases a.len(),
{
    if b.len() == 0 {
        false
    } else if a.len() == 0 {
        true
    } else if a[0] != b[0] {
        (a[0] as u32) < (b[0] as u32)
    } else {
        text_before(a.drop_first(), b.drop_first())
    }
}

/// A member of a JSON object in compact form: the quoted key, a colon, the value's text.
pub open spec fn json_member(key: Seq<char>, value: Seq<char>) -> Seq<char> {
    json_quoted(key) + seq![':'] + value
}

/// The compact JSON text of the object with the two members `tag_key`, a string with the
/// characters `tag`, and `body_key`, the value whose text is `body`. The members stand in
/// the order of their keys, with a comma between them. If the two keys are the same, the
/// object has the one member `body_key`.
pub open spec fn json_envelope(
    tag_key: Seq<char>,
    tag: Seq<char>,
    body_key: Seq<char>,
    body: Seq<char>,
) -> Seq<char> {
    let tag_member = json_member(tag_key, json_quoted(tag));
    let body_member = json_member(body_key, body);
    if tag_key == body_key {
        seq!['{'] + body_member + seq!['}']
    } else if text_before(tag_key, body_key) {
        seq!['{'] + tag_member + seq![','] + body_member + seq!['}']
    } else {
        seq!['{'] + body_member + seq![','] + tag_member + seq!['}']
    }
}

/// Text without a quote, a backslash or a control character is written inside a JSON
/// string as it is.
pub proof fn lemma_plain_text_is_kept(text: Seq<char>)
    requires
        forall|i: int| 0 <= i < text.len() ==> is_plain(#[trigger] text[i]),
    ensures
        json_escaped(text) == text,
    decreases text.len(),
{
    if text.len() > 0 {
        lemma_plain_text_is_kept(text.drop_last());
        assert(json_escaped_char(text.last()) =~= seq![text.last()]);
        assert(text.drop_last().push(text.last()) =~= text);
        assert(json_escaped(text) =~= text);
    }
}

/// A member of a JSON object, as far as the settings distinguish values.
#[derive(Debug)]
pub enum JsonField {
    /// `true` or `false`.
    Bool(bool),
    /// A string.
    Text(String),
    /// Any other value.
    Other,
}

/// The mathematical value of a [`JsonField`].
pub enum FieldView {
    Bool(bool),
    Text(Seq<char>),
    Other,
}

impl View for JsonField {
    type V = FieldView;

    open spec fn view(&self) -> FieldView {
        match self {
            JsonField::Bool(b) => FieldView::Bool(*b),
            JsonField::Text(s) => FieldView::Text(s@),
            JsonField::Other => FieldView::Other,
        }
    }
}

/// The members of the JSON object whose compact text is `document`, each under its key;
/// no members where `document` is the text of a value that is not an object.
pub uninterp spec fn json_members(document: Seq<char>) -> Map<Seq<char>, FieldView>;

/// Parses JSON text with `serde_json::from_str`. The value returned is the one that the
/// text denotes; `None` stands for every error that the parser reports.
#[verifier::external_body]
pub(crate) fn parse_json(text: &str) -> (value: Option<serde_json::Value>)
    ensures
        match value {
            Some(v) => json_normalized(text@) == Some(json_text(v)),
            None => json_normalized(text@) is None,
        },
{
    serde_json::from_str::<serde_json::Value>(text).ok()
}

/// Looks the key `key` up in a JSON value with `Value::get`, which finds a member only in
/// an object, and tells a boolean, a string and any other value apart.
#[verifier::external_body]
pub(crate) fn json_field(value: &serde_json::Value, key: &str) -> (field: Option<JsonField>)
    ensures
        match field {
            Some(f) => json_members(json_text(*value)).contains_key(key@) && json_members(
                json_text(*value),
            )[key@] == f@,
            None => !json_members(json_text(*value)).contains_key(key@),
        },
{
    match value.get(key) {
        None => None,
        Some(serde_json::Value::Bool(b)) => Some(JsonField::Bool(*b)),
        Some(serde_json::Value::String(s)) => Some(JsonField::Text(s.clone())),
        Some(_) => Some(JsonField::Other),
    }
}

/// Makes the JSON string value with the characters of `text`, with `Value::String`. Its
/// text is the quoted string as `serde_json` writes strings.
#[verifier::external_body]
pub(crate) fn json_string(text: &str) -> (value: serde_json::Value)
    ensures
        json_text(value) == json_quoted(text@),
{
    serde_json::Value::String(text.to_owned())
}

/// Writes the JSON object with the members `tag_key`, the string `tag`, and `body_key`,
/// the value `body`: the members are put into a `serde_json::Map`, which keeps them in
/// the order of their keys and keeps one member per key, and the object is written with
/// `Value::to_string`, in compact form.
#[verifier::external_body]
pub(crate) fn write_envelope(tag_key: &str, tag: &str, body_key: &str, body: serde_json::Value)
    -> (text: String)
    ensures
        text@ == json_envelope(tag_key@, tag@, body_key@, json_text(body)),
{
    let mut object = serde_json::Map::new();
    object.insert(tag_key.to_owned(), serde_json::Value::String(tag.to_owned()));
    object.insert(body_key.to_owned(), body);
    serde_json::Value::Object(object).to_string()
}

} // verus!
