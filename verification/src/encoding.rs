//! JSON text, written and read by the `json` crate.
//!
//! Nothing in this module is proved. Each item states what a function of the
//! `json` crate (or, for paths, of the standard library) does, and the rest
//! of the library is verified against these statements. The text of a string
//! and of an object is spelled out. What takes pages to say (what the parser
//! makes of a text, how a path is shown) has a name, and the contracts of the
//! library speak of that name.

use vstd::prelude::*;

use crate::digits::numbers_fit;

verus! {

/// A JSON value of the `json` crate. Its inside is not visible to the verifier.
#[verifier::external_type_specification]
#[verifier::external_body]
pub struct ExJsonValue(json::JsonValue);

/// A JSON object of the `json` crate: members in the order of their insertion.
#[verifier::external_type_specification]
#[verifier::external_body]
pub struct ExObject(json::object::Object);

/// What a `JsonValue` holds: its compact JSON text, which is what the `json`
/// crate writes for it inside the text of an object.
pub uninterp spec fn json_text(value: json::JsonValue) -> Seq<char>;

/// What an `Object` holds: its members in their order, each as its key and
/// the compact JSON text of its value.
pub uninterp spec fn object_members(object: json::object::Object) -> Seq<(Seq<char>, Seq<char>)>;

/// The lower-case hexadecimal digit for a number below sixteen.
pub open spec fn hex_digit(value: int) -> char {
    "0123456789abcdef"@[value]
}

/// How the `json` crate writes one character of a string: the quote and the
/// backslash behind a backslash; backspace, tab, line feed, form feed and
/// carriage return by their letters; any other character below the space as
/// `\u00` and its two hexadecimal digits; every other character as it is.
pub open spec fn escaped_char(c: char) -> Seq<char> {
    if c == '"' {
        seq!['\\', '"']
    } else if c == '\\' {
        seq!['\\', '\\']
    } else if c == '\u{8}' {
        seq!['\\', 'b']
    } else if c == '\t' {
        seq!['\\', 't']
    } else if c == '\n' {
        seq!['\\', 'n']
    } else if c == '\u{c}' {
        seq!['\\', 'f']
    } else if c == '\r' {
        seq!['\\', 'r']
    } else if (c as u32) < 0x20 {
        seq!['\\', 'u', '0', '0', hex_digit((c as u32) as int / 16), hex_digit((c as u32) as int % 16)]
    } else {
        seq![c]
    }
}

/// The characters of a string, each written as `escaped_char` says.
pub open spec fn escaped(content: Seq<char>) -> Seq<char>
    decreases content.len(),
{
    if content.len() == 0 {
        Seq::empty()
    } else {
        escaped(content.drop_last()) + escaped_char(content.last())
    }
}

/// The JSON text of a string, as the `json` crate writes a string value and
/// the key of a member: the escaped characters between two quotes.
pub open spec fn json_string(content: Seq<char>) -> Seq<char> {
    seq!['"'] + escaped(content) + seq!['"']
}

/// One member as it stands in the text of an object: the key as a JSON
/// string, a colon, and the text of the value.
pub open spec fn written_member(member: (Seq<char>, Seq<char>)) -> Seq<char> {
    json_string(member.0) + seq![':'] + member.1
}

/// The members as they stand in the text of an object: in their order, with
/// a comma between two of them.
pub open spec fn written_members(members: Seq<(Seq<char>, Seq<char>)>) -> Seq<char>
    decreases members.len(),
{
    if members.len() == 0 {
        Seq::empty()
    } else if members.len() == 1 {
        written_member(members[0])
    } else {
        written_members(members.drop_last()) + seq![','] + written_member(members.last())
    }
}

/// The compact JSON text of an object with the given members, as
/// `Object::dump` prints it: the members between two braces.
pub open spec fn json_object(members: Seq<(Seq<char>, Seq<char>)>) -> Seq<char> {
    seq!['{'] + written_members(members) + seq!['}']
}

/// What `json::parse` makes of a text whose fractions it can count (see
/// `numbers_fit`). For a text that is a JSON object: the
/// members of the parsed object in their order, each as its key and its value
/// as `Display` shows it (a string without quotes, anything else as its JSON
/// text). For another JSON value: no members. For a text that is not JSON:
/// the message of the parser's error.
pub uninterp spec fn json_document(text: Seq<char>) -> Result<
    Seq<(Seq<char>, Seq<char>)>,
    Seq<char>,
>;

/// What `Debug` shows of the path `std::path::Path::new(path)`: the path in
/// quotes, with escapes.
pub uninterp spec fn path_debug(path: Seq<char>) -> Seq<char>;

/// Key and text of each entry, as mathematical sequences.
pub open spec fn members_of(entries: Seq<(String, String)>) -> Seq<(Seq<char>, Seq<char>)> {
    Seq::new(entries.len(), |i: int| (entries[i].0@, entries[i].1@))
}

/// Whether some member has the key `key`.
pub open spec fn has_member(members: Seq<(Seq<char>, Seq<char>)>, key: Seq<char>) -> bool {
    exists|i: int| 0 <= i < members.len() && (#[trigger] members[i]).0 == key
}

/// The position of a member with the key `key`.
pub open spec fn member_position(members: Seq<(Seq<char>, Seq<char>)>, key: Seq<char>) -> int {
    choose|i: int| 0 <= i < members.len() && (#[trigger] members[i]).0 == key
}

/// The members after `key` was set to `text`: a member with that key keeps its
/// place and gets the new text, a new key goes to the end.
pub open spec fn with_member(
    members: Seq<(Seq<char>, Seq<char>)>,
    key: Seq<char>,
    text: Seq<char>,
) -> Seq<(Seq<char>, Seq<char>)> {
    if has_member(members, key) {
        members.update(member_position(members, key), (key, text))
    } else {
        members.push((key, text))
    }
}

/// `Object::new` of the `json` crate: the new object has no members.
pub assume_specification[ json::object::Object::new ]() -> (object: json::object::Object)
    ensures
        object_members(object) == Seq::<(Seq<char>, Seq<char>)>::empty(),
;

/// `Object::insert` of the `json` crate: sets the member `key` to `value`.
/// An object holds a key once: where the key is there already, the member
/// keeps its place and gets the new value; a new key is put behind the
/// others. The other members stay as they are.
pub assume_specification[ json::object::Object::insert ](
    object: &mut json::object::Object,
    key: &str,
    value: json::JsonValue,
)
    ensures
        object_members(*final(object)) == with_member(
            object_members(*old(object)),
            key@,
            json_text(value),
        ),
;

/// `Object::dump` of the `json` crate: the compact JSON text of the object:
/// a brace, the members with commas between them, each as its key in quotes,
/// a colon and the text of its value, and a brace.
pub assume_specification[ json::object::Object::dump ](object: &json::object::Object) -> (text:
    String)
    ensures
        text@ == json_object(object_members(*object)),
;

/// `JsonValue::from` of the `json` crate on a string slice: the value is a
/// JSON string, written as the slice in quotes with its characters escaped.
#[verifier::external_body]
pub(crate) fn string_value(content: &str) -> (value: json::JsonValue)
    ensures
        json_text(value) == json_string(content@),
{
    json::JsonValue::from(content)
}

/// `JsonValue::from` of the `json` crate on an object: the object as a value.
/// Its text is the one that `Object::dump` prints for the object.
#[verifier::external_body]
pub(crate) fn object_value(object: json::object::Object) -> (value: json::JsonValue)
    ensures
        json_text(value) == json_object(object_members(object)),
{
    json::JsonValue::from(object)
}

/// `json::parse` of the `json` crate, with the members of the parsed value
/// handed out as strings, or the error as its message. The result depends on
/// the text alone: see `json_document`.
///
/// The parser lowers a sixteen-bit power of ten by one for every digit of a
/// fraction that it takes into the mantissa, without a test, and fails when
/// that goes below the least value. Only a number that begins with `0.`
/// gets that far, so a text that holds one with more than 32768 such digits
/// outside a string is not to be handed in.
#[verifier::external_body]
pub(crate) fn document_members(text: &str) -> (document: Result<Vec<(String, String)>, String>)
    requires
        numbers_fit(text@),
    ensures
        match document {
            Ok(entries) => json_document(text@) == Ok::<Seq<(Seq<char>, Seq<char>)>, Seq<char>>(
                members_of(entries@),
            ),
            Err(cause) => json_document(text@) == Err::<Seq<(Seq<char>, Seq<char>)>, Seq<char>>(
                cause@,
            ),
        },
{
    match json::parse(text) {
        Ok(value) => Ok(
            value.entries().map(|(key, member)| (key.to_string(), member.to_string())).collect(),
        ),
        Err(err) => Err(err.to_string()),
    }
}

/// `Debug` of `std::path::Path`, as `format!` prints it. The result depends
/// on the path alone.
#[verifier::external_body]
pub(crate) fn debug_path(path: &str) -> (shown: String)
    ensures
        shown@ == path_debug(path@),
{
    format!("{:?}", std::path::Path::new(path))
}

} // verus!
