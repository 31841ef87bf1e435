//! The state payload, and what the payloads have in common.

use vstd::prelude::*;
use vstd::string::*;

use crate::decimal::{decimal_text, digits};
use crate::encoding::{
    escaped, has_member, json_object, json_string, object_members, object_value, string_value,
    written_members,
};
use crate::meter::{placeholder_reading, MeterValues};

verus! {

/// Members of a JSON object: each a key and the JSON text of its value.
pub type Members = Seq<(Seq<char>, Seq<char>)>;

/// Members of the state payload: the availability marker, then the two
/// counters, each with its digits written out.
pub open spec fn state_members(values: MeterValues) -> Members {
    seq![
        ("state"@, json_string("ON"@)),
        ("in_kwh"@, decimal_text(values.in_kwh)),
        ("out_kwh"@, decimal_text(values.out_kwh)),
    ]
}

/// The state payload: the JSON object of its three members, such as
/// `{"state":"ON","in_kwh":1337.0,"out_kwh":42.0}`.
pub open spec fn state_text(values: MeterValues) -> Seq<char> {
    json_object(state_members(values))
}

/// Adds the string member `key`, which the object does not hold yet.
pub(crate) fn put_string(object: &mut json::object::Object, key: &str, content: &str)
    requires
        !has_member(object_members(*old(object)), key@),
    ensures
        object_members(*final(object)) == object_members(*old(object)).push(
            (key@, json_string(content@)),
        ),
{
    object.insert(key, string_value(content));
}

/// Adds the object member `key`, which the object does not hold yet.
pub(crate) fn put_object(object: &mut json::object::Object, key: &str, child: json::object::Object)
    requires
        !has_member(object_members(*old(object)), key@),
    ensures
        object_members(*final(object)) == object_members(*old(object)).push(
            (key@, json_object(object_members(child))),
        ),
{
    object.insert(key, object_value(child));
}

/// Whether the character is written as it is in a JSON string: it is no
/// quote, no backslash and no character below the space.
pub open spec fn is_plain(c: char) -> bool {
    c != '"' && c != '\\' && (c as u32) >= 0x20
}

/// A string of plain characters is written as it is, between two quotes.
pub proof fn lemma_plain_string(content: Seq<char>)
    requires
        forall|i: int| 0 <= i < content.len() ==> is_plain(#[trigger] content[i]),
    ensures
        escaped(content) == content,
        json_string(content) == seq!['"'] + content + seq!['"'],
    decreases content.len(),
{
    if content.len() > 0 {
        lemma_plain_string(content.drop_last());
        assert(is_plain(content.last()));
        assert(content.drop_last() + seq![content.last()] =~= content);
    }
}

/// The state payload, written out: the marker `"state":"ON"`, then the
/// imported energy under `in_kwh`, then the exported energy under `out_kwh`.
pub proof fn lemma_state_text(values: MeterValues)
    ensures
        state_text(values) == "{\"state\":\"ON\",\"in_kwh\":"@ + decimal_text(values.in_kwh)
            + ",\"out_kwh\":"@ + decimal_text(values.out_kwh) + "}"@,
{
    reveal_strlit("state");
    reveal_strlit("ON");
    reveal_strlit("in_kwh");
    reveal_strlit("out_kwh");
    reveal_strlit("{\"state\":\"ON\",\"in_kwh\":");
    reveal_strlit(",\"out_kwh\":");
    reveal_strlit("}");
    lemma_plain_string("state"@);
    lemma_plain_string("ON"@);
    lemma_plain_string("in_kwh"@);
    lemma_plain_string("out_kwh"@);
    reveal_with_fuel(written_members, 3);
    let members = state_members(values);
    assert(members.drop_last() =~= seq![members[0], members[1]]);
    assert(members.drop_last().drop_last() =~= seq![members[0]]);
    assert(state_text(values) =~= "{\"state\":\"ON\",\"in_kwh\":"@ + decimal_text(values.in_kwh)
        + ",\"out_kwh\":"@ + decimal_text(values.out_kwh) + "}"@);
}

/// A reading of 1337 kWh imported and 42 kWh exported is published as
/// `{"state":"ON","in_kwh":1337.0,"out_kwh":42.0}`.
pub proof fn lemma_sample_state_text()
    ensures
        state_text(placeholder_reading())
            == "{\"state\":\"ON\",\"in_kwh\":1337.0,\"out_kwh\":42.0}"@,
{
    let values = placeholder_reading();
    lemma_state_text(values);
    reveal_strlit("0123456789");
    reveal_strlit(".0");
    reveal_strlit("1337.0");
    reveal_strlit("42.0");
    reveal_with_fuel(digits, 4);
    assert(digits(1337) =~= seq!['1', '3', '3', '7']);
    assert(digits(42) =~= seq!['4', '2']);
    assert(decimal_text(values.in_kwh) =~= "1337.0"@);
    assert(decimal_text(values.out_kwh) =~= "42.0"@);
    reveal_strlit("{\"state\":\"ON\",\"in_kwh\":");
    reveal_strlit(",\"out_kwh\":");
    reveal_strlit("}");
    reveal_strlit("{\"state\":\"ON\",\"in_kwh\":1337.0,\"out_kwh\":42.0}");
    assert("{\"state\":\"ON\",\"in_kwh\":"@ + "1337.0"@ + ",\"out_kwh\":"@ + "42.0"@ + "}"@
        =~= "{\"state\":\"ON\",\"in_kwh\":1337.0,\"out_kwh\":42.0}"@);
}

/// Serialises a reading as the state payload.
///
/// The readings are written with a digit behind the point, which the JSON
/// writer of the `json` crate does not do. So the text is put together here,
/// and is proved to be the JSON object of the three members.
pub fn state_payload(values: &MeterValues) -> (payload: String)
    ensures
        payload@ == state_text(*values),
{
    let mut payload = String::from_str("{\"state\":\"ON\",\"in_kwh\":");
    payload.append(values.in_kwh.to_text().as_str());
    payload.append(",\"out_kwh\":");
    payload.append(values.out_kwh.to_text().as_str());
    payload.append("}");
    proof {
        lemma_state_text(*values);
    }
    payload
}

} // verus!
