//! JSON text, as far as the bridge reads and writes it.
//!
//! Decoding and string escaping are serde_json's; this module states what
//! the rest of the crate relies on.

use crate::text::{text_eq, texts};
use vstd::prelude::*;
use vstd::string::*;

verus! {

/// The error serde_json reports for a text it cannot decode.
#[verifier::external_type_specification]
#[verifier::external_body]
pub struct ExJsonError(serde_json::Error);

/// The value of one member of a JSON object, one level deep: scalars that
/// the bridge reads are kept, everything else is known by its kind only.
pub enum JsonField {
    Null,
    Bool(bool),
    Number,
    Text(String),
    Array,
    Object,
}

/// One member of a JSON object.
pub struct JsonMember {
    pub key: String,
    pub value: JsonField,
}

/// The mathematical value of a [`JsonField`].
pub enum FieldModel {
    Null,
    Bool(bool),
    Number,
    Text(Seq<char>),
    Array,
    Object,
}

/// The mathematical value of a [`JsonMember`].
pub struct MemberModel {
    pub key: Seq<char>,
    pub value: FieldModel,
}

impl View for JsonField {
    type V = FieldModel;

    open spec fn view(&self) -> FieldModel {
        match self {
            JsonField::Null => FieldModel::Null,
            JsonField::Bool(b) => FieldModel::Bool(*b),
            JsonField::Number => FieldModel::Number,
            JsonField::Text(s) => FieldModel::Text(s@),
            JsonField::Array => FieldModel::Array,
            JsonField::Object => FieldModel::Object,
        }
    }
}

impl View for JsonMember {
    type V = MemberModel;

    open spec fn view(&self) -> MemberModel {
        MemberModel { key: self.key@, value: self.value@ }
    }
}

/// The members of a decoded object, each by its view.
pub open spec fn members_model(members: Seq<JsonMember>) -> Seq<MemberModel> {
    members.map_values(|m: JsonMember| m@)
}

/// The members of the JSON object that `text` spells, in the order in which
/// serde_json hands them out, or `None` where `text` is not one JSON object.
pub uninterp spec fn object_members(text: Seq<char>) -> Option<Seq<MemberModel>>;

/// The JSON string literal for `text`: quoted and escaped by serde_json.
pub uninterp spec fn string_literal(text: Seq<char>) -> Seq<char>;

/// Decodes `text` with `serde_json::from_str` into a `serde_json::Map`.
///
/// Trusted: the call succeeds exactly on the texts for which
/// [`object_members`] is defined, and then hands out those members.
#[verifier::external_body]
pub(crate) fn parse_object(text: &str) -> (r: Result<Vec<JsonMember>, serde_json::Error>)
    ensures
        match r {
            Ok(members) => object_members(text@) == Some(members_model(members@)),
            Err(_) => object_members(text@) is None,
        },
{
    let map: serde_json::Map<String, serde_json::Value> = serde_json::from_str(text)?;
    Ok(map.into_iter().map(|(key, value)| JsonMember {
        key,
        value: match value {
            serde_json::Value::Null => JsonField::Null,
            serde_json::Value::Bool(b) => JsonField::Bool(b),
            serde_json::Value::Number(_) => JsonField::Number,
            serde_json::Value::String(s) => JsonField::Text(s),
            serde_json::Value::Array(_) => JsonField::Array,
            serde_json::Value::Object(_) => JsonField::Object,
        },
    }).collect())
}

/// Encodes `text` as a JSON string literal with `serde_json::to_string`.
///
/// Trusted: serialising a string slice cannot fail, and the result is the
/// literal that [`string_literal`] names.
#[verifier::external_body]
pub(crate) fn quote(text: &str) -> (r: Result<String, serde_json::Error>)
    ensures
        match r {
            Ok(literal) => literal@ == string_literal(text@),
            Err(_) => false,
        },
{
    serde_json::to_string(text)
}

/// The text of the first member of `members` named `key`: `None` where no
/// member has that name, or where the first that has it holds no string.
pub open spec fn text_member(members: Seq<MemberModel>, key: Seq<char>) -> Option<Seq<char>>
    decreases members.len(),
{
    if members.len() == 0 {
        None
    } else if members[0].key == key {
        match members[0].value {
            FieldModel::Text(text) => Some(text),
            _ => None,
        }
    } else {
        text_member(members.drop_first(), key)
    }
}

/// Looks up the string that the member `key` of a decoded object holds.
pub fn find_text<'a>(members: &'a Vec<JsonMember>, key: &str) -> (found: Option<&'a str>)
    ensures
        match found {
            Some(text) => text_member(members_model(members@), key@) == Some(text@),
            None => text_member(members_model(members@), key@) is None,
        },
{
    let ghost all = members_model(members@);
    let mut i: usize = 0;
    assert(all.skip(0) =~= all);
    while i < members.len()
        invariant
            i <= members.len(),
            all == members_model(members@),
            text_member(all, key@) == text_member(all.skip(i as int), key@),
        decreases members.len() - i,
    {
        proof {
            assert(all.skip(i as int)[0] == members@[i as int]@);
            assert(all.skip(i as int).drop_first() =~= all.skip(i as int + 1));
        }
        if text_eq(members[i].key.as_str(), key) {
            return match &members[i].value {
                JsonField::Text(text) => Some(text.as_str()),
                _ => None,
            };
        }
        i = i + 1;
    }
    None
}

/// The JSON string literal for `text`.
pub fn literal(text: &str) -> (json: String)
    ensures
        json@ == string_literal(text@),
{
    match quote(text) {
        Ok(json) => json,
        Err(_) => String::new(),
    }
}

/// The texts of `parts`, separated by commas.
pub open spec fn comma_joined(parts: Seq<Seq<char>>) -> Seq<char>
    decreases parts.len(),
{
    if parts.len() == 0 {
        Seq::empty()
    } else if parts.len() == 1 {
        parts[0]
    } else {
        comma_joined(parts.drop_last()) + ","@ + parts.last()
    }
}

/// Writes `parts` one after the other, with a comma between each two.
pub fn join_with_commas(parts: &Vec<String>) -> (joined: String)
    ensures
        joined@ == comma_joined(texts(parts@)),
{
    let ghost all = texts(parts@);
    let mut joined = String::new();
    let mut i: usize = 0;
    while i < parts.len()
        invariant
            i <= parts.len(),
            all == texts(parts@),
            joined@ == comma_joined(all.take(i as int)),
        decreases parts.len() - i,
    {
        proof {
            let next = all.take(i as int + 1);
            assert(next.drop_last() =~= all.take(i as int));
            assert(next.last() == parts@[i as int]@);
            if i == 0 {
                assert(joined@ + parts@[0]@ =~= parts@[0]@);
            }
        }
        if i > 0 {
            joined.append(",");
        }
        joined.append(parts[i].as_str());
        i = i + 1;
    }
    assert(all.take(parts.len() as int) =~= all);
    joined
}

/// The JSON string literals of `items`, in order.
pub open spec fn literals(items: Seq<Seq<char>>) -> Seq<Seq<char>> {
    items.map_values(|text: Seq<char>| string_literal(text))
}

/// The JSON array of the literals of `items`.
pub open spec fn array_json(items: Seq<Seq<char>>) -> Seq<char> {
    "["@ + comma_joined(literals(items)) + "]"@
}

/// Writes `items` as a JSON array of strings.
pub fn literal_array(items: &Vec<String>) -> (json: String)
    ensures
        json@ == array_json(texts(items@)),
{
    let mut parts: Vec<String> = Vec::new();
    let mut i: usize = 0;
    while i < items.len()
        invariant
            i <= items.len(),
            texts(parts@) == literals(texts(items@).take(i as int)),
        decreases items.len() - i,
    {
        let item = literal(items[i].as_str());
        proof {
            let done = texts(items@).take(i as int);
            let next = texts(items@).take(i as int + 1);
            assert(next =~= done.push(items@[i as int]@));
            assert(literals(next) =~= literals(done).push(item@));
            assert(texts(parts@.push(item)) =~= texts(parts@).push(item@));
        }
        parts.push(item);
        i = i + 1;
    }
    assert(texts(items@).take(items.len() as int) =~= texts(items@));
    let list = join_with_commas(&parts);
    let mut json = String::from_str("[");
    json.append(list.as_str());
    json.append("]");
    json
}

/// The JSON text of a flag.
pub open spec fn flag_json(flag: bool) -> Seq<char> {
    if flag {
        "true"@
    } else {
        "false"@
    }
}

/// Writes a flag as JSON.
pub fn flag(value: bool) -> (json: &'static str)
    ensures
        json@ == flag_json(value),
{
    if value {
        "true"
    } else {
        "false"
    }
}

/// Appends `label` and the literal of `value` to `out`.
pub fn push_member(out: &mut String, label: &str, value: &str)
    ensures
        final(out)@ == old(out)@ + label@ + string_literal(value@),
{
    let json = literal(value);
    out.append(label);
    out.append(json.as_str());
}

} // verus!
