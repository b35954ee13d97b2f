//! The little of JSON that this crate reads itself: the members of one object,
//! and of each member whether it is null, a string or something else.

use vstd::prelude::*;
use crate::text::str_eq;

verus! {

/// The value of one member of a JSON object, as far as this crate reads it.
#[derive(Clone, Debug)]
pub enum JsonField {
    /// `null`.
    Null,
    /// A string, unescaped.
    Text(String),
    /// A boolean, a number, an array or an object.
    Other,
}

/// One member of a JSON object.
#[derive(Clone, Debug)]
pub struct JsonMember {
    /// The member's name.
    pub key: String,
    /// The member's value.
    pub value: JsonField,
}

/// What a `JsonField` stands for.
pub enum FieldModel {
    Null,
    Text(Seq<char>),
    Other,
}

/// What a `JsonMember` stands for.
pub struct MemberModel {
    pub key: Seq<char>,
    pub value: FieldModel,
}

impl View for JsonField {
    type V = FieldModel;

    open spec fn view(&self) -> FieldModel {
        match self {
            JsonField::Null => FieldModel::Null,
            JsonField::Text(s) => FieldModel::Text(s@),
            JsonField::Other => FieldModel::Other,
        }
    }
}

impl View for JsonMember {
    type V = MemberModel;

    open spec fn view(&self) -> MemberModel {
        MemberModel { key: self.key@, value: self.value@ }
    }
}

/// The members that a list of `JsonMember` stands for.
pub open spec fn members_view(members: Seq<JsonMember>) -> Seq<MemberModel> {
    members.map_values(|m: JsonMember| m@)
}

/// The members of the JSON object that `text` is, or `None` where `text` is not
/// one JSON object.
pub uninterp spec fn json_object(text: Seq<char>) -> Option<Seq<MemberModel>>;

/// The value of the first member of `members` named `key`.
pub open spec fn field_of(members: Seq<MemberModel>, key: Seq<char>) -> Option<FieldModel>
    decreases members.len(),
{
    if members.len() == 0 {
        None
    } else if members[0].key == key {
        Some(members[0].value)
    } else {
        field_of(members.drop_first(), key)
    }
}

/// Calls `serde_json::from_str` at the type `serde_json::Map<String, Value>`: it
/// succeeds exactly on a text that is one JSON object, and the members it
/// returns depend on the text alone. Each member's value is handed on as null,
/// as its string, or as something else.
#[verifier::external_body]
pub(crate) fn parse_json_object(text: &str) -> (r: Result<Vec<JsonMember>, serde_json::Error>)
    ensures
        match r {
            Ok(members) => json_object(text@) == Some(members_view(members@)),
            Err(_) => json_object(text@) is None,
        },
{
    let object: serde_json::Map<String, serde_json::Value> = serde_json::from_str(text)?;
    Ok(object.into_iter().map(|(key, value)| JsonMember {
        key,
        value: match value {
            serde_json::Value::Null => JsonField::Null,
            serde_json::Value::String(s) => JsonField::Text(s),
            serde_json::Value::Bool(_) => JsonField::Other,
            serde_json::Value::Number(_) => JsonField::Other,
            serde_json::Value::Array(_) => JsonField::Other,
            serde_json::Value::Object(_) => JsonField::Other,
        },
    }).collect())
}

/// The value of the first member of `members` named `key`.
pub fn find_field<'a>(members: &'a Vec<JsonMember>, key: &str) -> (r: Option<&'a JsonField>)
    ensures
        match r {
            Some(f) => field_of(members_view(members@), key@) == Some(f@),
            None => field_of(members_view(members@), key@) is None,
        },
{
    let ghost all = members_view(members@);
    let mut i: usize = 0;
    proof {
        assert(all.skip(0) =~= all);
    }
    while i < members.len()
        invariant
            i <= members.len(),
            all == members_view(members@),
            field_of(all, key@) == field_of(all.skip(i as int), key@),
        decreases members.len() - i,
    {
        proof {
            assert(all.skip(i as int)[0] == members@[i as int]@);
            assert(all.skip(i as int).drop_first() =~= all.skip(i + 1));
        }
        if str_eq(members[i].key.as_str(), key) {
            return Some(&members[i].value);
        }
        i += 1;
    }
    None
}

} // verus!
