use vstd::prelude::*;

verus! {

/// A JSON value as far as the marker document cares about it.
#[derive(Clone, Debug)]
pub enum JsonField {
    Null,
    Text(String),
    /// A number, boolean, array or object.
    Other,
}

/// The mathematical form of a `JsonField`.
pub enum FieldModel {
    Null,
    Text(Seq<char>),
    Other,
}

/// One member of a JSON object.
#[derive(Clone, Debug)]
pub struct JsonEntry {
    pub key: String,
    pub value: JsonField,
}

impl JsonField {
    pub open spec fn model(&self) -> FieldModel {
        match self {
            JsonField::Null => FieldModel::Null,
            JsonField::Text(s) => FieldModel::Text(s@),
            JsonField::Other => FieldModel::Other,
        }
    }
}

impl JsonEntry {
    pub open spec fn model(&self) -> (Seq<char>, FieldModel) {
        (self.key@, self.value.model())
    }
}

/// The mathematical form of a list of members.
pub open spec fn members_model(v: Seq<JsonEntry>) -> Seq<(Seq<char>, FieldModel)> {
    v.map_values(|e: JsonEntry| e.model())
}

/// The value of the first member named `key`, if any.
pub open spec fn member(members: Seq<(Seq<char>, FieldModel)>, key: Seq<char>) -> Option<FieldModel>
    decreases members.len(),
{
    if members.len() == 0 {
        None
    } else if members[0].0 == key {
        Some(members[0].1)
    } else {
        member(members.drop_first(), key)
    }
}

/// The position of the first member named `key`, if any.
pub fn member_index(members: &Vec<JsonEntry>, key: &str) -> (r: Option<usize>)
    ensures
        r is None <==> member(members_model(members@), key@) is None,
        r matches Some(i) ==> i < members@.len() && members@[i as int].key@ == key@ && member(
            members_model(members@),
            key@,
        ) == Some(members@[i as int].value.model()),
{
    let ghost models = members_model(members@);
    let wanted = String::from_str(key);
    assert(models.subrange(0, models.len() as int) == models);
    let mut i: usize = 0;
    while i < members.len()
        invariant
            0 <= i <= members@.len(),
            models == members_model(members@),
            wanted@ == key@,
            member(models, key@) == member(models.subrange(i as int, models.len() as int), key@),
        decreases members@.len() - i,
    {
        proof {
            let rest = models.subrange(i as int, models.len() as int);
            assert(rest.drop_first() == models.subrange(i + 1, models.len() as int));
            assert(rest[0] == members@[i as int].model());
        }
        if members[i].key == wanted {
            return Some(i);
        }
        i = i + 1;
    }
    assert(models.subrange(i as int, models.len() as int).len() == 0);
    None
}

/// The members that serde_json reads from a text holding one JSON object, or
/// `None` where the text is not such an object.
pub uninterp spec fn json_object_members(text: Seq<char>) -> Option<Seq<(Seq<char>, FieldModel)>>;

/// The JSON string literal that serde_json writes for a text, quotes included.
pub uninterp spec fn json_string_literal(s: Seq<char>) -> Option<Seq<char>>;

/// Relies on `serde_json::from_str` into a `serde_json::Map<String, Value>`:
/// the text must be one JSON object; the members come out one per key.
#[verifier::external_body]
pub(crate) fn parse_object(text: &str) -> (r: Option<Vec<JsonEntry>>)
    ensures
        r is None <==> json_object_members(text@) is None,
        r matches Some(v) ==> json_object_members(text@) == Some(members_model(v@)),
{
    let map = serde_json::from_str::<serde_json::Map<String, serde_json::Value>>(text).ok()?;
    Some(map.into_iter().map(|(key, value)| JsonEntry { key, value: match value {
        serde_json::Value::Null => JsonField::Null,
        serde_json::Value::String(s) => JsonField::Text(s),
        _ => JsonField::Other,
    } }).collect())
}

/// Relies on `serde_json::to_string` of a `str`: the quoted, escaped literal.
#[verifier::external_body]
pub(crate) fn string_literal(s: &str) -> (r: Option<String>)
    ensures
        r is None <==> json_string_literal(s@) is None,
        r matches Some(q) ==> json_string_literal(s@) == Some(q@),
{
    serde_json::to_string(s).ok()
}

} // verus!
