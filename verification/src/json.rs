//! A one-level-deep model of a parsed JSON document. The command protocol
//! reads only strings and booleans out of a top-level object, so a field's
//! value is kept as its kind together with a string or boolean payload;
//! payloads of nested composites are not retained.

use vstd::prelude::*;

verus! {

/// One JSON value, seen one level deep.
#[derive(Debug, PartialEq)]
pub enum Json {
    Null,
    Bool(bool),
    Num,
    Str(String),
    Arr,
    Obj,
}

/// The mathematical view of a one-level-deep JSON value.
#[verifier::ext_equal]
pub enum JsonV {
    Null,
    Bool(bool),
    Num,
    Str(Seq<char>),
    Arr,
    Obj,
}

impl View for Json {
    type V = JsonV;

    open spec fn view(&self) -> JsonV {
        match self {
            Json::Null => JsonV::Null,
            Json::Bool(b) => JsonV::Bool(*b),
            Json::Num => JsonV::Num,
            Json::Str(s) => JsonV::Str(s@),
            Json::Arr => JsonV::Arr,
            Json::Obj => JsonV::Obj,
        }
    }
}

/// One field of a JSON object: its name and its value.
#[derive(Debug, PartialEq)]
pub struct Field {
    pub name: String,
    pub value: Json,
}

/// The mathematical view of one object field.
#[verifier::ext_equal]
pub struct FieldV {
    pub name: Seq<char>,
    pub value: JsonV,
}

impl View for Field {
    type V = FieldV;

    open spec fn view(&self) -> FieldV {
        FieldV { name: self.name@, value: self.value@ }
    }
}

/// The views of a sequence of fields.
pub open spec fn fields_view(fields: Seq<Field>) -> Seq<FieldV> {
    fields.map_values(|f: Field| f@)
}

/// The fields of the JSON object that the given text parses to, or `None`
/// when the text is not a JSON document or the document is not an object.
/// Parsing is a function of the text alone; what it yields is named here
/// and stated by `parse_object_fields`.
pub uninterp spec fn json_object_fields(line: Seq<char>) -> Option<Seq<FieldV>>;

/// Relies on `serde_json::from_str::<serde_json::Value>`: parses one text
/// as a JSON document. The fields of a parsed object come back with their
/// values seen one level deep, as `Json` keeps them; a text that is not
/// valid JSON, or whose document is not an object, comes back as `None`.
#[verifier::external_body]
pub(crate) fn parse_object_fields(line: &str) -> (r: Option<Vec<Field>>)
    ensures
        r is Some <==> json_object_fields(line@) is Some,
        r matches Some(fields) ==> json_object_fields(line@) == Some(fields_view(fields@)),
{
    let object = match serde_json::from_str::<serde_json::Value>(line) {
        Ok(serde_json::Value::Object(object)) => object,
        _ => return None,
    };
    Some(object.into_iter().map(|(name, value)| Field {
        name,
        value: match value {
            serde_json::Value::Null => Json::Null,
            serde_json::Value::Bool(b) => Json::Bool(b),
            serde_json::Value::Number(_) => Json::Num,
            serde_json::Value::String(s) => Json::Str(s),
            serde_json::Value::Array(_) => Json::Arr,
            serde_json::Value::Object(_) => Json::Obj,
        },
    }).collect())
}

/// The value of the first field with the given name, if any.
pub open spec fn lookup_field(fields: Seq<FieldV>, name: Seq<char>) -> Option<JsonV>
    decreases fields.len(),
{
    if fields.len() == 0 {
        None
    } else if fields[0].name == name {
        Some(fields[0].value)
    } else {
        lookup_field(fields.drop_first(), name)
    }
}

/// Finds the first field with the given name, as `lookup_field` describes.
pub fn get_field<'a>(fields: &'a Vec<Field>, name: &str) -> (r: Option<&'a Json>)
    ensures
        match r {
            Some(value) => lookup_field(fields_view(fields@), name@) == Some(value@),
            None => lookup_field(fields_view(fields@), name@) is None,
        },
{
    let n = fields.len();
    let mut i: usize = 0;
    proof {
        assert(fields_view(fields@).skip(0) =~= fields_view(fields@));
    }
    while i < n
        invariant
            n == fields@.len(),
            i <= n,
            lookup_field(fields_view(fields@), name@) == lookup_field(
                fields_view(fields@).skip(i as int),
                name@,
            ),
        decreases n - i,
    {
        if crate::text::str_eq(fields[i].name.as_str(), name) {
            proof {
                assert(fields_view(fields@).skip(i as int)[0] == fields@[i as int]@);
            }
            return Some(&fields[i].value);
        }
        proof {
            assert(fields_view(fields@).skip(i as int)[0] == fields@[i as int]@);
            assert(fields_view(fields@).skip(i as int).drop_first() =~= fields_view(
                fields@,
            ).skip(i as int + 1));
        }
        i += 1;
    }
    proof {
        assert(fields_view(fields@).skip(i as int) =~= Seq::<FieldV>::empty());
    }
    None
}

} // verus!
