//! A small model of the JSON documents the upstream service returns.
//!
//! The service speaks UTF-8 JSON whose interesting values are strings,
//! integers, arrays and objects. Parsing the raw text is delegated to
//! `serde_json`; the parsed tree is converted into [`Json`], a plain
//! recursive value that verified code can take apart field by field.

use vstd::prelude::*;

verus! {

/// A parsed JSON document. Numbers outside the signed 64-bit range, and
/// non-integer numbers, are collapsed into [`Json::OtherNum`]: no endpoint
/// of the upstream schema carries such a number, so they only ever show up
/// in fields the schema ignores or rejects.
#[derive(Debug)]
pub enum Json {
    Null,
    Bool(bool),
    Int(i64),
    OtherNum,
    Str(String),
    Arr(Vec<Json>),
    Obj(Vec<(String, Json)>),
}

/// The parsed-document type of `serde_json`, declared so that the
/// conversion step below may take it as a parameter; verified code never
/// looks inside a value of it.
#[verifier::external_type_specification]
#[verifier::external_body]
pub struct ExValue(serde_json::Value);

/// What `serde_json` parses a given text into, mapped onto [`Json`]:
/// `None` when the text is not valid JSON. The parse depends on the text
/// alone, so it is named rather than spelled out.
pub uninterp spec fn json_of(s: Seq<char>) -> Option<Json>;

/// Relies on `serde_json::from_str::<serde_json::Value>` to parse the text;
/// the resulting tree is converted to [`Json`] by [`value_to_json`]. The
/// parse is a function of the text alone, which `json_of` names. On invalid
/// JSON the error carries `serde_json`'s message.
#[verifier::external_body]
pub(crate) fn parse_json(s: &str) -> (r: Result<Json, String>)
    ensures
        r matches Ok(j) ==> json_of(s@) == Some(j),
        r is Err ==> json_of(s@) is None,
{
    match serde_json::from_str::<serde_json::Value>(s) {
        Ok(v) => Ok(value_to_json(v)),
        Err(e) => Err(e.to_string()),
    }
}

/// Relies on `serde_json::Value` being the enum of null, booleans, numbers,
/// strings, arrays and objects; each variant is moved across into [`Json`]
/// one for one (recursively for arrays and objects). Exists only as the
/// conversion step of [`parse_json`], which carries the contract.
#[verifier::external_body]
fn value_to_json(v: serde_json::Value) -> Json {
    match v {
        serde_json::Value::Null => Json::Null,
        serde_json::Value::Bool(b) => Json::Bool(b),
        serde_json::Value::Number(n) => match n.as_i64() {
            Some(i) => Json::Int(i),
            None => Json::OtherNum,
        },
        serde_json::Value::String(s) => Json::Str(s),
        serde_json::Value::Array(a) => Json::Arr(a.into_iter().map(value_to_json).collect()),
        serde_json::Value::Object(m) => Json::Obj(
            m.into_iter().map(|(k, x)| (k, value_to_json(x))).collect(),
        ),
    }
}

/// The value under `key` in an object's field list, first match winning.
pub open spec fn spec_obj_field(fields: Seq<(String, Json)>, key: Seq<char>) -> Option<Json>
    decreases fields.len(),
{
    if fields.len() == 0 {
        None
    } else if fields[0].0@ == key {
        Some(fields[0].1)
    } else {
        spec_obj_field(fields.skip(1), key)
    }
}

/// Looks `key` up in an object's field list.
pub fn obj_field<'a>(fields: &'a Vec<(String, Json)>, key: &String) -> (r: Option<&'a Json>)
    ensures
        match r {
            Some(j) => spec_obj_field(fields@, key@) == Some(*j),
            None => spec_obj_field(fields@, key@) is None,
        },
{
    let mut i: usize = 0;
    proof {
        assert(fields@.skip(0) =~= fields@);
    }
    while i < fields.len()
        invariant
            i <= fields@.len(),
            spec_obj_field(fields@, key@) == spec_obj_field(fields@.skip(i as int), key@),
        decreases fields@.len() - i,
    {
        let pair = &fields[i];
        if pair.0 == *key {
            assert(fields@.skip(i as int)[0] == fields@[i as int]);
            return Some(&pair.1);
        }
        proof {
            assert(fields@.skip(i as int)[0] == fields@[i as int]);
            assert(fields@.skip(i as int).skip(1) =~= fields@.skip(i as int + 1));
        }
        i = i + 1;
    }
    None
}

/// The value under `key` when the document is an object, `None` otherwise.
pub open spec fn spec_field(j: Json, key: Seq<char>) -> Option<Json> {
    match j {
        Json::Obj(fields) => spec_obj_field(fields@, key),
        _ => None,
    }
}

/// The text of a string document; the empty text for any other document.
pub open spec fn spec_str_content(j: Json) -> Seq<char> {
    match j {
        Json::Str(s) => s@,
        _ => Seq::empty(),
    }
}

/// The number held by an integer document; zero for any other document.
pub open spec fn spec_int_content(j: Json) -> int {
    match j {
        Json::Int(i) => i as int,
        _ => 0,
    }
}

/// Whether the document is an integer that fits a signed 32-bit number.
pub open spec fn spec_is_i32(j: Json) -> bool {
    j matches Json::Int(i) && -2147483648 <= i <= 2147483647
}

/// The text under `key`, present exactly when the field is there and is a
/// string.
pub open spec fn spec_str_field(j: Json, key: Seq<char>) -> Option<Seq<char>> {
    match spec_field(j, key) {
        Some(f) => if f is Str {
            Some(spec_str_content(f))
        } else {
            None
        },
        None => None,
    }
}

/// The number under `key`, present exactly when the field is there and is
/// an integer within 32-bit range.
pub open spec fn spec_i32_field(j: Json, key: Seq<char>) -> Option<int> {
    match spec_field(j, key) {
        Some(f) => if spec_is_i32(f) {
            Some(spec_int_content(f))
        } else {
            None
        },
        None => None,
    }
}

/// The texts of an array of strings, present exactly when the document is
/// an array whose every element is a string.
pub open spec fn spec_str_arr_content(j: Json) -> Option<Seq<Seq<char>>> {
    match j {
        Json::Arr(items) => if forall|k: int|
            0 <= k < items@.len() ==> (#[trigger] items@[k]) is Str {
            Some(items@.map_values(|x: Json| spec_str_content(x)))
        } else {
            None
        },
        _ => None,
    }
}

/// The numbers of an array of 32-bit integers, present exactly when the
/// document is an array whose every element is such an integer.
pub open spec fn spec_i32_arr_content(j: Json) -> Option<Seq<int>> {
    match j {
        Json::Arr(items) => if forall|k: int|
            0 <= k < items@.len() ==> spec_is_i32(#[trigger] items@[k]) {
            Some(items@.map_values(|x: Json| spec_int_content(x)))
        } else {
            None
        },
        _ => None,
    }
}

/// The string array under `key`.
pub open spec fn spec_str_arr_field(j: Json, key: Seq<char>) -> Option<Seq<Seq<char>>> {
    match spec_field(j, key) {
        Some(f) => spec_str_arr_content(f),
        None => None,
    }
}

/// The integer array under `key`.
pub open spec fn spec_i32_arr_field(j: Json, key: Seq<char>) -> Option<Seq<int>> {
    match spec_field(j, key) {
        Some(f) => spec_i32_arr_content(f),
        None => None,
    }
}

/// Reads the string field under `key`.
pub fn str_field(j: &Json, key: &String) -> (r: Option<String>)
    ensures
        match r {
            Some(s) => spec_str_field(*j, key@) == Some(s@),
            None => spec_str_field(*j, key@) is None,
        },
{
    match j {
        Json::Obj(fields) => match obj_field(fields, key) {
            Some(f) => match f {
                Json::Str(s) => Some(s.clone()),
                _ => None,
            },
            None => None,
        },
        _ => None,
    }
}

/// Reads the 32-bit integer field under `key`.
pub fn i32_field(j: &Json, key: &String) -> (r: Option<i32>)
    ensures
        match r {
            Some(v) => spec_i32_field(*j, key@) == Some(v as int),
            None => spec_i32_field(*j, key@) is None,
        },
{
    match j {
        Json::Obj(fields) => match obj_field(fields, key) {
            Some(f) => match f {
                Json::Int(i) => {
                    let i = *i;
                    if i >= -2147483648i64 && i <= 2147483647i64 {
                        Some(i as i32)
                    } else {
                        None
                    }
                },
                _ => None,
            },
            None => None,
        },
        _ => None,
    }
}

/// Reads the array of strings held by the document itself.
#[verifier::loop_isolation(false)]
pub fn str_arr(j: &Json) -> (r: Option<Vec<String>>)
    ensures
        match r {
            Some(v) => spec_str_arr_content(*j) == Some(v.deep_view()),
            None => spec_str_arr_content(*j) is None,
        },
{
    match j {
        Json::Arr(items) => {
            let mut out: Vec<String> = Vec::new();
            let mut i: usize = 0;
            while i < items.len()
                invariant
                    i <= items@.len(),
                    out.deep_view().len() == i,
                    forall|k: int| 0 <= k < i ==> (#[trigger] items@[k]) is Str,
                    forall|k: int|
                        0 <= k < i ==> out.deep_view()[k] == spec_str_content(
                            #[trigger] items@[k],
                        ),
                decreases items@.len() - i,
            {
                match &items[i] {
                    Json::Str(s) => {
                        out.push(s.clone());
                    },
                    _ => {
                        proof {
                            assert(!((items@[i as int]) is Str));
                        }
                        return None;
                    },
                }
                i = i + 1;
            }
            proof {
                assert(out.deep_view() =~= items@.map_values(|x: Json| spec_str_content(x)));
            }
            Some(out)
        },
        _ => None,
    }
}

/// Reads the string array field under `key`.
pub fn str_arr_field(j: &Json, key: &String) -> (r: Option<Vec<String>>)
    ensures
        match r {
            Some(v) => spec_str_arr_field(*j, key@) == Some(v.deep_view()),
            None => spec_str_arr_field(*j, key@) is None,
        },
{
    match j {
        Json::Obj(fields) => match obj_field(fields, key) {
            Some(f) => str_arr(f),
            None => None,
        },
        _ => None,
    }
}

/// Reads the 32-bit integer array field under `key`.
#[verifier::loop_isolation(false)]
pub fn i32_arr_field(j: &Json, key: &String) -> (r: Option<Vec<i32>>)
    ensures
        match r {
            Some(v) => spec_i32_arr_field(*j, key@) == Some(
                v@.map_values(|b: i32| b as int),
            ),
            None => spec_i32_arr_field(*j, key@) is None,
        },
{
    match j {
        Json::Obj(fields) => match obj_field(fields, key) {
            Some(f) => match f {
                Json::Arr(items) => {
                    let mut out: Vec<i32> = Vec::new();
                    let mut i: usize = 0;
                    while i < items.len()
                        invariant
                            i <= items@.len(),
                            out@.len() == i,
                            forall|k: int| 0 <= k < i ==> spec_is_i32(#[trigger] items@[k]),
                            forall|k: int|
                                0 <= k < i ==> out@[k] as int == spec_int_content(
                                    #[trigger] items@[k],
                                ),
                        decreases items@.len() - i,
                    {
                        match &items[i] {
                            Json::Int(v) => {
                                let v = *v;
                                if v >= -2147483648i64 && v <= 2147483647i64 {
                                    out.push(v as i32);
                                } else {
                                    proof {
                                        assert(!spec_is_i32(items@[i as int]));
                                    }
                                    return None;
                                }
                            },
                            _ => {
                                proof {
                                    assert(!spec_is_i32(items@[i as int]));
                                }
                                return None;
                            },
                        }
                        i = i + 1;
                    }
                    proof {
                        assert(out@.map_values(|b: i32| b as int) =~= items@.map_values(
                            |x: Json| spec_int_content(x),
                        ));
                    }
                    Some(out)
                },
                _ => None,
            },
            None => None,
        },
        _ => None,
    }
}

} // verus!
