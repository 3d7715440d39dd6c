//! The type name of a schema.
//!
//! A boolean schema is the any-type or the impossible type. A schema with a
//! `$ref` is the struct it refers to, whatever else it holds. Every other
//! schema goes by its effective type tag, and by `format` and `items` where
//! the tag asks for them.

use vstd::prelude::*;
use vstd::string::StringExecFns;
use crate::document::{
    Json, Node, find_key, items_view, lemma_find_key, lemma_get_decreases, lookup,
};
use crate::error::FilterError;
use crate::text::{lemma_split_nonempty, chars_of, split, split_chars, str_eq, string_of_range};

verus! {

/// The strings other than `"null"` among the elements of a `type` array, in
/// their order. Elements that are not strings do not count.
pub open spec fn concrete_types(tags: Seq<Json>) -> Seq<Seq<char>>
    decreases tags.len(),
{
    if tags.len() == 0 {
        Seq::empty()
    } else {
        let before = concrete_types(tags.drop_last());
        match tags.last().as_str() {
            Some(tag) => if tag == "null"@ {
                before
            } else {
                before.push(tag)
            },
            None => before,
        }
    }
}

/// The effective type tag of a schema: its `type` where that is a string; the
/// one concrete tag where `type` is an array that holds exactly one; and
/// `"object"` in every other case.
pub open spec fn effective_type(schema: Json) -> Seq<char> {
    match schema.get("type"@) {
        Some(Json::Text(tag)) => tag,
        Some(Json::Array(tags)) => {
            let concrete = concrete_types(tags);
            if concrete.len() == 1 {
                concrete[0]
            } else {
                "object"@
            }
        },
        _ => "object"@,
    }
}

/// The integer type that a `format` selects.
pub open spec fn integer_type(format: Option<Seq<char>>) -> Seq<char> {
    if format == Some("int64"@) {
        "int64"@
    } else if format == Some("uint"@) {
        "uint8"@
    } else {
        "int32"@
    }
}

/// What follows the last `/` of a reference, or all of it where it has none.
pub open spec fn last_segment(path: Seq<char>) -> Seq<char> {
    split(path, '/').last()
}

/// The name of the struct that a reference points to.
pub open spec fn struct_name(path: Seq<char>) -> Seq<char> {
    "F"@ + last_segment(path)
}

/// The type name of a schema.
pub open spec fn cpp_type(schema: Json) -> Seq<char>
    decreases schema,
{
    match schema {
        Json::Bool(any) => if any {
            "FInstancedStruct"@
        } else {
            "void*"@
        },
        _ => match schema.get_str("$ref"@) {
            Some(path) => struct_name(path),
            None => {
                let tag = effective_type(schema);
                if tag == "string"@ {
                    "FString"@
                } else if tag == "integer"@ {
                    integer_type(schema.get_str("format"@))
                } else if tag == "number"@ {
                    "float"@
                } else if tag == "boolean"@ {
                    "bool"@
                } else if tag == "array"@ {
                    match schema.get("items"@) {
                        Some(items) => {
                            proof {
                                lemma_get_decreases(schema, "items"@);
                            }
                            "TArray<"@ + cpp_type(items) + ">"@
                        },
                        None => "TArray<FInstancedStruct>"@,
                    }
                } else {
                    "FInstancedStruct"@
                }
            },
        },
    }
}

/// The effective type tag of a schema.
pub fn get_effective_type(schema: &Node) -> (r: String)
    ensures
        r@ == effective_type(schema@),
{
    match schema.get("type") {
        Some(Node::Text(tag)) => tag.clone(),
        Some(Node::Array(tags)) => {
            let mut count: usize = 0;
            let mut first: usize = 0;
            let mut i: usize = 0;
            let ghost all = items_view(tags@);
            while i < tags.len()
                invariant
                    i <= tags.len(),
                    all == items_view(tags@),
                    count <= i,
                    count == concrete_types(all.take(i as int)).len(),
                    count > 0 ==> first < i && all[first as int].as_str() == Some(
                        concrete_types(all.take(i as int))[0],
                    ),
                decreases tags.len() - i,
            {
                proof {
                    assert(all.take(i + 1).drop_last() =~= all.take(i as int));
                    assert(all.take(i + 1).last() == tags@[i as int]@);
                }
                match tags[i].as_str() {
                    Some(tag) => {
                        if !str_eq(tag, "null") {
                            if count == 0 {
                                first = i;
                            }
                            count = count + 1;
                        }
                    },
                    None => {},
                }
                i = i + 1;
            }
            proof {
                assert(all.take(tags.len() as int) =~= all);
            }
            if count == 1 {
                match tags[first].as_str() {
                    Some(tag) => String::from_str(tag),
                    None => String::from_str("object"),
                }
            } else {
                String::from_str("object")
            }
        },
        _ => String::from_str("object"),
    }
}

/// What follows the last `/` of `path`.
fn get_last_segment(path: &str) -> (r: String)
    ensures
        r@ == last_segment(path@),
{
    let chars = chars_of(path);
    let mut slash: Vec<char> = Vec::new();
    slash.push('/');
    assert(slash@ =~= seq!['/']);
    let parts = split_chars(&chars, &slash);
    assert(parts.len() > 0) by {
        lemma_split_nonempty(chars@, slash@);
    }
    let last = &parts[parts.len() - 1];
    string_of_range(last, 0, last.len())
}

/// The type name of a schema.
pub fn get_cpp_type(schema: &Node) -> (r: String)
    ensures
        r@ == cpp_type(schema@),
    decreases schema,
{
    if let Some(any) = schema.as_bool() {
        return if any {
            String::from_str("FInstancedStruct")
        } else {
            String::from_str("void*")
        };
    }
    if let Some(path) = schema.get_str("$ref") {
        let mut name = String::from_str("F");
        let segment = get_last_segment(path);
        name.append(segment.as_str());
        return name;
    }
    let tag = get_effective_type(schema);
    if str_eq(tag.as_str(), "string") {
        String::from_str("FString")
    } else if str_eq(tag.as_str(), "integer") {
        match schema.get_str("format") {
            Some(format) => {
                if str_eq(format, "int64") {
                    String::from_str("int64")
                } else if str_eq(format, "uint") {
                    String::from_str("uint8")
                } else {
                    String::from_str("int32")
                }
            },
            None => String::from_str("int32"),
        }
    } else if str_eq(tag.as_str(), "number") {
        String::from_str("float")
    } else if str_eq(tag.as_str(), "boolean") {
        String::from_str("bool")
    } else if str_eq(tag.as_str(), "array") {
        match schema.get("items") {
            Some(items) => {
                let inner = get_cpp_type(items);
                let mut name = String::from_str("TArray<");
                name.append(inner.as_str());
                name.append(">");
                name
            },
            None => String::from_str("TArray<FInstancedStruct>"),
        }
    } else {
        String::from_str("FInstancedStruct")
    }
}

/// The filter `to_ue_type`: the type name of the schema `value`, as a string
/// node. It takes no argument and accepts every value.
pub fn to_ue_type_filter(value: &Node, args: &Vec<(String, Node)>) -> (r: Result<
    Node,
    FilterError,
>)
    ensures
        r matches Ok(name) && name@ == Json::Text(cpp_type(value@)),
{
    Ok(Node::Text(get_cpp_type(value)))
}

/// The schema with the value of its `type` replaced by the single tag `tag`;
/// every other entry stays as it is.
pub open spec fn with_type(schema: Json, tag: Seq<char>) -> Json {
    match schema {
        Json::Object(entries) => match find_key(entries, "type"@) {
            Some(i) => Json::Object(entries.update(i, ("type"@, Json::Text(tag)))),
            None => schema,
        },
        _ => schema,
    }
}

/// Replacing the value of an entry changes what is found under its key, and
/// nothing else.
pub proof fn lemma_lookup_update(
    entries: Seq<(Seq<char>, Json)>,
    i: int,
    value: Json,
    key: Seq<char>,
)
    requires
        find_key(entries, entries[i].0) == Some(i),
    ensures
        lookup(entries.update(i, (entries[i].0, value)), key) == if key == entries[i].0 {
            Some(value)
        } else {
            lookup(entries, key)
        },
{
    let updated = entries.update(i, (entries[i].0, value));
    lemma_find_key(entries, entries[i].0);
    lemma_find_key(entries, key);
    lemma_find_key(updated, key);
    assert(forall|j: int| 0 <= j < entries.len() ==> updated[j].0 == entries[j].0);
}

/// Ref precedence: a schema with a `$ref` resolves to the struct that the
/// reference names, whatever `type`, `items` or `format` stand beside it.
pub proof fn lemma_ref_precedence(schema: Json, path: Seq<char>)
    requires
        schema.get_str("$ref"@) == Some(path),
    ensures
        cpp_type(schema) == struct_name(path),
{
}

/// Two schemas with the same `$ref` resolve to the same type, however their
/// other keywords differ.
pub proof fn lemma_ref_ignores_siblings(schema: Json, other: Json)
    requires
        schema.get_str("$ref"@) is Some,
        other.get_str("$ref"@) == schema.get_str("$ref"@),
    ensures
        cpp_type(schema) == cpp_type(other),
{
}

/// Nullable types: where `type` is an array with exactly one concrete tag, the
/// schema resolves as it does with that tag as its `type`. Where the array has
/// no concrete tag or several, a schema without a `$ref` resolves to the
/// generic struct type.
pub proof fn lemma_nullable_type(schema: Json, tags: Seq<Json>)
    requires
        schema.get("type"@) == Some(Json::Array(tags)),
    ensures
        concrete_types(tags).len() == 1 ==> cpp_type(schema) == cpp_type(
            with_type(schema, concrete_types(tags)[0]),
        ),
        concrete_types(tags).len() != 1 && schema.get_str("$ref"@) is None ==> cpp_type(schema)
            == "FInstancedStruct"@,
{
    reveal_strlit("type");
    reveal_strlit("$ref");
    reveal_strlit("format");
    reveal_strlit("items");
    reveal_strlit("object");
    reveal_strlit("string");
    reveal_strlit("integer");
    reveal_strlit("number");
    reveal_strlit("boolean");
    reveal_strlit("array");
    assert("$ref"@[0] != "type"@[0]);
    assert("format"@.len() != "type"@.len());
    assert("items"@.len() != "type"@.len());
    let entries = schema->Object_0;
    lemma_find_key(entries, "type"@);
    let i = find_key(entries, "type"@)->0;
    if concrete_types(tags).len() == 1 {
        let tag = concrete_types(tags)[0];
        let other = with_type(schema, tag);
        lemma_lookup_update(entries, i, Json::Text(tag), "type"@);
        lemma_lookup_update(entries, i, Json::Text(tag), "$ref"@);
        lemma_lookup_update(entries, i, Json::Text(tag), "format"@);
        lemma_lookup_update(entries, i, Json::Text(tag), "items"@);
        assert(other.get("type"@) == Some(Json::Text(tag)));
        assert(other.get("$ref"@) == schema.get("$ref"@));
        assert(other.get("format"@) == schema.get("format"@));
        assert(other.get("items"@) == schema.get("items"@));
        assert(effective_type(other) == effective_type(schema));
    } else {
        assert("object"@[0] != "string"@[0]);
        assert("object"@[0] != "number"@[0]);
        assert("object"@.len() != "integer"@.len());
        assert("object"@.len() != "boolean"@.len());
        assert("object"@.len() != "array"@.len());
    }
}

} // verus!
