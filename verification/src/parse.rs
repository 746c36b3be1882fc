//! Reading JSON and YAML text as trees, by way of `serde_json` and
//! `serde_yaml`.

use serde_json::Value;
use vstd::prelude::*;

use crate::tree::{Number, Object, Tree, TreeView};

verus! {

/// `serde_json::Value`, carried through as it is. What it holds is known
/// only by `value_model`.
#[verifier::external_type_specification]
#[verifier::external_body]
pub struct ExJsonValue(Value);

/// `serde_json::Error`, of which only the displayed text is used.
#[verifier::external_type_specification]
#[verifier::external_body]
pub struct ExJsonError(serde_json::Error);

/// `serde_yaml::Error`, of which only the displayed text is used.
#[verifier::external_type_specification]
#[verifier::external_body]
pub struct ExYamlError(serde_yaml::Error);

/// The tree that `serde_json` reads from a JSON text, if the text is valid.
pub uninterp spec fn json_document(text: Seq<u8>) -> Option<TreeView>;

/// The tree that `serde_yaml` reads from a YAML text, if the text is valid
/// and maps to the tree model.
pub uninterp spec fn yaml_document(text: Seq<u8>) -> Option<TreeView>;

/// The tree that a `serde_json::Value` holds.
pub uninterp spec fn value_model(value: Value) -> TreeView;

/// The trees that a list of values holds, in order.
pub open spec fn item_models(items: Seq<Value>) -> Seq<TreeView> {
    Seq::new(items.len(), |i: int| value_model(items[i]))
}

/// `members` lists what the object `map` holds: each of its keys occurs in
/// the list, and each listed value is the one that stands under its key.
pub open spec fn lists_members(
    members: Seq<(&String, &Value)>,
    map: Map<Seq<char>, TreeView>,
) -> bool {
    &&& forall|k: Seq<char>|
        map.dom().contains(k) <==> exists|i: int|
            0 <= i < members.len() && (#[trigger] members[i]).0@ == k
    &&& forall|i: int|
        0 <= i < members.len() ==> map[(#[trigger] members[i]).0@] == value_model(*members[i].1)
}

/// `serde_json::from_slice`, read as a `serde_json::Value`. The contract only
/// names the outcome: the same text always gives the same tree or always
/// fails.
#[verifier::external_body]
fn json_from_slice(text: &[u8]) -> (r: Result<Value, serde_json::Error>)
    ensures
        match r {
            Ok(value) => json_document(text@) == Some(value_model(value)),
            Err(_) => json_document(text@) is None,
        },
{
    serde_json::from_slice::<Value>(text)
}

/// `serde_yaml::from_slice`, read as a `serde_json::Value`. The contract only
/// names the outcome: the same text always gives the same tree or always
/// fails.
#[verifier::external_body]
fn yaml_from_slice(text: &[u8]) -> (r: Result<Value, serde_yaml::Error>)
    ensures
        match r {
            Ok(value) => yaml_document(text@) == Some(value_model(value)),
            Err(_) => yaml_document(text@) is None,
        },
{
    serde_yaml::from_slice::<Value>(text)
}

/// `Value::as_bool`: the field of the variant `Bool`, and nothing for any
/// other variant.
pub assume_specification[ Value::as_bool ](value: &Value) -> (r: Option<bool>)
    ensures
        match r {
            Some(b) => value_model(*value) == TreeView::Bool(b),
            None => !(value_model(*value) is Bool),
        },
;

/// `Value::as_str`: the field of the variant `String`, and nothing for any
/// other variant.
pub assume_specification<'a>[ Value::as_str ](value: &'a Value) -> (r: Option<&'a str>)
    ensures
        match r {
            Some(s) => value_model(*value) == TreeView::Text(s@),
            None => !(value_model(*value) is Text),
        },
;

/// `Value::as_array`: the field of the variant `Array`, and nothing for any
/// other variant.
pub assume_specification<'a>[ Value::as_array ](value: &'a Value) -> (r: Option<&'a Vec<Value>>)
    ensures
        match r {
            Some(items) => value_model(*value) == TreeView::Array(item_models(items@)),
            None => !(value_model(*value) is Array),
        },
;

/// `Value::as_number` and, of the number that it gives, the three readings
/// `Number::as_u64`, `Number::as_i64` and the bits of `Number::as_f64`. The
/// contract claims that the value is a number exactly where the readings come
/// back, and that the number is the one that `Number::chosen` picks from
/// them: an unsigned integer, else a signed one, else a floating one.
#[verifier::external_body]
fn number_readings(value: &Value) -> (r: Option<(Option<u64>, Option<i64>, Option<u64>)>)
    ensures
        match r {
            Some((unsigned, signed, bits)) => value_model(*value) == TreeView::Number(
                Number::chosen(unsigned, signed, bits),
            ),
            None => !(value_model(*value) is Number),
        },
{
    value.as_number().map(|n| (n.as_u64(), n.as_i64(), n.as_f64().map(|x| x.to_bits())))
}

/// `Value::as_object` and, of the map that it gives, the members as
/// `Map::iter` hands them out. The contract claims that the value is an
/// object exactly where the list comes back, and that the list holds all of
/// the object's members.
#[verifier::external_body]
fn members_of<'a>(value: &'a Value) -> (r: Option<Vec<(&'a String, &'a Value)>>)
    ensures
        match r {
            Some(members) => value_model(*value) is Object && lists_members(
                members@,
                value_model(*value)->Object_0,
            ),
            None => !(value_model(*value) is Object),
        },
{
    value.as_object().map(|members| members.iter().collect())
}

/// The keys of a list of members, in order.
spec fn member_keys(members: Seq<(&String, &Value)>) -> Seq<Seq<char>> {
    Seq::new(members.len(), |i: int| members[i].0@)
}

/// An object whose members can be listed has finitely many keys.
proof fn lemma_listed_is_finite(members: Seq<(&String, &Value)>, map: Map<Seq<char>, TreeView>)
    requires
        lists_members(members, map),
    ensures
        map.dom().finite(),
{
    let keys = member_keys(members);
    assert forall|k: Seq<char>| map.dom().contains(k) implies keys.contains(k) by {
        let i = choose|i: int| 0 <= i < members.len() && members[i].0@ == k;
        assert(keys[i] == k);
    }
    assert forall|k: Seq<char>| keys.contains(k) implies map.dom().contains(k) by {
        assert(members[keys.index_of(k)].0@ == k);
    }
    assert(map.dom() =~= keys.to_set());
    vstd::seq_lib::seq_to_set_is_finite(keys);
}

/// Copies a `serde_json::Value` into a tree.
pub fn tree_of_value(value: &Value) -> (tree: Tree)
    ensures
        tree@ == value_model(*value),
    decreases value_model(*value),
{
    if let Some(b) = value.as_bool() {
        return Tree::Bool(b);
    }
    if let Some((unsigned, signed, bits)) = number_readings(value) {
        return Tree::Number(Number::of(unsigned, signed, bits));
    }
    if let Some(text) = value.as_str() {
        return Tree::Text(text.to_owned());
    }
    if let Some(items) = value.as_array() {
        let mut copy: Vec<Tree> = Vec::new();
        let mut i: usize = 0;
        while i < items.len()
            invariant
                i <= items@.len(),
                copy@.len() == i,
                value_model(*value) == TreeView::Array(item_models(items@)),
                forall|j: int| 0 <= j < i ==> copy@[j]@ == value_model(items@[j]),
            decreases items@.len() - i,
        {
            assert(value_model(*value)->Array_0[i as int] == value_model(items@[i as int]));
            copy.push(tree_of_value(&items[i]));
            i += 1;
        }
        let tree = Tree::Array(copy);
        assert(tree@->Array_0 =~= item_models(items@));
        return tree;
    }
    if let Some(members) = members_of(value) {
        let ghost map = value_model(*value)->Object_0;
        proof {
            lemma_listed_is_finite(members@, map);
        }
        let mut object = Object::new();
        let mut i: usize = 0;
        while i < members.len()
            invariant
                i <= members@.len(),
                value_model(*value) == TreeView::Object(map),
                map.dom().finite(),
                lists_members(members@, map),
                forall|j: int| 0 <= j < i ==> object@.dom().contains(members@[j].0@),
                forall|k: Seq<char>| #[trigger]
                    object@.dom().contains(k) ==> map.dom().contains(k) && object@[k] == map[k],
            decreases members@.len() - i,
        {
            assert(value_model(*value)->Object_0.dom().contains(members@[i as int].0@));
            let below = tree_of_value(members[i].1);
            object.insert(members[i].0.clone(), below);
            i += 1;
        }
        assert(object@ =~= map);
        return Tree::Object(object);
    }
    Tree::Null
}

/// Reads a JSON text as a tree, or says why the text is not valid.
pub fn parse_json(text: &[u8]) -> (r: Result<Tree, String>)
    ensures
        match r {
            Ok(tree) => json_document(text@) == Some(tree@),
            Err(_) => json_document(text@) is None,
        },
{
    match json_from_slice(text) {
        Ok(value) => Ok(tree_of_value(&value)),
        Err(error) => Err(error.to_string()),
    }
}

/// Reads a YAML text as a tree, or says why the text is not valid.
pub fn parse_yaml(text: &[u8]) -> (r: Result<Tree, String>)
    ensures
        match r {
            Ok(tree) => yaml_document(text@) == Some(tree@),
            Err(_) => yaml_document(text@) is None,
        },
{
    match yaml_from_slice(text) {
        Ok(value) => Ok(tree_of_value(&value)),
        Err(error) => Err(error.to_string()),
    }
}

} // verus!
