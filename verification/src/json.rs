//! JSON: values as plain data, and their text.

use crate::text::same;
use vstd::prelude::*;

verus! {

/// What a JSON value says. A number is its text; of an object only its members count, in no order.
pub enum JsonTree {
    Null,
    Bool(bool),
    Number(Seq<char>),
    Text(Seq<char>),
    Array(Seq<JsonTree>),
    Object(Map<Seq<char>, JsonTree>),
}

/// A JSON value.
pub enum Json {
    Null,
    Bool(bool),
    Number(String),
    Text(String),
    Array(Vec<Json>),
    Object(Vec<(String, Json)>),
}

impl Json {
    /// What the value says.
    pub open spec fn tree(&self) -> JsonTree
        decreases self,
    {
        match self {
            Json::Null => JsonTree::Null,
            Json::Bool(b) => JsonTree::Bool(*b),
            Json::Number(n) => JsonTree::Number(n@),
            Json::Text(s) => JsonTree::Text(s@),
            Json::Array(items) => JsonTree::Array(item_trees(items@)),
            Json::Object(members) => JsonTree::Object(member_trees(members@)),
        }
    }
}

/// What the items of an array say.
pub open spec fn item_trees(items: Seq<Json>) -> Seq<JsonTree>
    decreases items,
{
    if items.len() == 0 {
        Seq::empty()
    } else {
        item_trees(items.drop_last()).push(items.last().tree())
    }
}

/// What the members of an object say: of two under one name the later counts.
pub open spec fn member_trees(members: Seq<(String, Json)>) -> Map<Seq<char>, JsonTree>
    decreases members,
{
    if members.len() == 0 {
        Map::empty()
    } else {
        member_trees(members.drop_last()).insert(members.last().0@, members.last().1.tree())
    }
}

/// An array has as many items as its list, and they say the same.
pub proof fn items_keep_their_places(items: Seq<Json>)
    ensures
        item_trees(items).len() == items.len(),
        forall|i: int| 0 <= i < items.len() ==> #[trigger] item_trees(items)[i] == items[i].tree(),
    decreases items.len(),
{
    if items.len() > 0 {
        items_keep_their_places(items.drop_last());
        assert forall|i: int| 0 <= i < items.len() implies #[trigger] item_trees(items)[i]
            == items[i].tree() by {
            if i < items.len() - 1 {
                assert(items.drop_last()[i] == items[i]);
                assert(item_trees(items.drop_last())[i] == items.drop_last()[i].tree());
            }
        }
    }
}

/// The member of an object under a name, where it has one.
pub fn member<'a>(members: &'a Vec<(String, Json)>, name: &str) -> (r: Option<&'a Json>)
    ensures
        match r {
            Some(value) => member_trees(members@).contains_key(name@) && member_trees(
                members@,
            )[name@] == value.tree(),
            None => !member_trees(members@).contains_key(name@),
        },
{
    let mut n: usize = members.len();
    assert(members@.take(n as int) == members@);
    while n > 0
        invariant
            n <= members@.len(),
            member_trees(members@).contains_key(name@) == member_trees(
                members@.take(n as int),
            ).contains_key(name@),
            member_trees(members@)[name@] == member_trees(members@.take(n as int))[name@],
        decreases n,
    {
        assert(members@.take(n as int).drop_last() == members@.take(n - 1));
        assert(members@.take(n as int).last() == members@[n - 1]);
        if same(members[n - 1].0.as_str(), name) {
            return Some(&members[n - 1].1);
        }
        n = n - 1;
    }
    assert(members@.take(0) =~= Seq::<(String, Json)>::empty());
    None
}

/// `serde_json::Value`, a JSON value as the crate reads and writes it.
#[verifier::external_type_specification]
#[verifier::external_body]
pub struct ExValue(serde_json::Value);

/// `serde_json::Error`, why a text is no JSON.
#[verifier::external_type_specification]
#[verifier::external_body]
pub struct ExJsonError(serde_json::Error);

/// What a `serde_json::Value` holds.
pub uninterp spec fn value_tree(value: serde_json::Value) -> JsonTree;

/// The value that a JSON document holds, where the bytes are one.
pub uninterp spec fn json_read(bytes: Seq<u8>) -> Option<JsonTree>;

/// The JSON document that holds a value.
pub uninterp spec fn json_written(tree: JsonTree) -> Seq<char>;

/// What the members of a `serde_json::Map` hold.
pub open spec fn value_trees(members: Seq<(&String, &serde_json::Value)>) -> Map<
    Seq<char>,
    JsonTree,
>
    decreases members.len(),
{
    if members.len() == 0 {
        Map::empty()
    } else {
        value_trees(members.drop_last()).insert(
            members.last().0@,
            value_tree(*members.last().1),
        )
    }
}

/// A `serde_json::Value` with its outermost layer laid open.
enum Layer<'a> {
    Null,
    Bool(bool),
    Number(String),
    Text(&'a String),
    Array(&'a Vec<serde_json::Value>),
    Object(Vec<(&'a String, &'a serde_json::Value)>),
}

/// The variants of `serde_json::Value` and what they hold. The names in a `serde_json::Map` are
/// all different. A number is given by the text that the crate writes for it.
#[verifier::external_body]
fn lay_open<'a>(value: &'a serde_json::Value) -> (r: Layer<'a>)
    ensures
        match r {
            Layer::Null => value_tree(*value) == JsonTree::Null,
            Layer::Bool(b) => value_tree(*value) == JsonTree::Bool(b),
            Layer::Number(n) => value_tree(*value) == JsonTree::Number(n@),
            Layer::Text(s) => value_tree(*value) == JsonTree::Text(s@),
            Layer::Array(items) => value_tree(*value) == JsonTree::Array(
                Seq::new(items@.len(), |i: int| value_tree(items@[i])),
            ),
            Layer::Object(members) => {
                &&& value_tree(*value) == JsonTree::Object(value_trees(members@))
                &&& forall|i: int, j: int|
                    0 <= i < j < members@.len() ==> (#[trigger] members@[i]).0@ != (
                    #[trigger] members@[j]).0@
            },
        },
{
    match value {
        serde_json::Value::Null => Layer::Null,
        serde_json::Value::Bool(b) => Layer::Bool(*b),
        serde_json::Value::Number(n) => Layer::Number(n.to_string()),
        serde_json::Value::String(s) => Layer::Text(s),
        serde_json::Value::Array(items) => Layer::Array(items),
        serde_json::Value::Object(members) => Layer::Object(members.iter().collect()),
    }
}

proof fn members_keep_their_values(members: Seq<(&String, &serde_json::Value)>, i: int)
    requires
        0 <= i < members.len(),
        forall|i: int, j: int|
            0 <= i < j < members.len() ==> (#[trigger] members[i]).0@ != (#[trigger] members[j]).0@,
    ensures
        value_trees(members).contains_key(members[i].0@),
        value_trees(members)[members[i].0@] == value_tree(*members[i].1),
        value_trees(members).dom().finite(),
    decreases members.len(),
{
    let before = members.drop_last();
    value_trees_finite(members);
    if i < before.len() {
        assert(before[i] == members[i]);
        assert forall|i: int, j: int| 0 <= i < j < before.len() implies (#[trigger] before[i]).0@
            != (#[trigger] before[j]).0@ by {
            assert(before[i] == members[i]);
            assert(before[j] == members[j]);
        }
        members_keep_their_values(before, i);
        assert(members[i].0@ != members[members.len() - 1].0@);
    }
}

proof fn value_trees_finite(members: Seq<(&String, &serde_json::Value)>)
    ensures
        value_trees(members).dom().finite(),
    decreases members.len(),
{
    if members.len() > 0 {
        value_trees_finite(members.drop_last());
    }
}

/// The value as plain data.
fn plain(value: &serde_json::Value) -> (r: Json)
    ensures
        r.tree() == value_tree(*value),
    decreases value_tree(*value),
{
    match lay_open(value) {
        Layer::Null => Json::Null,
        Layer::Bool(b) => Json::Bool(b),
        Layer::Number(n) => Json::Number(n),
        Layer::Text(s) => Json::Text(s.clone()),
        Layer::Array(items) => {
            let ghost trees = Seq::new(items@.len(), |i: int| value_tree(items@[i]));
            let mut out: Vec<Json> = Vec::new();
            let mut i: usize = 0;
            while i < items.len()
                invariant
                    i <= items@.len(),
                    trees == Seq::new(items@.len(), |i: int| value_tree(items@[i])),
                    value_tree(*value) == JsonTree::Array(trees),
                    item_trees(out@) =~= trees.take(i as int),
                decreases items@.len() - i,
            {
                let ghost before = out@;
                assert(value_tree(items@[i as int]) == trees[i as int]);
                assert(decreases_to!(value_tree(*value) => value_tree(*value)->Array_0));
                assert(decreases_to!(trees => trees[i as int]));
                out.push(plain(&items[i]));
                assert(out@.drop_last() == before);
                i = i + 1;
            }
            assert(trees.take(items@.len() as int) == trees);
            Json::Array(out)
        },
        Layer::Object(members) => {
            let mut out: Vec<(String, Json)> = Vec::new();
            let mut i: usize = 0;
            assert(members@.take(0) =~= Seq::<(&String, &serde_json::Value)>::empty());
            while i < members.len()
                invariant
                    i <= members@.len(),
                    value_tree(*value) == JsonTree::Object(value_trees(members@)),
                    forall|i: int, j: int|
                        0 <= i < j < members@.len() ==> (#[trigger] members@[i]).0@ != (
                        #[trigger] members@[j]).0@,
                    member_trees(out@) == value_trees(members@.take(i as int)),
                decreases members@.len() - i,
            {
                let ghost before = out@;
                proof {
                    members_keep_their_values(members@, i as int);
                    let trees = value_trees(members@);
                    assert(decreases_to!(value_tree(*value) => value_tree(*value)->Object_0));
                    assert(decreases_to!(trees => trees[members@[i as int].0@]));
                }
                let (name, item) = members[i];
                out.push((name.clone(), plain(item)));
                assert(out@.drop_last() == before);
                assert(members@.take(i + 1).drop_last() == members@.take(i as int));
                i = i + 1;
            }
            assert(members@.take(members@.len() as int) == members@);
            Json::Object(out)
        },
    }
}

/// `serde_json::from_slice` of a `serde_json::Value`. Whether the bytes are a JSON document, and
/// what it holds, depends on the bytes alone.
#[verifier::external_body]
fn from_slice(bytes: &[u8]) -> (r: Result<serde_json::Value, serde_json::Error>)
    ensures
        match r {
            Ok(value) => json_read(bytes@) == Some(value_tree(value)),
            Err(_) => json_read(bytes@) is None,
        },
{
    serde_json::from_slice(bytes)
}

/// The value that a JSON document holds, where the bytes are one.
pub fn parse(bytes: &[u8]) -> (r: Result<Json, serde_json::Error>)
    ensures
        match r {
            Ok(json) => json_read(bytes@) == Some(json.tree()),
            Err(_) => json_read(bytes@) is None,
        },
{
    match from_slice(bytes) {
        Ok(value) => Ok(plain(&value)),
        Err(e) => Err(e),
    }
}

/// The names of the members are all different.
pub open spec fn names_differ(members: Seq<(String, serde_json::Value)>) -> bool {
    forall|i: int, j: int|
        0 <= i < j < members.len() ==> (#[trigger] members[i]).0@ != (#[trigger] members[j]).0@
}

/// What the members of an object that is to be written say.
pub open spec fn listed_trees(members: Seq<(String, serde_json::Value)>) -> Map<
    Seq<char>,
    JsonTree,
>
    decreases members.len(),
{
    if members.len() == 0 {
        Map::empty()
    } else {
        listed_trees(members.drop_last()).insert(
            members.last().0@,
            value_tree(members.last().1),
        )
    }
}

/// `serde_json::Value::String`.
#[verifier::external_body]
pub(crate) fn text_value(s: &str) -> (r: serde_json::Value)
    ensures
        value_tree(r) == JsonTree::Text(s@),
{
    serde_json::Value::String(s.to_owned())
}

/// `serde_json::Value::Bool`.
#[verifier::external_body]
pub(crate) fn bool_value(b: bool) -> (r: serde_json::Value)
    ensures
        value_tree(r) == JsonTree::Bool(b),
{
    serde_json::Value::Bool(b)
}

/// `serde_json::Value::Array`.
#[verifier::external_body]
pub(crate) fn array_value(items: Vec<serde_json::Value>) -> (r: serde_json::Value)
    ensures
        value_tree(r) == JsonTree::Array(Seq::new(items@.len(), |i: int| value_tree(items@[i]))),
{
    serde_json::Value::Array(items)
}

/// `serde_json::Value::Object` of the `serde_json::Map` that is collected from the members. Members
/// under different names are all kept; which of two under one name would stay is not claimed.
#[verifier::external_body]
pub(crate) fn object_value(members: Vec<(String, serde_json::Value)>) -> (r: serde_json::Value)
    requires
        names_differ(members@),
    ensures
        value_tree(r) == JsonTree::Object(listed_trees(members@)),
{
    serde_json::Value::Object(members.into_iter().collect())
}

/// `serde_json::to_string` of a `serde_json::Value`, which never fails: the names in its objects
/// are strings. The text depends on what the value holds alone, as a `serde_json::Map` keeps its
/// members in the order of their names.
#[verifier::external_body]
pub(crate) fn write_value(value: &serde_json::Value) -> (r: String)
    ensures
        r@ == json_written(value_tree(*value)),
{
    serde_json::to_string(value).expect("can stringify json")
}

} // verus!
