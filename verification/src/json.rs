//! JSON documents as trees of plain values.
//!
//! Numbers are kept as the text of their literal, so that no floating-point
//! value enters the tree.

use vstd::prelude::*;

verus! {

/// One member of a JSON object.
#[derive(Debug, PartialEq, Eq)]
pub struct Member {
    pub key: String,
    pub value: Json,
}

/// A JSON document.
#[derive(Debug, PartialEq, Eq)]
pub enum Json {
    Null,
    Bool(bool),
    /// A number, as the text of its literal.
    Number(String),
    Text(String),
    List(Vec<Json>),
    /// The members in the order in which they stand.
    Object(Vec<Member>),
}

/// The mathematical model of a [`Json`] tree.
pub enum JsonView {
    Null,
    Bool(bool),
    Number(Seq<char>),
    Text(Seq<char>),
    List(Seq<JsonView>),
    Object(Seq<(Seq<char>, JsonView)>),
}

/// The trees of the items of a list, in order.
pub open spec fn trees_of(items: Seq<Json>) -> Seq<JsonView>
    decreases items,
{
    Seq::new(
        items.len(),
        |i: int|
            if 0 <= i < items.len() {
                items[i].tree()
            } else {
                JsonView::Null
            },
    )
}

/// The members of an object, each with its key and the tree of its value,
/// in order.
pub open spec fn members_of(members: Seq<Member>) -> Seq<(Seq<char>, JsonView)>
    decreases members,
{
    Seq::new(
        members.len(),
        |i: int|
            if 0 <= i < members.len() {
                (members[i].key@, members[i].value.tree())
            } else {
                (Seq::<char>::empty(), JsonView::Null)
            },
    )
}

impl Json {
    /// The tree that this document holds.
    pub open spec fn tree(&self) -> JsonView
        decreases self,
    {
        match self {
            Json::Null => JsonView::Null,
            Json::Bool(b) => JsonView::Bool(*b),
            Json::Number(literal) => JsonView::Number(literal@),
            Json::Text(text) => JsonView::Text(text@),
            Json::List(items) => JsonView::List(trees_of(items@)),
            Json::Object(members) => JsonView::Object(members_of(members@)),
        }
    }
}

impl View for Json {
    type V = JsonView;

    open spec fn view(&self) -> JsonView {
        self.tree()
    }
}

/// The view of an object, member by member.
pub proof fn lemma_object_view(members: Vec<Member>)
    ensures
        Json::Object(members)@ is Object,
        Json::Object(members)@->Object_0.len() == members@.len(),
        forall|i: int|
            0 <= i < members@.len() ==> #[trigger] Json::Object(members)@->Object_0[i] == (
                members@[i].key@,
                members@[i].value@,
            ),
{
}

/// The view of a list, item by item.
pub proof fn lemma_list_view(items: Vec<Json>)
    ensures
        Json::List(items)@ is List,
        Json::List(items)@->List_0.len() == items@.len(),
        forall|i: int| 0 <= i < items@.len() ==> #[trigger] Json::List(items)@->List_0[i] == items@[i]@,
{
}

/// The value of the first member at or after `from` with the key `key`.
pub open spec fn lookup_from(members: Seq<(Seq<char>, JsonView)>, key: Seq<char>, from: int) -> Option<
    JsonView,
>
    decreases members.len() - from,
{
    if 0 <= from < members.len() {
        if members[from].0 == key {
            Some(members[from].1)
        } else {
            lookup_from(members, key, from + 1)
        }
    } else {
        None
    }
}

/// The value of the first member of `members` with the key `key`.
pub open spec fn lookup(members: Seq<(Seq<char>, JsonView)>, key: Seq<char>) -> Option<JsonView> {
    lookup_from(members, key, 0)
}

/// A member added at the end under one key changes no lookup under
/// another, from whatever position the lookup starts.
pub proof fn lemma_lookup_from_push(
    members: Seq<(Seq<char>, JsonView)>,
    key: Seq<char>,
    value: JsonView,
    other: Seq<char>,
    from: int,
)
    requires
        other != key,
        0 <= from,
    ensures
        lookup_from(members.push((key, value)), other, from) == lookup_from(members, other, from),
    decreases members.len() - from,
{
    let more = members.push((key, value));
    if from < members.len() {
        assert(more[from] == members[from]);
        lemma_lookup_from_push(members, key, value, other, from + 1);
    } else if from == members.len() {
        assert(more[from].0 == key);
        assert(lookup_from(more, other, from + 1) is None);
    }
}

/// A member added at the end under one key changes no lookup under another.
pub proof fn lemma_lookup_push(
    members: Seq<(Seq<char>, JsonView)>,
    key: Seq<char>,
    value: JsonView,
    other: Seq<char>,
)
    requires
        other != key,
    ensures
        lookup(members.push((key, value)), other) == lookup(members, other),
{
    lemma_lookup_from_push(members, key, value, other, 0);
}

/// Whether `literal` is written as an integer: an optional minus sign, then
/// one or more decimal digits.
pub open spec fn integer_text(literal: Seq<char>) -> bool {
    let start: int = if literal.len() > 0 && literal[0] == '-' {
        1
    } else {
        0
    };
    &&& start < literal.len()
    &&& forall|k: int| start <= k < literal.len() ==> '0' <= #[trigger] literal[k] <= '9'
}

/// Decides [`integer_text`].
pub fn is_integer_text(literal: &str) -> (b: bool)
    ensures
        b == integer_text(literal@),
{
    let n = literal.unicode_len();
    if n == 0 {
        return false;
    }
    let start: usize = if literal.get_char(0) == '-' {
        1
    } else {
        0
    };
    if start == n {
        return false;
    }
    let mut i: usize = start;
    while i < n
        invariant
            n == literal@.len(),
            start <= i <= n,
            start as int == (if literal@.len() > 0 && literal@[0] == '-' {
                1int
            } else {
                0int
            }),
            forall|k: int| start <= k < i ==> '0' <= #[trigger] literal@[k] <= '9',
        decreases n - i,
    {
        let c = literal.get_char(i);
        if c < '0' || c > '9' {
            return false;
        }
        i += 1;
    }
    true
}

impl Json {
    /// A text value.
    pub fn text(text: &str) -> (json: Json)
        ensures
            json@ == JsonView::Text(text@),
    {
        Json::Text(String::from_str(text))
    }

    /// The value of the first member with the key `key`, where `self` is an
    /// object that has one.
    pub fn get(&self, key: &str) -> (found: Option<&Json>)
        ensures
            match self@ {
                JsonView::Object(members) => match found {
                    Some(value) => lookup(members, key@) == Some(value@),
                    None => lookup(members, key@) is None,
                },
                _ => found is None,
            },
    {
        match self {
            Json::Object(members) => {
                let wanted = String::from_str(key);
                let ghost model = members_of(members@);
                let mut i: usize = 0;
                while i < members.len()
                    invariant
                        i <= members.len(),
                        wanted@ == key@,
                        self@ == JsonView::Object(model),
                        model == members_of(members@),
                        lookup(model, key@) == lookup_from(model, key@, i as int),
                    decreases members.len() - i,
                {
                    if members[i].key == wanted {
                        return Some(&members[i].value);
                    }
                    i += 1;
                }
                None
            },
            _ => None,
        }
    }
}

impl Clone for Json {
    /// A copy that holds the same tree.
    fn clone(&self) -> (copy: Self)
        ensures
            copy@ == self@,
        decreases self,
    {
        match self {
            Json::Null => Json::Null,
            Json::Bool(b) => Json::Bool(*b),
            Json::Number(literal) => Json::Number(literal.clone()),
            Json::Text(text) => Json::Text(text.clone()),
            Json::List(items) => {
                let mut copies: Vec<Json> = Vec::new();
                let mut i: usize = 0;
                while i < items.len()
                    invariant
                        self->List_0 == *items,
                        self is List,
                        i <= items.len(),
                        copies.len() == i,
                        forall|k: int| 0 <= k < i ==> copies@[k]@ == items@[k]@,
                    decreases items.len() - i,
                {
                    proof {
                        vstd::std_specs::vec::axiom_vec_index_decreases(*items, i as int);
                        assert(decreases_to!(self => self->List_0));
                    }
                    copies.push(items[i].clone());
                    i += 1;
                }
                let copy = Json::List(copies);
                assert(copy@->List_0 =~= self@->List_0);
                copy
            },
            Json::Object(members) => {
                let mut copies: Vec<Member> = Vec::new();
                let mut i: usize = 0;
                while i < members.len()
                    invariant
                        self->Object_0 == *members,
                        self is Object,
                        i <= members.len(),
                        copies.len() == i,
                        forall|k: int|
                            0 <= k < i ==> copies@[k].key@ == members@[k].key@ && copies@[k].value@
                                == members@[k].value@,
                    decreases members.len() - i,
                {
                    proof {
                        vstd::std_specs::vec::axiom_vec_index_decreases(*members, i as int);
                        assert(decreases_to!(self => self->Object_0));
                        assert(decreases_to!(members@[i as int] => members@[i as int].value));
                    }
                    copies.push(Member { key: members[i].key.clone(), value: members[i].value.clone() });
                    i += 1;
                }
                let copy = Json::Object(copies);
                assert(copy@->Object_0 =~= self@->Object_0);
                copy
            },
        }
    }
}

/// `serde_json::Value`, carried as an opaque value.
#[verifier::external_type_specification]
#[verifier::external_body]
pub struct ExJsonValue(serde_json::Value);

/// The tree that a `serde_json::Value` holds: its variants one for one, each
/// number as the text that it displays as, the members of an object in the
/// order in which the value walks them.
pub uninterp spec fn json_tree(value: serde_json::Value) -> JsonView;

/// What `serde_json::from_str` reads from a text: the tree of the value, or
/// `None` where the text is no single JSON document.
pub uninterp spec fn parsed_json(text: Seq<char>) -> Option<JsonView>;

/// Calls `serde_json::from_str` for a `serde_json::Value`. The outcome depends
/// on the text alone: a value whose tree is `parsed_json` of the text, or an
/// error where `parsed_json` has none.
#[verifier::external_body]
fn parse_value(text: &str) -> (parsed: Result<serde_json::Value, serde_json::Error>)
    ensures
        match parsed {
            Ok(value) => parsed_json(text@) == Some(json_tree(value)),
            Err(_) => parsed_json(text@) is None,
        },
{
    serde_json::from_str::<serde_json::Value>(text)
}

/// Calls `Value::as_bool`: the boolean of the variant `Bool`, and `None` for
/// every other variant.
#[verifier::external_body]
fn value_as_bool(value: &serde_json::Value) -> (flag: Option<bool>)
    ensures
        match flag {
            Some(b) => json_tree(*value) == JsonView::Bool(b),
            None => !(json_tree(*value) is Bool),
        },
{
    value.as_bool()
}

/// Calls `Value::as_number` and the number's `to_string`: the text of the
/// number of the variant `Number`, and `None` for every other variant.
#[verifier::external_body]
fn value_number_text(value: &serde_json::Value) -> (literal: Option<String>)
    ensures
        match literal {
            Some(text) => json_tree(*value) == JsonView::Number(text@),
            None => !(json_tree(*value) is Number),
        },
{
    match value.as_number() {
        Some(number) => Some(number.to_string()),
        None => None,
    }
}

/// Calls `Value::as_str`: the text of the variant `String`, and `None` for
/// every other variant.
#[verifier::external_body]
fn value_as_text(value: &serde_json::Value) -> (text: Option<&str>)
    ensures
        match text {
            Some(t) => json_tree(*value) == JsonView::Text(t@),
            None => !(json_tree(*value) is Text),
        },
{
    value.as_str()
}

/// Calls `Value::as_array`: the items of the variant `Array`, and `None`
/// for every other variant. The tree of an array is the list of the trees
/// of its items.
#[verifier::external_body]
fn value_as_list(value: &serde_json::Value) -> (list: Option<&Vec<serde_json::Value>>)
    ensures
        match list {
            Some(items) => json_tree(*value) == JsonView::List(
                Seq::new(items@.len(), |i: int| json_tree(items@[i])),
            ),
            None => !(json_tree(*value) is List),
        },
{
    value.as_array()
}

/// Calls `Value::as_object` and walks the map with `Map::iter`: the
/// entries of the variant `Object` in the order of the walk, and `None` for
/// every other variant. The tree of an object has one member per entry:
/// the entry's key and the tree of its value.
#[verifier::external_body]
fn value_as_members(value: &serde_json::Value) -> (entries: Option<
    Vec<(&String, &serde_json::Value)>,
>)
    ensures
        match entries {
            Some(members) => json_tree(*value) == JsonView::Object(
                Seq::new(members@.len(), |i: int| (members@[i].0@, json_tree(*members@[i].1))),
            ),
            None => !(json_tree(*value) is Object),
        },
{
    match value.as_object() {
        Some(map) => Some(map.iter().collect()),
        None => None,
    }
}

/// The tree of this library that holds what `value` holds.
pub fn json_of_value(value: &serde_json::Value) -> (json: Json)
    ensures
        json@ == json_tree(*value),
    decreases json_tree(*value),
{
    match value_as_bool(value) {
        Some(flag) => {
            return Json::Bool(flag);
        },
        None => {},
    }
    match value_number_text(value) {
        Some(literal) => {
            return Json::Number(literal);
        },
        None => {},
    }
    match value_as_text(value) {
        Some(text) => {
            return Json::Text(String::from_str(text));
        },
        None => {},
    }
    match value_as_list(value) {
        Some(items) => {
            let ghost trees = json_tree(*value)->List_0;
            let mut list: Vec<Json> = Vec::new();
            let mut i: usize = 0;
            while i < items.len()
                invariant
                    i <= items@.len(),
                    json_tree(*value) == JsonView::List(trees),
                    trees.len() == items@.len(),
                    forall|k: int| 0 <= k < items@.len() ==> #[trigger] trees[k] == json_tree(items@[k]),
                    list@.len() == i,
                    forall|k: int| 0 <= k < i ==> (#[trigger] list@[k])@ == trees[k],
                decreases items.len() - i,
            {
                proof {
                    assert(decreases_to!(json_tree(*value) => json_tree(*value)->List_0));
                    assert(decreases_to!(trees => trees[i as int]));
                }
                list.push(json_of_value(&items[i]));
                i += 1;
            }
            proof {
                lemma_list_view(list);
                assert(Json::List(list)@->List_0 =~= trees);
            }
            return Json::List(list);
        },
        None => {},
    }
    match value_as_members(value) {
        Some(entries) => {
            let ghost trees = json_tree(*value)->Object_0;
            let mut members: Vec<Member> = Vec::new();
            let mut i: usize = 0;
            while i < entries.len()
                invariant
                    i <= entries@.len(),
                    json_tree(*value) == JsonView::Object(trees),
                    trees.len() == entries@.len(),
                    forall|k: int|
                        0 <= k < entries@.len() ==> #[trigger] trees[k] == (
                            entries@[k].0@,
                            json_tree(*entries@[k].1),
                        ),
                    members@.len() == i,
                    forall|k: int|
                        0 <= k < i ==> (#[trigger] members@[k]).key@ == trees[k].0
                            && members@[k].value@ == trees[k].1,
                decreases entries.len() - i,
            {
                proof {
                    assert(decreases_to!(json_tree(*value) => json_tree(*value)->Object_0));
                    assert(decreases_to!(trees => trees[i as int]));
                    assert(decreases_to!(trees[i as int] => trees[i as int].1));
                }
                let key = entries[i].0.clone();
                let member = json_of_value(entries[i].1);
                members.push(Member { key, value: member });
                i += 1;
            }
            proof {
                lemma_object_view(members);
                assert(Json::Object(members)@->Object_0 =~= trees);
            }
            return Json::Object(members);
        },
        None => {},
    }
    // What is none of the above is null.
    Json::Null
}

/// What became of reading a text as JSON, given what `serde_json` returned
/// for it: the tree of the value, or the error as it came.
pub fn json_from_parsed(parsed: Result<serde_json::Value, serde_json::Error>) -> (res: Result<
    Json,
    serde_json::Error,
>)
    ensures
        match parsed {
            Ok(value) => res matches Ok(json) && json@ == json_tree(value),
            Err(error) => res == Err::<Json, serde_json::Error>(error),
        },
{
    match parsed {
        Ok(value) => Ok(json_of_value(&value)),
        Err(error) => Err(error),
    }
}

/// Reads a text as one JSON document.
pub fn parse_json(text: &str) -> (res: Result<Json, serde_json::Error>)
    ensures
        match res {
            Ok(json) => parsed_json(text@) == Some(json@),
            Err(_) => parsed_json(text@) is None,
        },
{
    json_from_parsed(parse_value(text))
}

} // verus!
