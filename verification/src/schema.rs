//! Parameter types and the schemas that describe them.
//!
//! A tool states the shape of its arguments as a [`ParamType`]: a named set
//! of typed, documented fields. A field may hold a list or a set of fields
//! of its own. The schema of a parameter type is a JSON object with one
//! property per field and the list of the fields that a call must give.

use vstd::prelude::*;
use crate::error::SchemaError;
use crate::json::{lemma_list_view, lemma_object_view, lookup, lookup_from, members_of, Json, JsonView, Member};

verus! {

/// The type of one field.
#[derive(Debug, PartialEq, Eq)]
pub enum FieldKind {
    Text,
    Integer,
    Number,
    Boolean,
    /// A text that is one of the listed values.
    Choice(Vec<String>),
    /// A list of values of one kind.
    List(Box<FieldKind>),
    /// An object with fields of its own.
    Record(Vec<FieldSpec>),
}

/// One field of a parameter type.
#[derive(Debug, PartialEq, Eq)]
pub struct FieldSpec {
    pub name: String,
    /// What the field means, as shown to the model.
    pub doc: String,
    pub kind: FieldKind,
    /// Whether a call must give the field.
    pub required: bool,
}

/// The definition of a tool's parameters, with the tool's name and
/// description.
#[derive(Debug, PartialEq, Eq)]
pub struct ParamType {
    pub name: String,
    pub description: String,
    pub fields: Vec<FieldSpec>,
}

/// Each text as a JSON text value, in order.
pub open spec fn text_values(values: Seq<String>) -> Seq<JsonView> {
    Seq::new(values.len(), |k: int| JsonView::Text(values[k]@))
}

/// Each name as a JSON text value, in order.
pub open spec fn name_values(names: Seq<Seq<char>>) -> Seq<JsonView> {
    Seq::new(names.len(), |k: int| JsonView::Text(names[k]))
}

/// The names of the required fields among the first `n`, in order.
pub open spec fn required_upto(fields: Seq<FieldSpec>, n: int) -> Seq<Seq<char>>
    decreases n,
{
    if n <= 0 {
        Seq::empty()
    } else if fields[n - 1].required {
        required_upto(fields, n - 1).push(fields[n - 1].name@)
    } else {
        required_upto(fields, n - 1)
    }
}

/// The names of the required fields, in the order of the fields.
pub open spec fn required_names(fields: Seq<FieldSpec>) -> Seq<Seq<char>> {
    required_upto(fields, fields.len() as int)
}

/// The schema's properties for `fields`: one per field, under the field's
/// name, in the order of the fields.
pub open spec fn properties_of(fields: Seq<FieldSpec>) -> Seq<(Seq<char>, JsonView)>
    decreases fields, 0int,
{
    Seq::new(
        fields.len(),
        |i: int|
            if 0 <= i < fields.len() {
                (fields[i].name@, fields[i].schema())
            } else {
                (Seq::<char>::empty(), JsonView::Null)
            },
    )
}

/// The members of the schema of an object with the fields `fields`: that it
/// is an object, its properties, and the names of its required fields.
pub open spec fn record_members(fields: Seq<FieldSpec>) -> Seq<(Seq<char>, JsonView)>
    decreases fields, 1int,
{
    seq![
        ("type"@, JsonView::Text("object"@)),
        ("properties"@, JsonView::Object(properties_of(fields))),
        ("required"@, JsonView::List(name_values(required_names(fields)))),
    ]
}

impl FieldKind {
    /// The members of the schema of a value of this kind: its type and what
    /// the type is made of.
    pub open spec fn schema_members(&self) -> Seq<(Seq<char>, JsonView)>
        decreases self, 0int,
    {
        match self {
            FieldKind::Text => seq![("type"@, JsonView::Text("string"@))],
            FieldKind::Integer => seq![("type"@, JsonView::Text("integer"@))],
            FieldKind::Number => seq![("type"@, JsonView::Text("number"@))],
            FieldKind::Boolean => seq![("type"@, JsonView::Text("boolean"@))],
            FieldKind::Choice(values) => seq![
                ("type"@, JsonView::Text("string"@)),
                ("enum"@, JsonView::List(text_values(values@))),
            ],
            FieldKind::List(item) => seq![
                ("type"@, JsonView::Text("array"@)),
                ("items"@, JsonView::Object(item.schema_members())),
            ],
            FieldKind::Record(fields) => record_members(fields@),
        }
    }

    /// Why a field of this kind, called `name`, has no schema, if it has
    /// none: a choice is without values, or a field within is at fault.
    pub open spec fn fault(&self, name: String) -> Option<SchemaError>
        decreases self, 0int,
    {
        match self {
            FieldKind::Choice(values) => if values@.len() == 0 {
                Some(SchemaError::EmptyChoice(name))
            } else {
                None
            },
            FieldKind::List(item) => item.fault(name),
            FieldKind::Record(fields) => fields_fault(fields@, 0),
            _ => None,
        }
    }
}

impl FieldSpec {
    /// The schema entry of this field: what its kind is made of, and its
    /// documentation.
    pub open spec fn schema(&self) -> JsonView
        decreases self, 0int,
    {
        JsonView::Object(self.kind.schema_members().push(("description"@, JsonView::Text(self.doc@))))
    }
}

/// Whether the field at `i` has the name of an earlier field.
pub open spec fn repeats_earlier(fields: Seq<FieldSpec>, i: int) -> bool {
    exists|j: int| 0 <= j < i && (#[trigger] fields[j]).name@ == fields[i].name@
}

/// What is wrong with the field at `i`, if anything: it has no name, it
/// has the name of an earlier field, or its kind is at fault.
pub open spec fn field_fault(fields: Seq<FieldSpec>, i: int) -> Option<SchemaError>
    decreases fields, 0int,
{
    if 0 <= i < fields.len() {
        if fields[i].name@.len() == 0 {
            Some(SchemaError::UnnamedField(i as usize))
        } else if repeats_earlier(fields, i) {
            Some(SchemaError::DuplicateField(fields[i].name))
        } else {
            fields[i].kind.fault(fields[i].name)
        }
    } else {
        None
    }
}

/// The fault of the first faulty field at or after `from`; `None` where
/// these fields are all sound.
pub open spec fn fields_fault(fields: Seq<FieldSpec>, from: int) -> Option<SchemaError>
    decreases fields, 1 + fields.len() - from,
{
    if 0 <= from < fields.len() {
        match field_fault(fields, from) {
            Some(fault) => Some(fault),
            None => fields_fault(fields, from + 1),
        }
    } else {
        None
    }
}

/// The names of those of `fields` that are not optional.
pub open spec fn non_optional(fields: Seq<FieldSpec>) -> Set<Seq<char>> {
    Set::new(
        |name: Seq<char>|
            exists|i: int|
                0 <= i < fields.len() && (#[trigger] fields[i]).required && fields[i].name@ == name,
    )
}

impl ParamType {
    /// Why this type has no schema: that it has no name, else the fault of
    /// its first faulty field. `None` where it has a schema.
    pub open spec fn fault(&self) -> Option<SchemaError> {
        if self.name@.len() == 0 {
            Some(SchemaError::MissingName)
        } else {
            fields_fault(self.fields@, 0)
        }
    }

    /// Whether this type has a schema: it is named, and at every level its
    /// fields are named, no two fields of one object share a name, and each
    /// choice has a value.
    pub open spec fn representable(&self) -> bool {
        self.fault() is None
    }

    /// The names of the required fields, in the order of the fields.
    pub open spec fn required_names(&self) -> Seq<Seq<char>> {
        required_names(self.fields@)
    }

    /// The schema of this type.
    pub open spec fn schema(&self) -> JsonView {
        JsonView::Object(record_members(self.fields@))
    }

    /// The names of the fields that a call must give.
    pub open spec fn non_optional_fields(&self) -> Set<Seq<char>> {
        non_optional(self.fields@)
    }

    /// Decides whether this type has a schema, and says why where it has none.
    pub fn check(&self) -> (res: Result<(), SchemaError>)
        ensures
            match res {
                Ok(_) => self.representable(),
                Err(e) => self.fault() == Some(e),
            },
    {
        if self.name.as_str().is_empty() {
            return Err(SchemaError::MissingName);
        }
        check_fields(&self.fields)
    }

    /// The schema of this type, where it has one.
    pub fn build_schema(&self) -> (res: Result<Json, SchemaError>)
        ensures
            match res {
                Ok(json) => self.representable() && json@ == self.schema(),
                Err(e) => self.fault() == Some(e),
            },
    {
        match self.check() {
            Ok(_) => {},
            Err(e) => {
                return Err(e);
            },
        }
        let members = build_record_members(&self.fields);
        proof {
            lemma_object_view(members);
            assert(Json::Object(members)@->Object_0 =~= members_of(members@));
        }
        Ok(Json::Object(members))
    }
}

/// Whether the field at `i` has the name of an earlier field.
fn has_earlier_name(fields: &Vec<FieldSpec>, i: usize) -> (found: bool)
    requires
        i < fields@.len(),
    ensures
        found == repeats_earlier(fields@, i as int),
{
    let mut j: usize = 0;
    while j < i
        invariant
            j <= i < fields@.len(),
            forall|k: int| 0 <= k < j ==> (#[trigger] fields@[k]).name@ != fields@[i as int].name@,
        decreases i - j,
    {
        if fields[j].name == fields[i].name {
            return true;
        }
        j += 1;
    }
    false
}

/// Decides [`FieldKind::fault`].
fn check_kind(kind: &FieldKind, name: &String) -> (res: Result<(), SchemaError>)
    ensures
        match res {
            Ok(_) => kind.fault(*name) is None,
            Err(e) => kind.fault(*name) == Some(e),
        },
    decreases kind, 0int,
{
    match kind {
        FieldKind::Choice(values) => {
            if values.len() == 0 {
                Err(SchemaError::EmptyChoice(name.clone()))
            } else {
                Ok(())
            }
        },
        FieldKind::List(item) => check_kind(item, name),
        FieldKind::Record(fields) => check_fields(fields),
        _ => Ok(()),
    }
}

/// Decides [`field_fault`].
fn check_field(fields: &Vec<FieldSpec>, i: usize) -> (res: Result<(), SchemaError>)
    requires
        i < fields@.len(),
    ensures
        match res {
            Ok(_) => field_fault(fields@, i as int) is None,
            Err(e) => field_fault(fields@, i as int) == Some(e),
        },
    decreases fields@, 0int,
{
    let field = &fields[i];
    if field.name.as_str().is_empty() {
        return Err(SchemaError::UnnamedField(i));
    }
    if has_earlier_name(fields, i) {
        return Err(SchemaError::DuplicateField(field.name.clone()));
    }
    check_kind(&field.kind, &field.name)
}

/// Decides [`fields_fault`] from the first field on.
fn check_fields(fields: &Vec<FieldSpec>) -> (res: Result<(), SchemaError>)
    ensures
        match res {
            Ok(_) => fields_fault(fields@, 0) is None,
            Err(e) => fields_fault(fields@, 0) == Some(e),
        },
    decreases fields@, 1int,
{
    let mut i: usize = 0;
    while i < fields.len()
        invariant
            i <= fields@.len(),
            fields_fault(fields@, 0) == fields_fault(fields@, i as int),
        decreases fields.len() - i,
    {
        match check_field(fields, i) {
            Ok(_) => {},
            Err(e) => {
                return Err(e);
            },
        }
        i += 1;
    }
    Ok(())
}

/// The members of the schema of a value of kind `kind`.
fn build_kind_members(kind: &FieldKind) -> (members: Vec<Member>)
    ensures
        members_of(members@) == kind.schema_members(),
    decreases kind, 0int,
{
    let mut members: Vec<Member> = Vec::new();
    match kind {
        FieldKind::Text => {
            members.push(Member { key: String::from_str("type"), value: Json::text("string") });
        },
        FieldKind::Integer => {
            members.push(Member { key: String::from_str("type"), value: Json::text("integer") });
        },
        FieldKind::Number => {
            members.push(Member { key: String::from_str("type"), value: Json::text("number") });
        },
        FieldKind::Boolean => {
            members.push(Member { key: String::from_str("type"), value: Json::text("boolean") });
        },
        FieldKind::Choice(values) => {
            let mut choices: Vec<Json> = Vec::new();
            let mut k: usize = 0;
            while k < values.len()
                invariant
                    k <= values@.len(),
                    choices@.len() == k,
                    forall|n: int| 0 <= n < k ==> (#[trigger] choices@[n])@ == JsonView::Text(values@[n]@),
                decreases values.len() - k,
            {
                choices.push(Json::Text(values[k].clone()));
                k += 1;
            }
            proof {
                lemma_list_view(choices);
                assert(Json::List(choices)@->List_0 =~= text_values(values@));
            }
            members.push(Member { key: String::from_str("type"), value: Json::text("string") });
            members.push(Member { key: String::from_str("enum"), value: Json::List(choices) });
        },
        FieldKind::List(item) => {
            let inner = build_kind_members(item);
            proof {
                lemma_object_view(inner);
                assert(Json::Object(inner)@->Object_0 =~= members_of(inner@));
            }
            members.push(Member { key: String::from_str("type"), value: Json::text("array") });
            members.push(Member { key: String::from_str("items"), value: Json::Object(inner) });
        },
        FieldKind::Record(fields) => {
            return build_record_members(fields);
        },
    }
    proof {
        assert(members_of(members@) =~= kind.schema_members());
    }
    members
}

/// The members of the schema of an object with the fields `fields`.
fn build_record_members(fields: &Vec<FieldSpec>) -> (members: Vec<Member>)
    ensures
        members_of(members@) == record_members(fields@),
    decreases fields@, 1int,
{
    let mut properties: Vec<Member> = Vec::new();
    let mut required: Vec<Json> = Vec::new();
    let mut i: usize = 0;
    while i < fields.len()
        invariant
            i <= fields@.len(),
            properties@.len() == i,
            forall|k: int|
                0 <= k < i ==> (#[trigger] properties@[k]).key@ == fields@[k].name@
                    && properties@[k].value@ == fields@[k].schema(),
            required@.len() == required_upto(fields@, i as int).len(),
            forall|k: int|
                0 <= k < required@.len() ==> (#[trigger] required@[k])@ == JsonView::Text(
                    required_upto(fields@, i as int)[k],
                ),
        decreases fields.len() - i,
    {
        let field = &fields[i];
        let mut entry = build_kind_members(&field.kind);
        entry.push(
            Member { key: String::from_str("description"), value: Json::Text(field.doc.clone()) },
        );
        proof {
            lemma_object_view(entry);
            assert(Json::Object(entry)@->Object_0 =~= field.schema()->Object_0);
        }
        properties.push(Member { key: field.name.clone(), value: Json::Object(entry) });
        if field.required {
            required.push(Json::Text(field.name.clone()));
        }
        i += 1;
    }
    proof {
        lemma_object_view(properties);
        lemma_list_view(required);
        assert(Json::Object(properties)@->Object_0 =~= properties_of(fields@));
        assert(Json::List(required)@->List_0 =~= name_values(required_names(fields@)));
    }
    let mut members: Vec<Member> = Vec::new();
    members.push(Member { key: String::from_str("type"), value: Json::text("object") });
    members.push(Member { key: String::from_str("properties"), value: Json::Object(properties) });
    members.push(Member { key: String::from_str("required"), value: Json::List(required) });
    proof {
        assert(members_of(members@) =~= record_members(fields@));
    }
    members
}

/// Fields that are each without fault are without fault together.
pub proof fn lemma_sound_fields(fields: Seq<FieldSpec>, from: int)
    requires
        0 <= from,
        forall|i: int| from <= i < fields.len() ==> (#[trigger] field_fault(fields, i)) is None,
    ensures
        fields_fault(fields, from) is None,
    decreases fields.len() - from,
{
    if from < fields.len() {
        assert(field_fault(fields, from) is None);
        lemma_sound_fields(fields, from + 1);
    }
}

/// The names that a schema lists as required.
pub open spec fn schema_required(schema: JsonView) -> Set<Seq<char>> {
    match schema {
        JsonView::Object(members) => match lookup(members, "required"@) {
            Some(JsonView::List(items)) => Set::new(
                |name: Seq<char>|
                    exists|k: int| 0 <= k < items.len() && #[trigger] items[k] == JsonView::Text(name),
            ),
            _ => Set::empty(),
        },
        _ => Set::empty(),
    }
}

/// The names of the properties of a schema, in order.
pub open spec fn schema_properties(schema: JsonView) -> Seq<Seq<char>> {
    match schema {
        JsonView::Object(members) => match lookup(members, "properties"@) {
            Some(JsonView::Object(properties)) => Seq::new(properties.len(), |i: int| properties[i].0),
            _ => Seq::empty(),
        },
        _ => Seq::empty(),
    }
}

/// A name is among the required names of the first `n` fields exactly when
/// one of these fields is required and has that name.
pub proof fn lemma_required_upto(fields: Seq<FieldSpec>, n: int, name: Seq<char>)
    requires
        0 <= n <= fields.len(),
    ensures
        required_upto(fields, n).contains(name) <==> exists|i: int|
            0 <= i < n && (#[trigger] fields[i]).required && fields[i].name@ == name,
    decreases n,
{
    if n > 0 {
        lemma_required_upto(fields, n - 1, name);
        let rest = required_upto(fields, n - 1);
        if fields[n - 1].required {
            let all = rest.push(fields[n - 1].name@);
            assert(all == required_upto(fields, n));
            if all.contains(name) {
                let k = choose|k: int| 0 <= k < all.len() && all[k] == name;
                if k < rest.len() {
                    assert(rest[k] == name);
                    assert(rest.contains(name));
                } else {
                    assert(fields[n - 1].name@ == name);
                }
            }
            if exists|i: int| 0 <= i < n && (#[trigger] fields[i]).required && fields[i].name@ == name {
                let i = choose|i: int| 0 <= i < n && (#[trigger] fields[i]).required && fields[i].name@ == name;
                if i < n - 1 {
                    assert(rest.contains(name));
                    let k = choose|k: int| 0 <= k < rest.len() && rest[k] == name;
                    assert(all[k] == name);
                } else {
                    assert(all[rest.len() as int] == name);
                }
            }
        } else {
            if exists|i: int| 0 <= i < n && (#[trigger] fields[i]).required && fields[i].name@ == name {
                let i = choose|i: int| 0 <= i < n && (#[trigger] fields[i]).required && fields[i].name@ == name;
                assert(i < n - 1);
            }
        }
    }
}

/// The schema of an object lists as required exactly those of its fields
/// that are not optional, at whatever depth the object stands.
pub proof fn lemma_record_required(fields: Seq<FieldSpec>)
    ensures
        schema_required(JsonView::Object(record_members(fields))) == non_optional(fields),
{
    reveal_strlit("type");
    reveal_strlit("properties");
    reveal_strlit("required");
    let schema = JsonView::Object(record_members(fields));
    let members = record_members(fields);
    assert(members[0].0.len() == 4);
    assert(members[1].0.len() == 10);
    assert(lookup(members, "required"@) == Some(members[2].1)) by {
        reveal_with_fuel(lookup_from, 3);
    }
    let names = required_names(fields);
    let items = name_values(names);
    assert forall|name: Seq<char>| schema_required(schema).contains(name) == non_optional(
        fields,
    ).contains(name) by {
        lemma_required_upto(fields, fields.len() as int, name);
        if schema_required(schema).contains(name) {
            let k = choose|k: int| 0 <= k < items.len() && #[trigger] items[k] == JsonView::Text(name);
            assert(names[k] == name);
        }
        if names.contains(name) {
            let k = choose|k: int| 0 <= k < names.len() && names[k] == name;
            assert(items[k] == JsonView::Text(name));
        }
    }
    assert(schema_required(schema) =~= non_optional(fields));
}

/// The schema of an object has one property per field, under the field's
/// name and in the order of the fields.
pub proof fn lemma_record_properties(fields: Seq<FieldSpec>)
    ensures
        schema_properties(JsonView::Object(record_members(fields))).len() == fields.len(),
        forall|i: int|
            0 <= i < fields.len() ==> #[trigger] schema_properties(
                JsonView::Object(record_members(fields)),
            )[i] == fields[i].name@,
{
    reveal_strlit("type");
    reveal_strlit("properties");
    let members = record_members(fields);
    assert(members[0].0.len() == 4);
    assert(lookup(members, "properties"@) == Some(members[1].1)) by {
        reveal_with_fuel(lookup_from, 2);
    }
}

/// The schema of a parameter type lists as required exactly the fields of
/// the type that are not optional.
pub proof fn lemma_required_are_non_optional(ty: ParamType)
    ensures
        schema_required(ty.schema()) == ty.non_optional_fields(),
{
    lemma_record_required(ty.fields@);
}

/// The schema of a parameter type has one property per field, under the
/// field's name and in the order of the fields.
pub proof fn lemma_properties_are_fields(ty: ParamType)
    ensures
        schema_properties(ty.schema()).len() == ty.fields@.len(),
        forall|i: int|
            0 <= i < ty.fields@.len() ==> #[trigger] schema_properties(ty.schema())[i]
                == ty.fields@[i].name@,
{
    lemma_record_properties(ty.fields@);
}

} // verus!
