//! Call arguments against the parameter type that a handler expects.
//!
//! The arguments of a call fit a parameter type when they are an object in
//! which every required field is present and every field that is present
//! holds a value of the field's type. Members that the type does not name
//! are passed over.

use vstd::prelude::*;
use crate::error::{ArgumentError, ArgumentErrorView};
use crate::json::{integer_text, is_integer_text, lemma_list_view, lemma_lookup_push, lookup, Json, JsonView};
use crate::schema::{FieldKind, FieldSpec, ParamType};

verus! {

/// Whether `text` is one of `values`.
pub open spec fn is_choice(values: Seq<String>, text: Seq<char>) -> bool {
    exists|k: int| 0 <= k < values.len() && (#[trigger] values[k])@ == text
}

/// Why the values from `from` on are not all of the kind `item`: the fault
/// of the first that is not. `None` where they all are.
pub open spec fn items_fault(
    item: FieldKind,
    name: Seq<char>,
    values: Seq<JsonView>,
    from: int,
) -> Option<ArgumentErrorView>
    decreases item, 1 + values.len() - from,
{
    if 0 <= from < values.len() {
        match item.value_fault(name, values[from]) {
            Some(fault) => Some(fault),
            None => items_fault(item, name, values, from + 1),
        }
    } else {
        None
    }
}

/// Why the members of an object do not serve the fields from `from` on:
/// the fault of the first field that they do not serve. `None` where they
/// serve all of these fields.
pub open spec fn members_fault(
    fields: Seq<FieldSpec>,
    members: Seq<(Seq<char>, JsonView)>,
    from: int,
) -> Option<ArgumentErrorView>
    decreases fields, 1 + fields.len() - from,
{
    if 0 <= from < fields.len() {
        match fields[from].argument_fault(members) {
            Some(fault) => Some(fault),
            None => members_fault(fields, members, from + 1),
        }
    } else {
        None
    }
}

impl FieldKind {
    /// Why `value` is no value of this kind, if it is none, for the field
    /// called `name`. A list takes a list of values of its kind, an object
    /// takes an object that serves its fields.
    pub open spec fn value_fault(&self, name: Seq<char>, value: JsonView) -> Option<
        ArgumentErrorView,
    >
        decreases self, 0int,
    {
        match (self, value) {
            (FieldKind::Text, JsonView::Text(_)) => None,
            (FieldKind::Integer, JsonView::Number(literal)) => if integer_text(literal) {
                None
            } else {
                Some(ArgumentErrorView::WrongType(name))
            },
            (FieldKind::Number, JsonView::Number(_)) => None,
            (FieldKind::Boolean, JsonView::Bool(_)) => None,
            (FieldKind::Choice(values), JsonView::Text(text)) => if is_choice(values@, text) {
                None
            } else {
                Some(ArgumentErrorView::UnknownChoice(name, text))
            },
            (FieldKind::List(item), JsonView::List(values)) => items_fault(**item, name, values, 0),
            (FieldKind::Record(fields), JsonView::Object(members)) => members_fault(
                fields@,
                members,
                0,
            ),
            _ => Some(ArgumentErrorView::WrongType(name)),
        }
    }
}

impl FieldSpec {
    /// Why the members of an arguments object do not serve this field, if
    /// they do not: a required field is absent, or the field's first member
    /// holds a value of another type. An optional field may be absent or
    /// null.
    pub open spec fn argument_fault(&self, members: Seq<(Seq<char>, JsonView)>) -> Option<
        ArgumentErrorView,
    >
        decreases self, 0int,
    {
        match lookup(members, self.name@) {
            None => if self.required {
                Some(ArgumentErrorView::MissingField(self.name@))
            } else {
                None
            },
            Some(value) => if !self.required && value is Null {
                None
            } else {
                self.kind.value_fault(self.name@, value)
            },
        }
    }
}

impl ParamType {
    /// Why `arguments` do not fit this type: that they are no object, else
    /// the fault of the first field that they do not serve. `None` where
    /// they fit.
    pub open spec fn argument_fault(&self, arguments: JsonView) -> Option<ArgumentErrorView> {
        match arguments {
            JsonView::Object(members) => members_fault(self.fields@, members, 0),
            _ => Some(ArgumentErrorView::NotAnObject),
        }
    }

    /// Whether `arguments` fit this type.
    pub open spec fn accepts(&self, arguments: JsonView) -> bool {
        self.argument_fault(arguments) is None
    }

    /// Decides whether `arguments` fit this type, and says why where they do
    /// not.
    pub fn check_arguments(&self, arguments: &Json) -> (res: Result<(), ArgumentError>)
        ensures
            match res {
                Ok(_) => self.accepts(arguments@),
                Err(e) => self.argument_fault(arguments@) == Some(e@),
            },
    {
        match arguments {
            Json::Object(_) => check_members(&self.fields, arguments),
            _ => Err(ArgumentError::NotAnObject),
        }
    }
}

/// Decides [`FieldKind::value_fault`].
fn check_value(kind: &FieldKind, name: &String, value: &Json) -> (res: Result<(), ArgumentError>)
    ensures
        match res {
            Ok(_) => kind.value_fault(name@, value@) is None,
            Err(e) => kind.value_fault(name@, value@) == Some(e@),
        },
    decreases kind, 0int,
{
    match (kind, value) {
        (FieldKind::Text, Json::Text(_)) => Ok(()),
        (FieldKind::Integer, Json::Number(literal)) => {
            if is_integer_text(literal.as_str()) {
                Ok(())
            } else {
                Err(ArgumentError::WrongType(name.clone()))
            }
        },
        (FieldKind::Number, Json::Number(_)) => Ok(()),
        (FieldKind::Boolean, Json::Bool(_)) => Ok(()),
        (FieldKind::Choice(values), Json::Text(text)) => {
            let mut k: usize = 0;
            while k < values.len()
                invariant
                    k <= values@.len(),
                    *kind == FieldKind::Choice(*values),
                    value@ == JsonView::Text(text@),
                    forall|n: int| 0 <= n < k ==> (#[trigger] values@[n])@ != text@,
                decreases values.len() - k,
            {
                if values[k] == *text {
                    assert(is_choice(values@, text@)) by {
                        assert(values@[k as int]@ == text@);
                    }
                    return Ok(());
                }
                k += 1;
            }
            Err(ArgumentError::UnknownChoice(name.clone(), text.clone()))
        },
        (FieldKind::List(item), Json::List(values)) => {
            let ghost items = value@->List_0;
            proof {
                lemma_list_view(*values);
            }
            let mut i: usize = 0;
            while i < values.len()
                invariant
                    i <= values@.len(),
                    *kind == FieldKind::List(*item),
                    value@ == JsonView::List(items),
                    items.len() == values@.len(),
                    forall|k: int| 0 <= k < values@.len() ==> (#[trigger] items[k]) == values@[k]@,
                    items_fault(**item, name@, items, 0) == items_fault(**item, name@, items, i as int),
                decreases values.len() - i,
            {
                match check_value(item, name, &values[i]) {
                    Ok(_) => {},
                    Err(e) => {
                        return Err(e);
                    },
                }
                i += 1;
            }
            Ok(())
        },
        (FieldKind::Record(fields), Json::Object(_)) => check_members(fields, value),
        _ => Err(ArgumentError::WrongType(name.clone())),
    }
}

/// Decides [`FieldSpec::argument_fault`] on the members of `arguments`.
fn check_argument(field: &FieldSpec, arguments: &Json) -> (res: Result<(), ArgumentError>)
    requires
        arguments@ is Object,
    ensures
        match res {
            Ok(_) => field.argument_fault(arguments@->Object_0) is None,
            Err(e) => field.argument_fault(arguments@->Object_0) == Some(e@),
        },
    decreases field, 0int,
{
    match arguments.get(field.name.as_str()) {
        None => {
            if field.required {
                Err(ArgumentError::MissingField(field.name.clone()))
            } else {
                Ok(())
            }
        },
        Some(value) => {
            let absent = match value {
                Json::Null => !field.required,
                _ => false,
            };
            if absent {
                Ok(())
            } else {
                check_value(&field.kind, &field.name, value)
            }
        },
    }
}

/// Decides [`members_fault`] from the first field on.
fn check_members(fields: &Vec<FieldSpec>, arguments: &Json) -> (res: Result<(), ArgumentError>)
    requires
        arguments@ is Object,
    ensures
        match res {
            Ok(_) => members_fault(fields@, arguments@->Object_0, 0) is None,
            Err(e) => members_fault(fields@, arguments@->Object_0, 0) == Some(e@),
        },
    decreases fields@, 1int,
{
    let ghost members = arguments@->Object_0;
    let mut i: usize = 0;
    while i < fields.len()
        invariant
            i <= fields@.len(),
            arguments@ == JsonView::Object(members),
            members_fault(fields@, members, 0) == members_fault(fields@, members, i as int),
        decreases fields.len() - i,
    {
        match check_argument(&fields[i], arguments) {
            Ok(_) => {},
            Err(e) => {
                return Err(e);
            },
        }
        i += 1;
    }
    Ok(())
}

/// Where the members do not serve the field at `i`, they do not serve the
/// fields from any earlier position on.
pub proof fn lemma_unserved_field(
    fields: Seq<FieldSpec>,
    members: Seq<(Seq<char>, JsonView)>,
    from: int,
    i: int,
)
    requires
        0 <= from <= i < fields.len(),
        fields[i].argument_fault(members) is Some,
    ensures
        members_fault(fields, members, from) is Some,
    decreases i - from,
{
    if from < i {
        lemma_unserved_field(fields, members, from + 1, i);
    }
}

/// Two objects that hold the same under the name of every field serve the
/// fields alike.
pub proof fn lemma_same_lookups(
    fields: Seq<FieldSpec>,
    a: Seq<(Seq<char>, JsonView)>,
    b: Seq<(Seq<char>, JsonView)>,
    from: int,
)
    requires
        0 <= from,
        forall|i: int|
            0 <= i < fields.len() ==> lookup(a, (#[trigger] fields[i]).name@) == lookup(
                b,
                fields[i].name@,
            ),
    ensures
        members_fault(fields, a, from) == members_fault(fields, b, from),
    decreases fields.len() - from,
{
    if from < fields.len() {
        assert(fields[from].argument_fault(a) == fields[from].argument_fault(b));
        lemma_same_lookups(fields, a, b, from + 1);
    }
}

/// A call that leaves out a required field does not fit.
pub proof fn lemma_missing_required_field_is_refused(
    ty: ParamType,
    members: Seq<(Seq<char>, JsonView)>,
    i: int,
)
    requires
        0 <= i < ty.fields@.len(),
        ty.fields@[i].required,
        lookup(members, ty.fields@[i].name@) is None,
    ensures
        !ty.accepts(JsonView::Object(members)),
{
    lemma_unserved_field(ty.fields@, members, 0, i);
}

/// Whether arguments fit depends only on what they hold under the names of
/// the fields: two objects that agree there fit alike, and fail alike.
pub proof fn lemma_only_named_fields_count(
    ty: ParamType,
    a: Seq<(Seq<char>, JsonView)>,
    b: Seq<(Seq<char>, JsonView)>,
)
    requires
        forall|i: int|
            0 <= i < ty.fields@.len() ==> lookup(a, (#[trigger] ty.fields@[i]).name@) == lookup(
                b,
                ty.fields@[i].name@,
            ),
    ensures
        ty.argument_fault(JsonView::Object(a)) == ty.argument_fault(JsonView::Object(b)),
{
    lemma_same_lookups(ty.fields@, a, b, 0);
}

/// A member under a name that no field has changes nothing: arguments with
/// such a member added fit exactly when they fit without it.
pub proof fn lemma_unknown_member_is_tolerated(
    ty: ParamType,
    members: Seq<(Seq<char>, JsonView)>,
    key: Seq<char>,
    value: JsonView,
)
    requires
        forall|i: int| 0 <= i < ty.fields@.len() ==> (#[trigger] ty.fields@[i]).name@ != key,
    ensures
        ty.argument_fault(JsonView::Object(members.push((key, value)))) == ty.argument_fault(
            JsonView::Object(members),
        ),
{
    let more = members.push((key, value));
    assert forall|i: int| 0 <= i < ty.fields@.len() implies lookup(
        more,
        (#[trigger] ty.fields@[i]).name@,
    ) == lookup(members, ty.fields@[i].name@) by {
        lemma_lookup_push(members, key, value, ty.fields@[i].name@);
    }
    lemma_only_named_fields_count(ty, more, members);
}

} // verus!
