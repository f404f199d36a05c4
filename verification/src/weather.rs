//! The weather tool: its parameters and its descriptor.

use vstd::prelude::*;
use crate::chat::{descriptor_of, tool_fn_from_type, CapabilityDescriptor};
use crate::error::BridgeError;
use crate::schema::{field_fault, lemma_sound_fields, repeats_earlier, FieldKind, FieldSpec, ParamType};

verus! {

/// The name of the field that holds the temperature unit.
pub const UNIT: &'static str = "unit";

/// Whether `field` is a required field of the given name and documentation.
pub open spec fn is_required_field(field: FieldSpec, name: Seq<char>, doc: Seq<char>) -> bool {
    field.name@ == name && field.doc@ == doc && field.required
}

/// Whether `ty` is the parameter type of the weather tool: the city, the
/// country and the temperature unit, all required.
pub open spec fn is_weather_params(ty: ParamType) -> bool {
    &&& ty.name@ == "get_weather"@
    &&& ty.description@ == "get the weather for a city"@
    &&& ty.fields@.len() == 3
    &&& is_required_field(ty.fields@[0], "location"@, "The city and state, e.g. San Francisco, CA"@)
    &&& ty.fields@[0].kind is Text
    &&& is_required_field(ty.fields@[1], "country"@, "The full country name of the city"@)
    &&& ty.fields@[1].kind is Text
    &&& is_required_field(
        ty.fields@[2],
        UNIT@,
        "The temperature unit (e.g., 'celsius' or 'fahrenheit')"@,
    )
    &&& ty.fields@[2].kind matches FieldKind::Choice(units) && units@.len() == 2 && units@[0]@
        == "celsius"@ && units@[1]@ == "fahrenheit"@
}

/// The parameter type of the weather tool has a schema.
pub proof fn lemma_weather_params_representable(ty: ParamType)
    requires
        is_weather_params(ty),
    ensures
        ty.representable(),
{
    reveal_strlit("get_weather");
    reveal_strlit("location");
    reveal_strlit("country");
    reveal_strlit("unit");
    assert(ty.fields@[0].name@.len() == 8);
    assert(ty.fields@[1].name@.len() == 7);
    assert(ty.fields@[2].name@.len() == 4);
    let fields = ty.fields@;
    assert forall|i: int| 0 <= i < fields.len() implies (#[trigger] field_fault(fields, i)) is None by {
        if repeats_earlier(fields, i) {
            let j = choose|j: int| 0 <= j < i && (#[trigger] fields[j]).name@ == fields[i].name@;
            assert(fields[j].name@.len() == fields[i].name@.len());
        }
    }
    lemma_sound_fields(fields, 0);
}

/// The parameter type of the weather tool.
pub fn get_weather_params() -> (ty: ParamType)
    ensures
        is_weather_params(ty),
{
    let mut units: Vec<String> = Vec::new();
    units.push(String::from_str("celsius"));
    units.push(String::from_str("fahrenheit"));
    let mut fields: Vec<FieldSpec> = Vec::new();
    fields.push(
        FieldSpec {
            name: String::from_str("location"),
            doc: String::from_str("The city and state, e.g. San Francisco, CA"),
            kind: FieldKind::Text,
            required: true,
        },
    );
    fields.push(
        FieldSpec {
            name: String::from_str("country"),
            doc: String::from_str("The full country name of the city"),
            kind: FieldKind::Text,
            required: true,
        },
    );
    fields.push(
        FieldSpec {
            name: String::from_str(UNIT),
            doc: String::from_str("The temperature unit (e.g., 'celsius' or 'fahrenheit')"),
            kind: FieldKind::Choice(units),
            required: true,
        },
    );
    ParamType {
        name: String::from_str("get_weather"),
        description: String::from_str("get the weather for a city"),
        fields,
    }
}

/// The descriptors of the tools of this module: that of the weather tool.
pub fn chat_tools() -> (res: Result<Vec<CapabilityDescriptor>, BridgeError>)
    ensures
        res matches Ok(tools) && tools@.len() == 1 && exists|ty: ParamType|
            is_weather_params(ty) && tools@[0]@ == #[trigger] descriptor_of(ty),
{
    let ty = get_weather_params();
    proof {
        lemma_weather_params_representable(ty);
    }
    let tool_weather = tool_fn_from_type(&ty)?;
    let mut tools: Vec<CapabilityDescriptor> = Vec::new();
    tools.push(tool_weather);
    Ok(tools)
}

} // verus!
