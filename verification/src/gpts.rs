//! Model names.

use vstd::prelude::*;

verus! {

pub const MODEL_4_O: &'static str = "gpt-4o";

pub const MODEL_4_TURBO: &'static str = "gpt-4-turbo";

pub const MODEL_3_TURBO: &'static str = "gpt-3.5-turbo";

/// The model to talk to: the configured one, else the default.
pub fn model(configured: Option<String>) -> (name: String)
    ensures
        match configured {
            Some(chosen) => name == chosen,
            None => name@ == MODEL_3_TURBO@,
        },
{
    match configured {
        Some(chosen) => chosen,
        None => String::from_str(MODEL_3_TURBO),
    }
}

} // verus!
