//! Error values of the bridge.

use vstd::prelude::*;

verus! {

/// `serde_json::Error`, carried as an opaque value.
#[verifier::external_type_specification]
#[verifier::external_body]
pub struct ExJsonError(serde_json::Error);

/// `async_openai::error::OpenAIError`, carried as an opaque value.
#[verifier::external_type_specification]
#[verifier::external_body]
pub struct ExOpenAIError(async_openai::error::OpenAIError);

/// `rpc_router::CallError`, carried as an opaque value.
#[verifier::external_type_specification]
#[verifier::external_body]
pub struct ExCallError(rpc_router::CallError);

/// Why a parameter type has no schema.
#[derive(Debug, PartialEq, Eq)]
pub enum SchemaError {
    /// The capability has an empty name.
    MissingName,
    /// The field at this position has an empty name.
    UnnamedField(usize),
    /// A field repeats the name of an earlier field.
    DuplicateField(String),
    /// The named field is a choice without any value.
    EmptyChoice(String),
}

/// Faults of the handler registry.
#[derive(Debug, PartialEq, Eq)]
pub enum RegistryError {
    /// Two registrations share this name.
    DuplicateName(String),
    /// No handler is registered under this name.
    Unknown(String),
}

/// Why call arguments do not fit a parameter type.
#[derive(Debug, PartialEq, Eq)]
pub enum ArgumentError {
    /// The arguments are not an object.
    NotAnObject,
    /// The named required field is absent.
    MissingField(String),
    /// The named field holds a value of another type.
    WrongType(String),
    /// The field (first) holds a text (second) that is none of its choices.
    UnknownChoice(String, String),
}

/// What can go wrong in the bridge.
#[derive(Debug)]
pub enum BridgeError {
    /// A fault that is told in words.
    Custom(String),
    /// The model provider could not be reached, or refused.
    OpenAi(async_openai::error::OpenAIError),
    /// A text that should be JSON is not.
    Json(serde_json::Error),
    /// A call through the router failed.
    RpcCall(Box<rpc_router::CallError>),
    /// A parameter type has no schema.
    Schema(SchemaError),
    /// The registry could not be built.
    Registry(RegistryError),
}

impl SchemaError {
    /// The text shown for this error.
    pub open spec fn description(&self) -> Seq<char> {
        match self {
            SchemaError::MissingName => "the tool has no name"@,
            SchemaError::UnnamedField(_) => "a field has no name"@,
            SchemaError::DuplicateField(name) => "duplicate field: "@ + name@,
            SchemaError::EmptyChoice(name) => "no choices for field: "@ + name@,
        }
    }

    /// The text shown for this error.
    pub fn message(&self) -> (text: String)
        ensures
            text@ == self.description(),
    {
        match self {
            SchemaError::MissingName => String::from_str("the tool has no name"),
            SchemaError::UnnamedField(_) => String::from_str("a field has no name"),
            SchemaError::DuplicateField(name) => String::from_str("duplicate field: ").concat(
                name.as_str(),
            ),
            SchemaError::EmptyChoice(name) => String::from_str("no choices for field: ").concat(
                name.as_str(),
            ),
        }
    }
}

impl RegistryError {
    /// The text shown for this error.
    pub open spec fn description(&self) -> Seq<char> {
        match self {
            RegistryError::DuplicateName(name) => "duplicate tool name: "@ + name@,
            RegistryError::Unknown(name) => "unknown tool: "@ + name@,
        }
    }

    /// The text shown for this error.
    pub fn message(&self) -> (text: String)
        ensures
            text@ == self.description(),
    {
        match self {
            RegistryError::DuplicateName(name) => String::from_str("duplicate tool name: ").concat(
                name.as_str(),
            ),
            RegistryError::Unknown(name) => String::from_str("unknown tool: ").concat(name.as_str()),
        }
    }
}

/// The mathematical model of an [`ArgumentError`].
pub enum ArgumentErrorView {
    NotAnObject,
    MissingField(Seq<char>),
    WrongType(Seq<char>),
    UnknownChoice(Seq<char>, Seq<char>),
}

impl View for ArgumentError {
    type V = ArgumentErrorView;

    open spec fn view(&self) -> ArgumentErrorView {
        match self {
            ArgumentError::NotAnObject => ArgumentErrorView::NotAnObject,
            ArgumentError::MissingField(field) => ArgumentErrorView::MissingField(field@),
            ArgumentError::WrongType(field) => ArgumentErrorView::WrongType(field@),
            ArgumentError::UnknownChoice(field, value) => ArgumentErrorView::UnknownChoice(
                field@,
                value@,
            ),
        }
    }
}

impl ArgumentErrorView {
    /// The text shown for this error.
    pub open spec fn description(self) -> Seq<char> {
        match self {
            ArgumentErrorView::NotAnObject => "arguments are not an object"@,
            ArgumentErrorView::MissingField(field) => "missing field: "@ + field,
            ArgumentErrorView::WrongType(field) => "wrong type for field: "@ + field,
            ArgumentErrorView::UnknownChoice(field, value) => "unknown choice for field "@ + field
                + ": "@ + value,
        }
    }
}

impl ArgumentError {
    /// The text shown for this error.
    pub fn message(&self) -> (text: String)
        ensures
            text@ == self@.description(),
    {
        match self {
            ArgumentError::NotAnObject => String::from_str("arguments are not an object"),
            ArgumentError::MissingField(field) => String::from_str("missing field: ").concat(
                field.as_str(),
            ),
            ArgumentError::WrongType(field) => String::from_str("wrong type for field: ").concat(
                field.as_str(),
            ),
            ArgumentError::UnknownChoice(field, value) => String::from_str(
                "unknown choice for field ",
            ).concat(field.as_str()).concat(": ").concat(value.as_str()),
        }
    }
}

impl BridgeError {
    /// An error that carries `val` as its message.
    pub fn custom(val: &str) -> (e: Self)
        ensures
            e matches BridgeError::Custom(msg) && msg@ == val@,
    {
        BridgeError::Custom(String::from_str(val))
    }

    /// An error whose message is the text that `err` displays as.
    pub fn custom_from_error<E: std::fmt::Display>(err: E) -> (e: Self)
        ensures
            e matches BridgeError::Custom(msg) && vstd::string::to_string_from_display_ensures::<E>(
                &err,
                msg,
            ),
    {
        BridgeError::Custom(err.to_string())
    }
}

impl From<String> for BridgeError {
    fn from(val: String) -> (res: Self) {
        BridgeError::Custom(val)
    }
}

impl vstd::std_specs::convert::FromSpecImpl<String> for BridgeError {
    open spec fn obeys_from_spec() -> bool {
        true
    }

    open spec fn from_spec(val: String) -> Self {
        BridgeError::Custom(val)
    }
}

impl From<&String> for BridgeError {
    fn from(val: &String) -> (res: Self) {
        BridgeError::Custom(val.clone())
    }
}

impl vstd::std_specs::convert::FromSpecImpl<&String> for BridgeError {
    open spec fn obeys_from_spec() -> bool {
        true
    }

    open spec fn from_spec(val: &String) -> Self {
        BridgeError::Custom(*val)
    }
}

impl From<&str> for BridgeError {
    fn from(val: &str) -> (res: Self)
        ensures
            res matches BridgeError::Custom(msg) && msg@ == val@,
    {
        BridgeError::Custom(String::from_str(val))
    }
}

impl vstd::std_specs::convert::FromSpecImpl<&str> for BridgeError {
    /// A `&str` has no owned text to name in a contract: `from` states its
    /// result by the view instead.
    open spec fn obeys_from_spec() -> bool {
        false
    }

    open spec fn from_spec(val: &str) -> Self {
        BridgeError::Custom(choose|msg: String| msg@ == val@)
    }
}

impl From<async_openai::error::OpenAIError> for BridgeError {
    fn from(val: async_openai::error::OpenAIError) -> (res: Self) {
        BridgeError::OpenAi(val)
    }
}

impl vstd::std_specs::convert::FromSpecImpl<async_openai::error::OpenAIError> for BridgeError {
    open spec fn obeys_from_spec() -> bool {
        true
    }

    open spec fn from_spec(val: async_openai::error::OpenAIError) -> Self {
        BridgeError::OpenAi(val)
    }
}

impl From<serde_json::Error> for BridgeError {
    fn from(val: serde_json::Error) -> (res: Self) {
        BridgeError::Json(val)
    }
}

impl vstd::std_specs::convert::FromSpecImpl<serde_json::Error> for BridgeError {
    open spec fn obeys_from_spec() -> bool {
        true
    }

    open spec fn from_spec(val: serde_json::Error) -> Self {
        BridgeError::Json(val)
    }
}

impl From<rpc_router::CallError> for BridgeError {
    fn from(val: rpc_router::CallError) -> (res: Self) {
        BridgeError::RpcCall(Box::new(val))
    }
}

impl vstd::std_specs::convert::FromSpecImpl<rpc_router::CallError> for BridgeError {
    open spec fn obeys_from_spec() -> bool {
        true
    }

    open spec fn from_spec(val: rpc_router::CallError) -> Self {
        BridgeError::RpcCall(Box::new(val))
    }
}

} // verus!
