//! The messages of a conversation and the descriptors of the tools offered
//! in it.

use vstd::prelude::*;
use crate::call::{CallRequest, CallRequestView, CallResult, CallResultView, Outcome};
use crate::error::BridgeError;
use crate::json::{parse_json, parsed_json, Json, JsonView};
use crate::schema::ParamType;

verus! {

/// One call that the model asks for, as it stands in the model's response.
#[derive(Debug, PartialEq, Eq)]
pub enum ToolCall {
    /// A call of a function tool.
    Function {
        id: String,
        name: String,
        /// The arguments as JSON text.
        arguments: String,
    },
    /// A call of a custom tool. The bridge offers no custom tools: such a
    /// call is answered like any other call of a tool that is not
    /// registered.
    Custom {
        id: String,
        name: String,
        /// The input as free text.
        input: String,
    },
}

impl Clone for ToolCall {
    fn clone(&self) -> (copy: Self)
        ensures
            copy == *self,
    {
        match self {
            ToolCall::Function { id, name, arguments } => ToolCall::Function {
                id: id.clone(),
                name: name.clone(),
                arguments: arguments.clone(),
            },
            ToolCall::Custom { id, name, input } => ToolCall::Custom {
                id: id.clone(),
                name: name.clone(),
                input: input.clone(),
            },
        }
    }
}

/// A message of the conversation.
#[derive(Debug, PartialEq, Eq)]
pub enum ChatMessage {
    /// What the user said.
    User { content: String },
    /// The assistant's announcement of the calls that it asks for.
    ToolCalls { tool_calls: Vec<ToolCall> },
    /// The answer to the call with the given id.
    ToolResponse { tool_call_id: String, content: String },
}

/// One alternative of a model response.
#[derive(Debug, PartialEq, Eq)]
pub struct ChatChoice {
    pub index: u32,
    /// The text of the answer, where the model gave one.
    pub content: Option<String>,
    /// The calls that the model asks for; empty where it asks for none.
    pub tool_calls: Vec<ToolCall>,
}

/// A model response.
#[derive(Debug, PartialEq, Eq)]
pub struct ChatResponse {
    pub choices: Vec<ChatChoice>,
}

/// The declaration of a tool, as shown to the model.
#[derive(Debug, PartialEq, Eq)]
pub struct CapabilityDescriptor {
    pub name: String,
    pub description: String,
    pub parameter_schema: Json,
}

/// The mathematical model of a [`CapabilityDescriptor`].
pub struct CapabilityDescriptorView {
    pub name: Seq<char>,
    pub description: Seq<char>,
    pub parameter_schema: JsonView,
}

impl View for CapabilityDescriptor {
    type V = CapabilityDescriptorView;

    open spec fn view(&self) -> CapabilityDescriptorView {
        CapabilityDescriptorView {
            name: self.name@,
            description: self.description@,
            parameter_schema: self.parameter_schema@,
        }
    }
}

impl Clone for CapabilityDescriptor {
    fn clone(&self) -> (copy: Self)
        ensures
            copy@ == self@,
    {
        CapabilityDescriptor {
            name: self.name.clone(),
            description: self.description.clone(),
            parameter_schema: self.parameter_schema.clone(),
        }
    }
}

/// The descriptor that a parameter type gives rise to.
pub open spec fn descriptor_of(ty: ParamType) -> CapabilityDescriptorView {
    CapabilityDescriptorView {
        name: ty.name@,
        description: ty.description@,
        parameter_schema: ty.schema(),
    }
}

/// The message that carries what the user said.
pub fn user_msg(content: &str) -> (res: Result<ChatMessage, BridgeError>)
    ensures
        res matches Ok(ChatMessage::User { content: text }) && text@ == content@,
{
    Ok(ChatMessage::User { content: String::from_str(content) })
}

/// The message that answers the call `tool_call_id` with the text that
/// `content` displays as.
pub fn tool_response_msg<T: std::fmt::Display + ?Sized>(tool_call_id: String, content: &T) -> (res:
    Result<ChatMessage, BridgeError>)
    ensures
        res matches Ok(ChatMessage::ToolResponse { tool_call_id: id, content: text }) && id
            == tool_call_id && vstd::string::to_string_from_display_ensures::<T>(content, text),
{
    Ok(ChatMessage::ToolResponse { tool_call_id, content: content.to_string() })
}

/// The assistant message that announces `tool_calls`.
pub fn tool_calls_msg(tool_calls: Vec<ToolCall>) -> (res: Result<ChatMessage, BridgeError>)
    ensures
        res matches Ok(message) && message == (ChatMessage::ToolCalls { tool_calls }),
{
    Ok(ChatMessage::ToolCalls { tool_calls })
}

/// The descriptor of the tool `name` with the given description and schema.
pub fn tool_fn(name: &str, description: &str, parameters: Json) -> (res: Result<
    CapabilityDescriptor,
    BridgeError,
>)
    ensures
        res matches Ok(tool) && tool.name@ == name@ && tool.description@ == description@
            && tool.parameter_schema == parameters,
{
    Ok(
        CapabilityDescriptor {
            name: String::from_str(name),
            description: String::from_str(description),
            parameter_schema: parameters,
        },
    )
}

/// The descriptor of the tool whose parameters `ty` defines; the reason
/// where `ty` has no schema.
pub fn tool_fn_from_type(ty: &ParamType) -> (res: Result<CapabilityDescriptor, BridgeError>)
    ensures
        match res {
            Ok(tool) => ty.representable() && tool@ == descriptor_of(*ty),
            Err(e) => e matches BridgeError::Schema(fault) && ty.fault() == Some(fault),
        },
{
    match ty.build_schema() {
        Ok(schema) => tool_fn(ty.name.as_str(), ty.description.as_str(), schema),
        Err(fault) => Err(BridgeError::Schema(fault)),
    }
}

/// The first choice of a response.
pub fn first_choice(chat_response: ChatResponse) -> (res: Result<ChatChoice, BridgeError>)
    ensures
        match res {
            Ok(choice) => chat_response.choices@.len() > 0 && choice == chat_response.choices@[0],
            Err(e) => {
                &&& chat_response.choices@.len() == 0
                &&& e matches BridgeError::Custom(msg) && msg@ == "No first choice?"@
            },
        },
{
    let mut choices = chat_response.choices;
    if choices.len() == 0 {
        Err(BridgeError::from("No first choice?"))
    } else {
        Ok(choices.remove(0))
    }
}

/// The request that a call stands for. A call of a function tool stands
/// for a request with its arguments read as JSON, and for none where they
/// are no JSON; a call of a custom tool stands for a request with its
/// input as a text.
pub open spec fn request_of(call: ToolCall) -> Option<CallRequestView> {
    match call {
        ToolCall::Function { id, name, arguments } => match parsed_json(arguments@) {
            Some(read) => Some(CallRequestView { id: id@, name: name@, raw_arguments: read }),
            None => None,
        },
        ToolCall::Custom { id, name, input } => Some(
            CallRequestView { id: id@, name: name@, raw_arguments: JsonView::Text(input@) },
        ),
    }
}

/// The request that the call `id` of the tool `name` stands for, given what
/// reading its arguments gave: the request with these arguments, or the
/// reading's error.
pub fn call_request(id: &String, name: &String, parsed: Result<Json, serde_json::Error>) -> (res:
    Result<CallRequest, BridgeError>)
    ensures
        match parsed {
            Ok(arguments) => res matches Ok(request) && request.id@ == id@ && request.name@
                == name@ && request.raw_arguments == arguments,
            Err(error) => res matches Err(BridgeError::Json(e)) && e == error,
        },
{
    match parsed {
        Ok(arguments) => Ok(
            CallRequest { id: id.clone(), name: name.clone(), raw_arguments: arguments },
        ),
        Err(error) => Err(BridgeError::from(error)),
    }
}

/// The call requests of a choice, in the order of its calls: none where the
/// model asked for none. Fails where the arguments of some call of a
/// function tool are no JSON.
pub fn extract_calls(choice: &ChatChoice) -> (res: Result<Vec<CallRequest>, BridgeError>)
    ensures
        match res {
            Ok(requests) => {
                &&& requests@.len() == choice.tool_calls@.len()
                &&& forall|i: int|
                    0 <= i < requests@.len() ==> request_of(choice.tool_calls@[i]) == Some(
                        (#[trigger] requests@[i])@,
                    )
            },
            Err(e) => {
                &&& e is Json
                &&& exists|i: int|
                    0 <= i < choice.tool_calls@.len() && request_of(
                        #[trigger] choice.tool_calls@[i],
                    ) is None
            },
        },
{
    let mut requests: Vec<CallRequest> = Vec::new();
    let mut i: usize = 0;
    while i < choice.tool_calls.len()
        invariant
            i <= choice.tool_calls@.len(),
            requests@.len() == i,
            forall|k: int|
                0 <= k < i ==> request_of(choice.tool_calls@[k]) == Some((#[trigger] requests@[k])@),
        decreases choice.tool_calls.len() - i,
    {
        match &choice.tool_calls[i] {
            ToolCall::Function { id, name, arguments } => {
                match call_request(id, name, parse_json(arguments.as_str())) {
                    Ok(request) => {
                        requests.push(request);
                    },
                    Err(e) => {
                        assert(request_of(choice.tool_calls@[i as int]) is None);
                        return Err(e);
                    },
                }
            },
            ToolCall::Custom { id, name, input } => {
                requests.push(
                    CallRequest {
                        id: id.clone(),
                        name: name.clone(),
                        raw_arguments: Json::Text(input.clone()),
                    },
                );
            },
        }
        i += 1;
    }
    Ok(requests)
}

/// Whether `message` answers the call of `result`: it is a tool response
/// tagged with the result's id, and its content is the content of the
/// result's outcome.
pub open spec fn answers(message: ChatMessage, result: CallResultView) -> bool {
    message matches ChatMessage::ToolResponse { tool_call_id, content } && tool_call_id@
        == result.id && content@ == result.outcome.content()
}

/// The messages that answer a batch: one per result, in order, each tagged
/// with the id of its request and carrying the serialized value or the
/// description of the failure.
pub fn to_response_messages(results: &Vec<CallResult>) -> (messages: Vec<ChatMessage>)
    ensures
        messages@.len() == results@.len(),
        forall|i: int|
            0 <= i < results@.len() ==> answers(#[trigger] messages@[i], results@[i]@),
{
    let mut messages: Vec<ChatMessage> = Vec::new();
    let mut i: usize = 0;
    while i < results.len()
        invariant
            i <= results@.len(),
            messages@.len() == i,
            forall|k: int| 0 <= k < i ==> answers(#[trigger] messages@[k], results@[k]@),
        decreases results.len() - i,
    {
        let result = &results[i];
        let content = match &result.outcome {
            Outcome::Success(value) => value.clone(),
            Outcome::Failure(description) => description.clone(),
        };
        messages.push(ChatMessage::ToolResponse { tool_call_id: result.id.clone(), content });
        i += 1;
    }
    messages
}

} // verus!
