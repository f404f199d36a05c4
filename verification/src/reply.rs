//! What comes of invoking a handler, and what it means for the call.

use vstd::prelude::*;
use crate::call::{Outcome, OutcomeView};

verus! {

/// What came of invoking a handler.
#[derive(Debug, PartialEq, Eq)]
pub enum HandlerReply {
    /// The handler's value, serialized.
    Value(String),
    /// The handler could not read its parameters from the arguments.
    ArgumentError(String),
    /// The handler declared an error.
    HandlerError(String),
    /// No handler was found under the name.
    UnknownMethod,
    /// The invocation failed in some other way.
    Fault(String),
    /// The invocation was abandoned.
    Cancelled,
}

/// The mathematical model of a [`HandlerReply`].
pub enum HandlerReplyView {
    Value(Seq<char>),
    ArgumentError(Seq<char>),
    HandlerError(Seq<char>),
    UnknownMethod,
    Fault(Seq<char>),
    Cancelled,
}

impl View for HandlerReply {
    type V = HandlerReplyView;

    open spec fn view(&self) -> HandlerReplyView {
        match self {
            HandlerReply::Value(value) => HandlerReplyView::Value(value@),
            HandlerReply::ArgumentError(description) => HandlerReplyView::ArgumentError(
                description@,
            ),
            HandlerReply::HandlerError(description) => HandlerReplyView::HandlerError(description@),
            HandlerReply::UnknownMethod => HandlerReplyView::UnknownMethod,
            HandlerReply::Fault(description) => HandlerReplyView::Fault(description@),
            HandlerReply::Cancelled => HandlerReplyView::Cancelled,
        }
    }
}

/// `rpc_router::CallResponse`, carried as an opaque value.
#[verifier::external_type_specification]
#[verifier::external_body]
pub struct ExCallResponse(rpc_router::CallResponse);

/// The ways in which a call through the router fails.
#[derive(Debug, PartialEq, Eq, Clone, Copy)]
pub enum CallFault {
    /// The handler could not read its parameters from the arguments.
    ParamsParsing,
    /// The handler takes parameters and was given none.
    ParamsMissing,
    /// The router has no handler under the name.
    MethodUnknown,
    /// The handler asked for something that the router does not hold.
    FromResources,
    /// The handler's value could not be serialized.
    ResultSerialize,
    /// The handler declared an error.
    Handler,
}

/// The text that the value of a `rpc_router::CallResponse` displays as: the
/// value as compact JSON.
pub uninterp spec fn response_text_of(response: rpc_router::CallResponse) -> Seq<char>;

/// Which variant the `rpc_router::Error` of a failed call is.
pub uninterp spec fn fault_kind_of(failed: rpc_router::CallError) -> CallFault;

/// The message that the handler of a failed call declared: the text that
/// `HandlerError::get` finds in a handler's error, and `None` where the
/// call failed otherwise or the handler's error is no text.
pub uninterp spec fn declared_message_of(failed: rpc_router::CallError) -> Option<Seq<char>>;

/// Tells the variants of the `rpc_router::Error` of a failed call apart, one
/// for one: the result is `fault_kind_of` the call.
#[verifier::external_body]
fn call_fault(failed: &rpc_router::CallError) -> (fault: CallFault)
    ensures
        fault == fault_kind_of(*failed),
{
    match failed.error {
        rpc_router::Error::ParamsParsing(_) => CallFault::ParamsParsing,
        rpc_router::Error::ParamsMissingButRequested => CallFault::ParamsMissing,
        rpc_router::Error::MethodUnknown => CallFault::MethodUnknown,
        rpc_router::Error::FromResources(_) => CallFault::FromResources,
        rpc_router::Error::HandlerResultSerialize(_) => CallFault::ResultSerialize,
        rpc_router::Error::Handler(_) => CallFault::Handler,
    }
}

/// The text that the `rpc_router::Error` of a failed call displays as. The
/// error displays as its `Debug` rendering, whose wording is not fixed:
/// nothing is said of the text.
#[verifier::external_body]
fn call_fault_text(failed: &rpc_router::CallError) -> String {
    failed.error.to_string()
}

/// Calls `HandlerError::get` for a `String` on the handler's error of a
/// failed call: the result is `declared_message_of` the call.
#[verifier::external_body]
fn declared_message(failed: &rpc_router::CallError) -> (declared: Option<String>)
    ensures
        match declared {
            Some(message) => declared_message_of(*failed) == Some(message@),
            None => declared_message_of(*failed) is None,
        },
{
    match &failed.error {
        rpc_router::Error::Handler(declared) => declared.get::<String>().cloned(),
        _ => None,
    }
}

/// Calls `to_string` on the value of a `rpc_router::CallResponse`: the
/// result is `response_text_of` the response.
#[verifier::external_body]
fn response_text(response: &rpc_router::CallResponse) -> (text: String)
    ensures
        text@ == response_text_of(*response),
{
    response.value.to_string()
}

/// The reply that a failed call stands for: a fault in reading the
/// parameters is an argument error, a missing handler an unknown method,
/// a handler's error carries the handler's message where it declared one
/// as a text and the error's own text where it did not, and every other
/// fault carries its text.
pub open spec fn fault_reply(fault: CallFault, text: Seq<char>, declared: Option<Seq<char>>) -> HandlerReplyView {
    match fault {
        CallFault::ParamsParsing => HandlerReplyView::ArgumentError(text),
        CallFault::ParamsMissing => HandlerReplyView::ArgumentError(text),
        CallFault::MethodUnknown => HandlerReplyView::UnknownMethod,
        CallFault::FromResources => HandlerReplyView::Fault(text),
        CallFault::ResultSerialize => HandlerReplyView::Fault(text),
        CallFault::Handler => match declared {
            Some(message) => HandlerReplyView::HandlerError(message),
            None => HandlerReplyView::HandlerError(text),
        },
    }
}

/// The text of a message, where there is one.
pub open spec fn message_text(declared: Option<String>) -> Option<Seq<char>> {
    match declared {
        Some(message) => Some(message@),
        None => None,
    }
}

/// The reply that the router's answer `call` stands for, where `text` is
/// the text that the error of a failed call displays as: the value of a
/// response as it displays, or the reply of the fault of a failed call.
pub open spec fn call_reply(
    call: Result<rpc_router::CallResponse, rpc_router::CallError>,
    text: Seq<char>,
) -> HandlerReplyView {
    match call {
        Ok(response) => HandlerReplyView::Value(response_text_of(response)),
        Err(failed) => fault_reply(fault_kind_of(failed), text, declared_message_of(failed)),
    }
}

/// The reply that a failed call stands for.
pub fn reply_of_fault(fault: CallFault, text: String, declared: Option<String>) -> (reply:
    HandlerReply)
    ensures
        reply@ == fault_reply(fault, text@, message_text(declared)),
{
    match fault {
        CallFault::ParamsParsing => HandlerReply::ArgumentError(text),
        CallFault::ParamsMissing => HandlerReply::ArgumentError(text),
        CallFault::MethodUnknown => HandlerReply::UnknownMethod,
        CallFault::FromResources => HandlerReply::Fault(text),
        CallFault::ResultSerialize => HandlerReply::Fault(text),
        CallFault::Handler => match declared {
            Some(message) => HandlerReply::HandlerError(message),
            None => HandlerReply::HandlerError(text),
        },
    }
}

/// The reply that the router's answer to a call stands for. A response
/// gives its value as it displays. A failed call gives the reply of its
/// fault, with the handler's declared message where there is one; the one
/// thing left open is the text that the call's error displays as.
pub fn reply_of_call(call: Result<rpc_router::CallResponse, rpc_router::CallError>) -> (reply:
    HandlerReply)
    ensures
        match call {
            Ok(response) => reply@ == HandlerReplyView::Value(response_text_of(response)),
            Err(failed) => exists|text: Seq<char>|
                reply@ == #[trigger] fault_reply(
                    fault_kind_of(failed),
                    text,
                    declared_message_of(failed),
                ),
        },
{
    match call {
        Ok(response) => HandlerReply::Value(response_text(&response)),
        Err(failed) => {
            let fault = call_fault(&failed);
            let text = call_fault_text(&failed);
            let declared = declared_message(&failed);
            reply_of_fault(fault, text, declared)
        },
    }
}

/// The description of a call to a tool that is not registered.
pub open spec fn unknown_tool(name: Seq<char>) -> Seq<char> {
    "unknown tool: "@ + name
}

/// The description of a call that was abandoned.
pub open spec fn cancelled() -> Seq<char> {
    "cancelled"@
}

/// The outcome of the call to `name` whose handler gave `reply`: a value
/// is a success, everything else a failure with its description.
pub open spec fn reply_outcome(name: Seq<char>, reply: HandlerReplyView) -> OutcomeView {
    match reply {
        HandlerReplyView::Value(value) => OutcomeView::Success(value),
        HandlerReplyView::ArgumentError(description) => OutcomeView::Failure(description),
        HandlerReplyView::HandlerError(description) => OutcomeView::Failure(description),
        HandlerReplyView::UnknownMethod => OutcomeView::Failure(unknown_tool(name)),
        HandlerReplyView::Fault(description) => OutcomeView::Failure(description),
        HandlerReplyView::Cancelled => OutcomeView::Failure(cancelled()),
    }
}

/// The outcome of the call to `name` whose handler gave `reply`.
pub fn outcome_of(name: &str, reply: HandlerReply) -> (outcome: Outcome)
    ensures
        outcome@ == reply_outcome(name@, reply@),
{
    match reply {
        HandlerReply::Value(value) => Outcome::Success(value),
        HandlerReply::ArgumentError(description) => Outcome::Failure(description),
        HandlerReply::HandlerError(description) => Outcome::Failure(description),
        HandlerReply::UnknownMethod => Outcome::Failure(
            String::from_str("unknown tool: ").concat(name),
        ),
        HandlerReply::Fault(description) => Outcome::Failure(description),
        HandlerReply::Cancelled => Outcome::Failure(String::from_str("cancelled")),
    }
}

} // verus!
