//! A bridge between a conversational model and local tools.
//!
//! A tool declares its parameters as a [`schema::ParamType`]. The bridge
//! turns the declaration into the descriptor that tells the model how to
//! call the tool ([`chat::tool_fn_from_type`]), keeps the declarations of
//! all tools in a registry with one entry per name ([`ai_tools::AiTools`]),
//! reads the calls that a model response asks for
//! ([`chat::extract_calls`]), settles each call against the registry
//! ([`dispatch::Dispatch`], [`dispatch::dispatch`]) and turns the results
//! into the messages that continue the conversation
//! ([`chat::to_response_messages`]).
//!
//! A call that names no tool, whose arguments do not fit, or whose handler
//! fails, ends as a failure among the results; it never ends the batch.
//! There is one result per request, in the order of the requests, whatever
//! the order in which the handlers reply.
//!
//! Handlers run outside of this crate. The registry carries the
//! `rpc_router::Router` that holds them; whoever drives a dispatch calls
//! the router for each pending request and reports what came back.

pub mod ai_tools;
pub mod arguments;
pub mod call;
pub mod chat;
pub mod dispatch;
pub mod error;
pub mod gpts;
pub mod json;
pub mod reply;
pub mod schema;
pub mod weather;
