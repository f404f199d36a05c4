//! Call requests and their results.

use vstd::prelude::*;
use crate::json::{Json, JsonView};

verus! {

/// A model-issued instruction to invoke a named tool.
#[derive(Debug, PartialEq, Eq)]
pub struct CallRequest {
    /// The token that ties the result to this request.
    pub id: String,
    pub name: String,
    pub raw_arguments: Json,
}

/// The mathematical model of a [`CallRequest`].
pub struct CallRequestView {
    pub id: Seq<char>,
    pub name: Seq<char>,
    pub raw_arguments: JsonView,
}

impl View for CallRequest {
    type V = CallRequestView;

    open spec fn view(&self) -> CallRequestView {
        CallRequestView { id: self.id@, name: self.name@, raw_arguments: self.raw_arguments@ }
    }
}

/// How one call ended.
#[derive(Debug, PartialEq, Eq)]
pub enum Outcome {
    /// The handler's value, serialized.
    Success(String),
    /// A description of what went wrong.
    Failure(String),
}

/// The mathematical model of an [`Outcome`].
pub enum OutcomeView {
    Success(Seq<char>),
    Failure(Seq<char>),
}

impl View for Outcome {
    type V = OutcomeView;

    open spec fn view(&self) -> OutcomeView {
        match self {
            Outcome::Success(value) => OutcomeView::Success(value@),
            Outcome::Failure(description) => OutcomeView::Failure(description@),
        }
    }
}

impl OutcomeView {
    /// The text that answers the call: the serialized value, or the
    /// description of the failure. Failures of every kind read alike; the
    /// description alone tells them apart.
    pub open spec fn content(self) -> Seq<char> {
        match self {
            OutcomeView::Success(value) => value,
            OutcomeView::Failure(description) => description,
        }
    }
}

impl Clone for Outcome {
    fn clone(&self) -> (copy: Self)
        ensures
            copy@ == self@,
    {
        match self {
            Outcome::Success(value) => Outcome::Success(value.clone()),
            Outcome::Failure(description) => Outcome::Failure(description.clone()),
        }
    }
}

/// The result of one call request.
#[derive(Debug, PartialEq, Eq)]
pub struct CallResult {
    /// The token of the request that this result answers.
    pub id: String,
    pub outcome: Outcome,
}

/// The mathematical model of a [`CallResult`].
pub struct CallResultView {
    pub id: Seq<char>,
    pub outcome: OutcomeView,
}

impl View for CallResult {
    type V = CallResultView;

    open spec fn view(&self) -> CallResultView {
        CallResultView { id: self.id@, outcome: self.outcome@ }
    }
}

} // verus!
