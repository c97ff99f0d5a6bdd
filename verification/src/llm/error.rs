//! The errors of a chat run.

use crate::json::error_message;
use vstd::prelude::*;
use vstd::string::StringExecFns;

verus! {

/// Why a chat run was given up. Each variant carries a description.
#[derive(Debug)]
pub enum LLMError {
    /// The connection to the provider failed, or its event stream broke off.
    TransportError(String),
    /// JSON text could not be read or written.
    DecodeError(String),
    /// The model asked for a tool that is not registered; carries the tool's name.
    ToolNotFound(String),
    /// A tool refused the arguments that the model gave it.
    ToolInputError(String),
    /// A message could not be published.
    ChannelError(String),
}

/// `LLMError` as contracts see it.
pub enum LLMErrorView {
    TransportError(Seq<char>),
    DecodeError(Seq<char>),
    ToolNotFound(Seq<char>),
    ToolInputError(Seq<char>),
    ChannelError(Seq<char>),
}

impl View for LLMError {
    type V = LLMErrorView;

    open spec fn view(&self) -> LLMErrorView {
        match self {
            LLMError::TransportError(detail) => LLMErrorView::TransportError(detail@),
            LLMError::DecodeError(detail) => LLMErrorView::DecodeError(detail@),
            LLMError::ToolNotFound(name) => LLMErrorView::ToolNotFound(name@),
            LLMError::ToolInputError(detail) => LLMErrorView::ToolInputError(detail@),
            LLMError::ChannelError(detail) => LLMErrorView::ChannelError(detail@),
        }
    }
}

impl LLMErrorView {
    /// The text that the variant carries.
    pub open spec fn detail(self) -> Seq<char> {
        match self {
            LLMErrorView::TransportError(detail) => detail,
            LLMErrorView::DecodeError(detail) => detail,
            LLMErrorView::ToolNotFound(name) => name,
            LLMErrorView::ToolInputError(detail) => detail,
            LLMErrorView::ChannelError(detail) => detail,
        }
    }

    /// The words that open the description of the variant.
    pub open spec fn heading(self) -> Seq<char> {
        match self {
            LLMErrorView::TransportError(_) => "LLMError Transport: "@,
            LLMErrorView::DecodeError(_) => "LLMError Decode: "@,
            LLMErrorView::ToolNotFound(_) => "LLMError ToolNotFound: "@,
            LLMErrorView::ToolInputError(_) => "LLMError ToolInput: "@,
            LLMErrorView::ChannelError(_) => "LLMError Channel: "@,
        }
    }
}

impl Clone for LLMError {
    fn clone(&self) -> (r: Self)
        ensures
            r == *self,
    {
        match self {
            LLMError::TransportError(detail) => LLMError::TransportError(detail.clone()),
            LLMError::DecodeError(detail) => LLMError::DecodeError(detail.clone()),
            LLMError::ToolNotFound(name) => LLMError::ToolNotFound(name.clone()),
            LLMError::ToolInputError(detail) => LLMError::ToolInputError(detail.clone()),
            LLMError::ChannelError(detail) => LLMError::ChannelError(detail.clone()),
        }
    }
}

impl LLMError {
    /// The description of the error: the heading of its variant, then its detail.
    pub fn to_string(&self) -> (r: String)
        ensures
            r@ == self@.heading() + self@.detail(),
    {
        let (heading, detail) = match self {
            LLMError::TransportError(detail) => ("LLMError Transport: ", detail),
            LLMError::DecodeError(detail) => ("LLMError Decode: ", detail),
            LLMError::ToolNotFound(name) => ("LLMError ToolNotFound: ", name),
            LLMError::ToolInputError(detail) => ("LLMError ToolInput: ", detail),
            LLMError::ChannelError(detail) => ("LLMError Channel: ", detail),
        };
        let mut text = heading.to_string();
        text.append(detail.as_str());
        text
    }
}

impl From<serde_json::Error> for LLMError {
    /// A failure of the JSON codec is a `DecodeError`.
    fn from(error: serde_json::Error) -> (r: Self)
        ensures
            r is DecodeError,
    {
        LLMError::DecodeError(error_message(&error))
    }
}

impl vstd::std_specs::convert::FromSpecImpl<serde_json::Error> for LLMError {
    /// The description is whatever the codec wrote; only the variant is fixed.
    open spec fn obeys_from_spec() -> bool {
        false
    }

    open spec fn from_spec(v: serde_json::Error) -> LLMError {
        arbitrary()
    }
}

/// The result of a step of a chat run.
pub type LLMResult<T> = Result<T, LLMError>;

} // verus!
