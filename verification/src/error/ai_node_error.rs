//! Errors of the AI node.

pub mod deepseek_error;

use crate::error::ai_node_error::deepseek_error::{DeepSeekError, DeepSeekErrorView};
use vstd::prelude::*;

verus! {

/// The causes of an error of the AI node.
#[derive(Debug)]
pub enum AINodeErrorType {
    /// The DeepSeek client failed.
    DeepSeekError(DeepSeekError),
}

/// What an [`AINodeErrorType`] holds.
pub enum AINodeErrorTypeView {
    DeepSeekError(DeepSeekErrorView),
}

impl View for AINodeErrorType {
    type V = AINodeErrorTypeView;

    open spec fn view(&self) -> AINodeErrorTypeView {
        match self {
            AINodeErrorType::DeepSeekError(cause) => AINodeErrorTypeView::DeepSeekError(cause@),
        }
    }
}

/// What an [`AINodeError`] holds.
pub struct AINodeErrorView {
    pub error_type: AINodeErrorTypeView,
    pub message: Seq<char>,
}

impl AINodeErrorView {
    /// The text that the error displays: the name of the failing part, the
    /// message, and on a new line what the cause displays.
    pub open spec fn display(self) -> Seq<char> {
        match self.error_type {
            AINodeErrorTypeView::DeepSeekError(cause) => "DeepSeekError: "@ + self.message + "\n"@
                + cause.display(),
        }
    }
}

/// An error of the AI node: its cause and a message that says what failed.
#[derive(Debug)]
pub struct AINodeError {
    error_type: AINodeErrorType,
    message: String,
}

impl View for AINodeError {
    type V = AINodeErrorView;

    closed spec fn view(&self) -> AINodeErrorView {
        AINodeErrorView { error_type: self.error_type@, message: self.message@ }
    }
}

impl AINodeError {
    /// An error with the given cause and message.
    pub fn new(error_type: AINodeErrorType, message: String) -> (error: AINodeError)
        ensures
            error@ == (AINodeErrorView { error_type: error_type@, message: message@ }),
    {
        AINodeError { error_type, message }
    }

    /// The cause of the error.
    pub fn error_type(&self) -> (cause: &AINodeErrorType)
        ensures
            cause@ == self@.error_type,
    {
        &self.error_type
    }

    /// The message of the error.
    pub fn message(&self) -> (message: &String)
        ensures
            message@ == self@.message,
    {
        &self.message
    }

    /// The text that the error displays.
    pub fn to_string(&self) -> (text: String)
        ensures
            text@ == self@.display(),
    {
        match &self.error_type {
            AINodeErrorType::DeepSeekError(cause) => {
                let mut text = String::from_str("DeepSeekError: ");
                text.append(self.message.as_str());
                text.append("\n");
                let tail = cause.to_string();
                text.append(tail.as_str());
                text
            },
        }
    }
}

pub type AINodeResult<T> = Result<T, AINodeError>;

} // verus!
