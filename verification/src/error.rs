//! Errors, in layers: the root error wraps the error of a node, which wraps
//! the error of the service that the node called. Each layer adds a message
//! and keeps its cause.

pub mod ai_node_error;

use crate::error::ai_node_error::{AINodeError, AINodeErrorView};
use vstd::prelude::*;

verus! {

/// The causes of a root error.
#[derive(Debug)]
pub enum PilotErrorType {
    /// An AI node failed.
    AINodeErr(AINodeError),
}

/// What a [`PilotErrorType`] holds.
pub enum PilotErrorTypeView {
    AINodeErr(AINodeErrorView),
}

impl View for PilotErrorType {
    type V = PilotErrorTypeView;

    open spec fn view(&self) -> PilotErrorTypeView {
        match self {
            PilotErrorType::AINodeErr(cause) => PilotErrorTypeView::AINodeErr(cause@),
        }
    }
}

/// What a [`PilotError`] holds.
pub struct PilotErrorView {
    pub error_type: PilotErrorTypeView,
    pub message: Seq<char>,
}

impl PilotErrorView {
    /// The text that the error displays: the name of the failing part, the
    /// message, and on a new line what the cause displays.
    pub open spec fn display(self) -> Seq<char> {
        match self.error_type {
            PilotErrorTypeView::AINodeErr(cause) => "AINodeError: "@ + self.message + "\n"@
                + cause.display(),
        }
    }
}

/// The root of all errors: its cause and a message that says what failed.
#[derive(Debug)]
pub struct PilotError {
    error_type: PilotErrorType,
    message: String,
}

impl View for PilotError {
    type V = PilotErrorView;

    closed spec fn view(&self) -> PilotErrorView {
        PilotErrorView { error_type: self.error_type@, message: self.message@ }
    }
}

impl PilotError {
    /// An error with the given cause and message.
    pub fn new(error_type: PilotErrorType, message: String) -> (error: PilotError)
        ensures
            error@ == (PilotErrorView { error_type: error_type@, message: message@ }),
    {
        PilotError { error_type, message }
    }

    /// The cause of the error.
    pub fn error_type(&self) -> (cause: &PilotErrorType)
        ensures
            cause@ == self@.error_type,
    {
        &self.error_type
    }

    /// The message of the error.
    pub fn message(&self) -> (message: &String)
        ensures
            message@ == self@.message,
    {
        &self.message
    }

    /// The text that the error displays.
    pub fn to_string(&self) -> (text: String)
        ensures
            text@ == self@.display(),
    {
        match &self.error_type {
            PilotErrorType::AINodeErr(cause) => {
                let mut text = String::from_str("AINodeError: ");
                text.append(self.message.as_str());
                text.append("\n");
                let tail = cause.to_string();
                text.append(tail.as_str());
                text
            },
        }
    }
}

pub type PilotResult<T> = Result<T, PilotError>;

} // verus!
