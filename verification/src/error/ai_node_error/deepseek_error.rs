//! Errors of the DeepSeek client.

use vstd::prelude::*;

verus! {

/// The kinds of error that the DeepSeek client reports.
#[derive(Debug, Clone, Copy, PartialEq, Eq, Structural)]
pub enum DeepSeekErrorType {
    /// The parameters of the client are not valid: nothing was sent.
    RequestParamError,
    /// The request could not be sent, or the service did not answer it with
    /// a success status and a body that is JSON.
    RequestError,
    /// The source of the API key is missing or cannot be read.
    ApiKeyError,
    /// The service answered, but its answer lacks the message or the usage
    /// statistics.
    ResponseError,
}

impl DeepSeekErrorType {
    /// The name of the kind, as it is displayed.
    pub open spec fn label(self) -> Seq<char> {
        match self {
            DeepSeekErrorType::RequestParamError => "RequestParamError"@,
            DeepSeekErrorType::RequestError => "RequestError"@,
            DeepSeekErrorType::ApiKeyError => "ApiKeyError"@,
            DeepSeekErrorType::ResponseError => "ResponseError"@,
        }
    }
}

/// What a [`DeepSeekError`] holds.
pub struct DeepSeekErrorView {
    pub error_type: DeepSeekErrorType,
    pub message: Seq<char>,
}

impl DeepSeekErrorView {
    /// The text that the error displays: the name of its kind, a colon and a
    /// space, and its message.
    pub open spec fn display(self) -> Seq<char> {
        self.error_type.label() + ": "@ + self.message
    }
}

/// An error of the DeepSeek client: its kind and a message.
#[derive(Debug)]
pub struct DeepSeekError {
    error_type: DeepSeekErrorType,
    message: String,
}

impl View for DeepSeekError {
    type V = DeepSeekErrorView;

    closed spec fn view(&self) -> DeepSeekErrorView {
        DeepSeekErrorView { error_type: self.error_type, message: self.message@ }
    }
}

impl DeepSeekError {
    /// An error of the given kind with the given message.
    pub fn new(error_type: DeepSeekErrorType, message: String) -> (error: DeepSeekError)
        ensures
            error@ == (DeepSeekErrorView { error_type, message: message@ }),
    {
        DeepSeekError { error_type, message }
    }

    /// The kind of the error.
    pub fn error_type(&self) -> (kind: DeepSeekErrorType)
        ensures
            kind == self@.error_type,
    {
        self.error_type
    }

    /// The message of the error.
    pub fn message(&self) -> (message: &String)
        ensures
            message@ == self@.message,
    {
        &self.message
    }

    /// The text that the error displays.
    pub fn to_string(&self) -> (text: String)
        ensures
            text@ == self@.display(),
    {
        let label = match self.error_type {
            DeepSeekErrorType::RequestParamError => "RequestParamError",
            DeepSeekErrorType::RequestError => "RequestError",
            DeepSeekErrorType::ApiKeyError => "ApiKeyError",
            DeepSeekErrorType::ResponseError => "ResponseError",
        };
        let mut text = String::from_str(label);
        text.append(": ");
        text.append(self.message.as_str());
        text
    }
}

pub type DeepSeekResult<T> = Result<T, DeepSeekError>;

} // verus!
