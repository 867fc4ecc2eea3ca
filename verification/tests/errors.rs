use pilot::error::ai_node_error::deepseek_error::{DeepSeekError, DeepSeekErrorType};
use pilot::error::ai_node_error::{AINodeError, AINodeErrorType};
use pilot::error::{PilotError, PilotErrorType};

#[test]
fn deepseek_error_displays_kind_and_message() {
    let error = DeepSeekError::new(DeepSeekErrorType::RequestParamError, "bad".to_string());
    assert_eq!(error.error_type(), DeepSeekErrorType::RequestParamError);
    assert_eq!(error.message(), "bad");
    assert_eq!(error.to_string(), "RequestParamError: bad");
    assert_eq!(
        DeepSeekError::new(DeepSeekErrorType::RequestError, "no route".to_string()).to_string(),
        "RequestError: no route"
    );
    assert_eq!(
        DeepSeekError::new(DeepSeekErrorType::ApiKeyError, "Can't read the api key file.".to_string())
            .to_string(),
        "ApiKeyError: Can't read the api key file."
    );
    assert_eq!(
        DeepSeekError::new(DeepSeekErrorType::ResponseError, String::new()).to_string(),
        "ResponseError: "
    );
}

#[test]
fn errors_display_their_causes_line_by_line() {
    let cause = DeepSeekError::new(DeepSeekErrorType::ApiKeyError, "no key".to_string());
    let middle = AINodeError::new(AINodeErrorType::DeepSeekError(cause), "node".to_string());
    assert_eq!(middle.message(), "node");
    match middle.error_type() {
        AINodeErrorType::DeepSeekError(cause) => assert_eq!(cause.message(), "no key"),
    }
    assert_eq!(middle.to_string(), "DeepSeekError: node\nApiKeyError: no key");
    let root = PilotError::new(PilotErrorType::AINodeErr(middle), "root".to_string());
    assert_eq!(root.message(), "root");
    match root.error_type() {
        PilotErrorType::AINodeErr(cause) => assert_eq!(cause.message(), "node"),
    }
    assert_eq!(
        root.to_string(),
        "AINodeError: root\nDeepSeekError: node\nApiKeyError: no key"
    );
}
