use presence_lsp::error::{to_jsonrpc_err, ProtocolError};
use tower_lsp::jsonrpc::ErrorCode;

#[test]
fn a_success_passes_through() {
    let r: Result<u32, ProtocolError> = to_jsonrpc_err(Ok(5));
    assert_eq!(r, Ok(5));
    let r: Result<(), ProtocolError> = to_jsonrpc_err(Ok(()));
    assert_eq!(r, Ok(()));
}

#[test]
fn a_failure_becomes_an_internal_error() {
    let r: Result<(), ProtocolError> = to_jsonrpc_err(Err("connection refused".to_string()));
    assert_eq!(
        r,
        Err(ProtocolError {
            code: -32603,
            message: "Internal error: connection refused".to_string(),
        })
    );
}

#[test]
fn an_internal_error_with_an_empty_cause() {
    let error = ProtocolError::internal("");
    assert_eq!(error.code, -32603);
    assert_eq!(error.message, "Internal error: ");
}

#[test]
fn the_error_is_the_protocol_s_internal_error() {
    let error = ProtocolError::internal("broken pipe");
    assert_eq!(ErrorCode::from(error.code), ErrorCode::InternalError);
    assert_eq!(error.code, ErrorCode::InternalError.code());
    assert_eq!(
        error.message,
        format!("{}: broken pipe", ErrorCode::InternalError.description())
    );
}
