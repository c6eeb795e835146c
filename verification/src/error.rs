//! Failures of the presence service, as the editor is told of them.

use vstd::prelude::*;
use vstd::string::*;

verus! {

/// An error in the shape of the request protocol: a number and a message.
#[derive(Clone, Debug, PartialEq, Eq)]
pub struct ProtocolError {
    pub code: i64,
    pub message: String,
}

/// The mathematical content of a [`ProtocolError`].
pub struct ProtocolErrorView {
    pub code: i64,
    pub message: Seq<char>,
}

impl View for ProtocolError {
    type V = ProtocolErrorView;

    open spec fn view(&self) -> ProtocolErrorView {
        ProtocolErrorView { code: self.code, message: self.message@ }
    }
}

/// The internal error that reports `cause`: the protocol's number for
/// internal errors, and its description of them followed by the cause.
pub open spec fn internal_error(cause: Seq<char>) -> ProtocolErrorView {
    ProtocolErrorView { code: -32603i64, message: "Internal error"@ + ": "@ + cause }
}

/// Calls `tower_lsp::jsonrpc::ErrorCode::code` on `ErrorCode::InternalError`.
/// Trusted: that the number is -32603, as the method's table has it.
#[verifier::external_body]
fn internal_error_code() -> (r: i64)
    ensures
        r == -32603,
{
    tower_lsp::jsonrpc::ErrorCode::InternalError.code()
}

/// Calls `tower_lsp::jsonrpc::ErrorCode::description` on
/// `ErrorCode::InternalError`. Trusted: that the text is `Internal error`,
/// as the method's table has it.
#[verifier::external_body]
fn internal_error_description() -> (r: String)
    ensures
        r@ == "Internal error"@,
{
    tower_lsp::jsonrpc::ErrorCode::InternalError.description().to_string()
}

impl ProtocolError {
    /// The internal error that reports `cause`.
    pub fn internal(cause: &str) -> (r: ProtocolError)
        ensures
            r@ == internal_error(cause@),
    {
        let message = internal_error_description().concat(": ").concat(cause);
        ProtocolError { code: internal_error_code(), message }
    }
}

/// Passes a success through and turns a failure, given by its text, into
/// the internal error that reports it.
pub fn to_jsonrpc_err<T>(result: Result<T, String>) -> (r: Result<T, ProtocolError>)
    ensures
        match result {
            Ok(value) => r == Ok::<T, ProtocolError>(value),
            Err(cause) => r is Err && r->Err_0@ == internal_error(cause@),
        },
{
    match result {
        Ok(value) => Ok(value),
        Err(cause) => Err(ProtocolError::internal(cause.as_str())),
    }
}

} // verus!
