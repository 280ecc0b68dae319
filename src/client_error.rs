use crate::error_code::{error_code_text, format_error_code, text_of};
use vstd::prelude::*;

verus! {

/// How one instruction of a transaction failed.
#[derive(Clone, Copy, Debug, PartialEq, Eq, Structural)]
pub enum InstructionError {
    /// The program returned its own numeric error code.
    Custom(u32),
    /// Any other instruction failure.
    Other,
}

/// How a transaction failed.
#[derive(Clone, Copy, Debug, PartialEq, Eq, Structural)]
pub enum TransactionError {
    /// The instruction at this index failed.
    InstructionError(u8, InstructionError),
    /// Any other transaction failure.
    Other,
}

/// The data that the node attached to an error response.
#[derive(Clone, Copy, Debug, PartialEq, Eq, Structural)]
pub enum RpcResponseErrorData {
    /// The transaction failed when the node simulated it before sending.
    SendTransactionPreflightFailure { err: Option<TransactionError> },
    /// Any other data.
    Other,
}

/// How a call to the node failed.
#[derive(Clone, Copy, Debug, PartialEq, Eq, Structural)]
pub enum ClientErrorKind {
    /// The node answered with an error response.
    RpcResponseError(RpcResponseErrorData),
    /// Transport failures and any other kind.
    Other,
}

/// Where a failure of the program client arose.
#[derive(Clone, Copy, Debug, PartialEq, Eq, Structural)]
pub enum ClientFailure {
    /// The call to the node failed.
    SolanaClientError(ClientErrorKind),
    /// Any other failure of the client.
    Other,
}

/// A failure of a program client call: its shape, as far as the custom error
/// code is concerned, and its own description.
#[derive(Clone, Debug)]
pub struct ClientError {
    pub failure: ClientFailure,
    pub description: String,
}

/// The custom code that a failure carries: only a transaction that failed in
/// simulation on one of its instructions with the program's own code has one.
pub open spec fn failure_code(f: ClientFailure) -> Option<u32> {
    match f {
        ClientFailure::SolanaClientError(
            ClientErrorKind::RpcResponseError(
                RpcResponseErrorData::SendTransactionPreflightFailure {
                    err: Some(TransactionError::InstructionError(_, InstructionError::Custom(code))),
                },
            ),
        ) => Some(code),
        _ => None,
    }
}

impl ClientError {
    /// The custom error code that this failure carries, if any.
    pub fn code(&self) -> (r: Option<u32>)
        ensures
            r == failure_code(self.failure),
    {
        match self.failure {
            ClientFailure::SolanaClientError(
                ClientErrorKind::RpcResponseError(
                    RpcResponseErrorData::SendTransactionPreflightFailure {
                        err: Some(TransactionError::InstructionError(_, InstructionError::Custom(code))),
                    },
                ),
            ) => Some(code),
            _ => None,
        }
    }

    /// Describes this failure: by its custom error code where it carries one
    /// (`application` being the calling application's message for that code,
    /// where it has one), else by its own description.
    pub fn canonicalize(&self, application: Option<String>) -> (r: String)
        ensures
            failure_code(self.failure) matches Some(c) ==> r@ == error_code_text(
                c,
                text_of(application),
            ),
            failure_code(self.failure) is None ==> r@ == self.description@,
    {
        match self.code() {
            Some(c) => format_error_code(c, application),
            None => self.description.clone(),
        }
    }
}

} // verus!
