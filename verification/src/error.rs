//! Errors that the library reports.

use vstd::prelude::*;

verus! {

/// KeyMint HAL error codes.
#[derive(Clone, Copy, Debug, PartialEq, Eq, Structural)]
pub enum ErrorCode {
    /// Attestation identifiers cannot be provided.
    CannotAttestIds,
    /// Any other failure.
    UnknownError,
}

/// `IRemotelyProvisionedComponent` error codes.
#[derive(Clone, Copy, Debug, PartialEq, Eq, Structural)]
pub enum RpcErrorCode {
    /// The operation failed.
    Failed,
}

/// Failures in producing CBOR data.
#[derive(Clone, Copy, Debug, PartialEq, Eq, Structural)]
pub enum CborError {
    /// A value could not be written.
    EncodeFailed,
    /// A COSE object holds the same label twice.
    DuplicateMapKey,
}

/// An error together with the message that explains it.
#[derive(Debug)]
pub enum Error {
    /// CBOR processing failed.
    Cbor(CborError),
    /// A KeyMint HAL operation failed.
    Hal(ErrorCode, String),
    /// An `IRemotelyProvisionedComponent` operation failed.
    Rpc(RpcErrorCode, String),
    /// The device's key derivation or cryptography failed, and keeps the details.
    Device,
}

impl Error {
    /// This is the HAL error `code`, explained by `message`.
    pub open spec fn is_hal(self, code: ErrorCode, message: Seq<char>) -> bool {
        self matches Error::Hal(c, m) && c == code && m@ == message
    }

    /// This is the RPC error `code`, explained by `message`.
    pub open spec fn is_rpc(self, code: RpcErrorCode, message: Seq<char>) -> bool {
        self matches Error::Rpc(c, m) && c == code && m@ == message
    }
}

} // verus!
