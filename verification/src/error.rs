use vstd::prelude::*;

verus! {

/// Why an operation was refused. Every guard has a kind of its own, so a caller
/// can branch on the cause; an operation that returns one has changed nothing.
#[derive(Clone, Copy, Debug, PartialEq, Eq, Structural)]
pub enum ErrorCode {
    /// The caller lacks the capability the operation asks for.
    Unauthorized,
    /// The domain configuration exists already.
    AlreadyInitialized,
    /// The record has been authorized (or issued) before.
    AlreadyAuthorized,
    /// The record, or the token address, holds an issued credential already.
    AlreadyMinted,
    /// The credential has been revoked before.
    AlreadyRevoked,
    /// No issued credential stands behind the record.
    RecordNotFound,
    /// The operator set is full.
    MaxOperatorsReached,
    /// The key is an operator already.
    OperatorAlreadyExists,
    /// The key is no operator.
    OperatorNotFound,
    /// The payer cannot cover the amount.
    InsufficientBalance,
    /// The account offered as fee destination is not the configured one, or
    /// cannot take the amount.
    InvalidFeeRecipient,
    /// A size could not be computed for the requested record.
    InvalidAccountData,
    /// The planned sizes differ from those the token program expects.
    LayoutMismatch,
    /// A supplied address is not the one its seeds derive.
    InvalidAddress,
    /// A collaborator refused a call.
    ExternalCallFailed,
    /// A schema or credential name is empty.
    EmptySchemaName,
    /// The schema is not active.
    SchemaInactive,
    /// The program offered as attestation service is not the expected one.
    InvalidSasProgram,
    /// An expiry does not lie in the future.
    ExpirationInPast,
    /// The attestation payload is malformed.
    InvalidData,
}

} // verus!
