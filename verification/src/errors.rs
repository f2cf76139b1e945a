//! The engine's error taxonomy: request-shape errors, protocol precheck
//! errors, revert and halt outcomes, unknown blocks and signature-recovery
//! failures.

use vstd::prelude::*;

verus! {

/// Abnormal EVM termination other than an explicit revert.
#[derive(Clone, Copy, Debug, PartialEq, Eq, Structural)]
pub enum HaltReason {
    OutOfGas,
    InvalidInstruction,
    NonceOverflow,
    Other,
}

/// A failure the execution adapter reports before execution begins
/// (a protocol precheck), or an internal fault of the adapter.
#[derive(Clone, Copy, Debug, PartialEq, Eq, Structural)]
pub enum EvmError {
    /// The transaction's gas limit exceeds what the environment admits.
    GasTooHigh,
    /// The sender cannot pay for gas and value.
    InsufficientFunds,
    /// The transaction's nonce is below the sender's.
    NonceTooLow,
    /// Any other adapter failure.
    Internal,
}

/// A failure of one simulated transaction.
#[derive(Debug)]
pub enum InvalidTxError {
    /// The gas limit exceeds what the environment admits.
    GasTooHigh,
    /// The sender cannot pay for gas and value.
    InsufficientFunds,
    /// A plain transfer's value exceeds the sender's balance.
    InsufficientFundsForTransfer,
    /// The transaction's nonce is below the sender's.
    NonceTooLow,
    /// The sender's nonce cannot grow further, so no contract address can be
    /// derived for it.
    NonceMaxValue,
    /// The call ran out of gas under the given limit.
    BasicOutOfGas(u64),
    /// The call reverted, returning explanatory data.
    Revert(Vec<u8>),
    /// The call halted abnormally.
    EvmHalt(HaltReason),
}

/// Mathematical view of [`InvalidTxError`].
#[verifier::ext_equal]
pub enum InvalidTxErrorV {
    GasTooHigh,
    InsufficientFunds,
    InsufficientFundsForTransfer,
    NonceTooLow,
    NonceMaxValue,
    BasicOutOfGas(u64),
    Revert(Seq<u8>),
    EvmHalt(HaltReason),
}

impl View for InvalidTxError {
    type V = InvalidTxErrorV;

    open spec fn view(&self) -> InvalidTxErrorV {
        match self {
            InvalidTxError::GasTooHigh => InvalidTxErrorV::GasTooHigh,
            InvalidTxError::InsufficientFunds => InvalidTxErrorV::InsufficientFunds,
            InvalidTxError::InsufficientFundsForTransfer => InvalidTxErrorV::InsufficientFundsForTransfer,
            InvalidTxError::NonceTooLow => InvalidTxErrorV::NonceTooLow,
            InvalidTxError::NonceMaxValue => InvalidTxErrorV::NonceMaxValue,
            InvalidTxError::BasicOutOfGas(g) => InvalidTxErrorV::BasicOutOfGas(*g),
            InvalidTxError::Revert(o) => InvalidTxErrorV::Revert(o@),
            InvalidTxError::EvmHalt(r) => InvalidTxErrorV::EvmHalt(*r),
        }
    }
}

/// A failure of one engine operation.
#[derive(Debug)]
pub enum EthApiError {
    /// The request has the wrong shape; carries the reason.
    InvalidParams(String),
    /// The selected block is not known.
    UnknownBlockNumber,
    /// A replayed transaction's sender could not be recovered from its
    /// signature.
    InvalidSignature,
    /// A simulated transaction failed.
    InvalidTransaction(InvalidTxError),
    /// An internal fault of the execution adapter.
    Internal,
}

/// Mathematical view of [`EthApiError`].
#[verifier::ext_equal]
pub enum EthApiErrorV {
    InvalidParams(Seq<char>),
    UnknownBlockNumber,
    InvalidSignature,
    InvalidTransaction(InvalidTxErrorV),
    Internal,
}

impl View for EthApiError {
    type V = EthApiErrorV;

    open spec fn view(&self) -> EthApiErrorV {
        match self {
            EthApiError::InvalidParams(s) => EthApiErrorV::InvalidParams(s@),
            EthApiError::UnknownBlockNumber => EthApiErrorV::UnknownBlockNumber,
            EthApiError::InvalidSignature => EthApiErrorV::InvalidSignature,
            EthApiError::InvalidTransaction(e) => EthApiErrorV::InvalidTransaction(e@),
            EthApiError::Internal => EthApiErrorV::Internal,
        }
    }
}

/// What [`evm_error_to_api`] returns for each adapter error.
pub open spec fn evm_error_to_api_spec(e: EvmError) -> EthApiErrorV {
    match e {
        EvmError::GasTooHigh => EthApiErrorV::InvalidTransaction(InvalidTxErrorV::GasTooHigh),
        EvmError::InsufficientFunds => EthApiErrorV::InvalidTransaction(
            InvalidTxErrorV::InsufficientFunds,
        ),
        EvmError::NonceTooLow => EthApiErrorV::InvalidTransaction(InvalidTxErrorV::NonceTooLow),
        EvmError::Internal => EthApiErrorV::Internal,
    }
}

/// The message [`error_message`] renders for a transaction failure.
pub open spec fn tx_error_message_v(e: InvalidTxErrorV) -> Seq<char> {
    match e {
        InvalidTxErrorV::GasTooHigh => "intrinsic gas too high"@,
        InvalidTxErrorV::InsufficientFunds => "insufficient funds for gas * price + value"@,
        InvalidTxErrorV::InsufficientFundsForTransfer => "insufficient funds for transfer"@,
        InvalidTxErrorV::NonceTooLow => "nonce too low"@,
        InvalidTxErrorV::NonceMaxValue => "nonce has max value"@,
        InvalidTxErrorV::BasicOutOfGas(_) => "out of gas: gas required exceeds allowance"@,
        InvalidTxErrorV::Revert(_) => "execution reverted"@,
        InvalidTxErrorV::EvmHalt(_) => "EVM halted"@,
    }
}

/// The message [`error_message`] renders for an engine failure.
pub open spec fn error_message_v(e: EthApiErrorV) -> Seq<char> {
    match e {
        EthApiErrorV::InvalidParams(s) => s,
        EthApiErrorV::UnknownBlockNumber => "unknown block number"@,
        EthApiErrorV::InvalidSignature => "invalid transaction signature"@,
        EthApiErrorV::InvalidTransaction(t) => tx_error_message_v(t),
        EthApiErrorV::Internal => "internal failure"@,
    }
}

/// Renders a failure as the message a bundled call's result carries. The
/// typed error keeps any payload; wire encoding of payloads is the transport
/// layer's concern.
pub fn error_message(e: &EthApiError) -> (r: String)
    ensures
        r@ == error_message_v(e@),
{
    match e {
        EthApiError::InvalidParams(s) => s.clone(),
        EthApiError::UnknownBlockNumber => String::from_str("unknown block number"),
        EthApiError::InvalidSignature => String::from_str("invalid transaction signature"),
        EthApiError::InvalidTransaction(t) => match t {
            InvalidTxError::GasTooHigh => String::from_str("intrinsic gas too high"),
            InvalidTxError::InsufficientFunds => String::from_str(
                "insufficient funds for gas * price + value",
            ),
            InvalidTxError::InsufficientFundsForTransfer => String::from_str(
                "insufficient funds for transfer",
            ),
            InvalidTxError::NonceTooLow => String::from_str("nonce too low"),
            InvalidTxError::NonceMaxValue => String::from_str("nonce has max value"),
            InvalidTxError::BasicOutOfGas(_) => String::from_str(
                "out of gas: gas required exceeds allowance",
            ),
            InvalidTxError::Revert(_) => String::from_str("execution reverted"),
            InvalidTxError::EvmHalt(_) => String::from_str("EVM halted"),
        },
        EthApiError::Internal => String::from_str("internal failure"),
    }
}

/// Maps an adapter error to the engine's error type.
pub fn evm_error_to_api(e: EvmError) -> (r: EthApiError)
    ensures
        r@ == evm_error_to_api_spec(e),
{
    match e {
        EvmError::GasTooHigh => EthApiError::InvalidTransaction(InvalidTxError::GasTooHigh),
        EvmError::InsufficientFunds => EthApiError::InvalidTransaction(
            InvalidTxError::InsufficientFunds,
        ),
        EvmError::NonceTooLow => EthApiError::InvalidTransaction(InvalidTxError::NonceTooLow),
        EvmError::Internal => EthApiError::Internal,
    }
}

} // verus!
