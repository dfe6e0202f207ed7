use vstd::prelude::*;

verus! {

/// Every way an operation of the engine can fail. An error aborts the whole
/// operation: no record is changed and no custody movement is requested.
#[derive(Clone, Copy, Debug, PartialEq, Eq, Structural)]
pub enum CrossPayError {
    /// The sender has not passed KYC verification.
    KycNotVerified,
    /// The amount is zero (or an exchange rate is zero).
    InvalidAmount,
    /// The caller's token balance does not cover the amount.
    InsufficientBalance,
    /// The country code is longer than three bytes.
    InvalidCountryCode,
    /// The transfer is not in the state the operation needs.
    InvalidTransferStatus,
    /// The withdrawal is not in the state the operation needs.
    InvalidWithdrawalStatus,
    /// The liquidity provider is not active.
    ProviderNotActive,
    /// The provider's available liquidity does not cover the withdrawal.
    InsufficientLiquidity,
    /// The caller, or a record handed in, is not the one the operation names.
    Unauthorized,
    /// The transfer record does not exist.
    TransferNotFound,
    /// The withdrawal record does not exist.
    WithdrawalNotFound,
    /// A provider was already chosen for this withdrawal; the choice is final.
    ProviderAlreadySelected,
    /// The location string is longer than fifty bytes.
    InvalidLocation,
    /// The stored fee or net amount does not match the one derived from the gross amount.
    InvalidFeeCalculation,
    /// A counter would overflow.
    ArithmeticOverflow,
    /// No program address can be derived from the record's seeds.
    AddressUnavailable,
}

} // verus!
