//! Error codes shared by every operation of the engine.
//!
//! Every failure of a call is terminal: the caller observes one of these
//! codes and the host discards the whole call's effects.

use vstd::prelude::*;

verus! {

/// The reason a call was rejected.
#[derive(Clone, Copy, Debug, PartialEq, Eq, Structural)]
pub enum DassiError {
    /// Malformed opcode or truncated instruction fields.
    InvalidInstruction,
    /// A buffer does not hold the minimum reserve the host demands.
    NotRentExempt,
    /// An observed transfer delta differs from the requested amount,
    /// or a contribution is below the minimum lending amount.
    ExpectedAmountMismatch,
    /// A checked addition, subtraction or division failed.
    AmountOverflow,
    /// A buffer is not owned by this engine.
    WrongAccountPassed,
    /// The borrower record was already initialized.
    BorrowerAccountAlreadyInitialized,
    /// The guarantor record was already initialized.
    GuarantorAccountAlreadyInitialized,
    /// The caller is not the borrower recorded in the loan header.
    BorrowerAccountMismatched,
    /// The pooled loan funds were already withdrawn (or never fully raised).
    CollectedLoanFundsAlreadyWithdrawn,
    /// The lender ledger buffer was already initialized.
    LendersStorageDataAlreadyInitialized,
    /// The loan buffer was already initialized.
    LoanInfoDataAlreadyInitialized,
    /// The loan is already fully repaid.
    LoanAlreadyPaid,
    /// The borrower already has an active loan.
    BorrowerAlreadyHaveActiveLoan,
    /// A buffer that had to be empty holds data.
    SpaceNotEmpty,
    /// The loan is already fully funded.
    BorrowerAlreadyFunded,
    /// A supplied buffer address differs from the derived address.
    AccountMismatched,
    /// The caller already received the maximum airdrop amount.
    UserAlreadyAirdroped,
    /// A buffer carries the wrong leading type tag.
    ExpectedAccountTypeMismatched,
    /// The supplied token program is not the expected one.
    InvalidTokenProgram,
    /// The fundraising deadline passed before the loan was fully funded.
    FundraisingPeriodExpired,
    /// The lender id is out of range or bound to another identity.
    InvalidLenderIdInput,
    /// The lender ledger buffer carries an unexpected shard number.
    ExpectedLendersAccNumNotMatched,
    /// The caller is not the admin.
    AdminDoesNotMatched,
    /// The vault's owner is not the derived lending authority.
    DassiVaultAccountDoesNotMatched,
    /// The supplied authority account is not the derived address.
    PdaAccountDoesNotMatched,
    /// A buffer's length differs from the expected record size.
    DataSizeNotMatched,
    /// A byte span cannot be decoded as the expected record.
    InvalidAccountData,
    /// A record that had to be initialized is not.
    UninitializedAccount,
    /// An append-only log is full.
    CapacityExceeded,
}

} // verus!
