//! The errors with which an operation is rejected.

use vstd::prelude::*;

verus! {

/// Rejections by the role directory.
#[derive(Clone, Copy, Debug, PartialEq, Eq, Structural)]
pub enum AccessControlError {
    /// Only the admin may perform the action.
    UnauthorizedAdmin,
    /// The role named does not exist.
    InvalidRole,
    /// The last member of a role cannot renounce it.
    LastMember,
    /// The member has no role assigned.
    NoRole,
}

/// Rejections by the token whitelist.
#[derive(Clone, Copy, Debug, PartialEq, Eq, Structural)]
pub enum TokenValidatorError {
    /// The token is not fungible.
    NonFungibleToken,
    /// The token is not whitelisted.
    TokenNotWhitelisted,
}

/// Rejections by the balance and withdrawal accounting.
#[derive(Clone, Copy, Debug, PartialEq, Eq, Structural)]
pub enum FundlockError {
    /// The amount is zero.
    AmountZero,
    /// The funds do not cover the operation.
    InsufficientFunds,
    /// The withdrawal queue is full.
    WithdrawalLimitReached,
    /// No withdrawal stands at the index.
    InvalidIndex,
    /// The withdrawal is still inside its release lock.
    ReleaseLockActive,
    /// The custody vault holds less than the withdrawal.
    InsufficientFundsInVault,
    /// The number of account records does not fit the batch.
    InvalidAccountsAmount,
    /// An account record is not the one expected at its place.
    AccountOrderViolated,
    /// A credit would take a balance past the largest amount a record can hold.
    BalanceOverflow,
}

/// Rejections by the ledger.
#[derive(Clone, Copy, Debug, PartialEq, Eq, Structural)]
pub enum LedgerError {
    /// The positions array is empty.
    EmptyPositionsArray,
    /// The contract id does not match the existing one.
    InvalidContractId,
    /// An account is not the one expected at its place.
    AccountOrderViolated,
    /// The fund movement array is empty.
    EmptyFundMovementArray,
    /// A fund movement moves nothing on either leg.
    EmptyAmountsArray,
    /// A token's declared precision exceeds its decimals, or the scale between
    /// them does not fit the multiplier.
    InvalidPrecision,
}

/// Any rejection, tagged by the component that raised it.
#[derive(Clone, Copy, Debug, PartialEq, Eq, Structural)]
pub enum IthacaError {
    AccessControl(AccessControlError),
    TokenValidator(TokenValidatorError),
    Fundlock(FundlockError),
    Ledger(LedgerError),
}

/// The message that describes a rejection by the role directory.
pub open spec fn access_control_message(error: AccessControlError) -> Seq<char> {
    match error {
        AccessControlError::UnauthorizedAdmin => "Only admin is authorized to perform this action"@,
        AccessControlError::InvalidRole => "Invalid role: The provided role does not exist"@,
        AccessControlError::LastMember => "Cannot renounce the last member from the role"@,
        AccessControlError::NoRole => "This member doesn't not have any role assigned"@,
    }
}

impl AccessControlError {
    /// The message that describes this rejection.
    pub fn message(&self) -> (text: &'static str)
        ensures
            text@ == access_control_message(*self),
    {
        match self {
            AccessControlError::UnauthorizedAdmin => "Only admin is authorized to perform this action",
            AccessControlError::InvalidRole => "Invalid role: The provided role does not exist",
            AccessControlError::LastMember => "Cannot renounce the last member from the role",
            AccessControlError::NoRole => "This member doesn't not have any role assigned",
        }
    }
}

/// The message that describes a rejection by the token whitelist.
pub open spec fn token_validator_message(error: TokenValidatorError) -> Seq<char> {
    match error {
        TokenValidatorError::NonFungibleToken => "The provided token is not a fungible token"@,
        TokenValidatorError::TokenNotWhitelisted => "The provided token is not whitelisted"@,
    }
}

impl TokenValidatorError {
    /// The message that describes this rejection.
    pub fn message(&self) -> (text: &'static str)
        ensures
            text@ == token_validator_message(*self),
    {
        match self {
            TokenValidatorError::NonFungibleToken => "The provided token is not a fungible token",
            TokenValidatorError::TokenNotWhitelisted => "The provided token is not whitelisted",
        }
    }
}

/// The message that describes a rejection by the balance and withdrawal accounting.
pub open spec fn fundlock_message(error: FundlockError) -> Seq<char> {
    match error {
        FundlockError::AmountZero => "The amount cannot be zero"@,
        FundlockError::InsufficientFunds => "Insufficient funds for the operation"@,
        FundlockError::WithdrawalLimitReached => "The withdrawal queue limit of 5 has been reached"@,
        FundlockError::InvalidIndex => "Withdrawal under this index is not found"@,
        FundlockError::ReleaseLockActive => "The withdrawal is still in a release lock state"@,
        FundlockError::InsufficientFundsInVault => "Insufficient funds in fundlock vault for the operation"@,
        FundlockError::InvalidAccountsAmount => "Invalid amount of accounts provided"@,
        FundlockError::AccountOrderViolated => "Account order for update balances violated"@,
        FundlockError::BalanceOverflow => "The amount exceeds what a balance can hold"@,
    }
}

impl FundlockError {
    /// The message that describes this rejection.
    pub fn message(&self) -> (text: &'static str)
        ensures
            text@ == fundlock_message(*self),
    {
        match self {
            FundlockError::AmountZero => "The amount cannot be zero",
            FundlockError::InsufficientFunds => "Insufficient funds for the operation",
            FundlockError::WithdrawalLimitReached => "The withdrawal queue limit of 5 has been reached",
            FundlockError::InvalidIndex => "Withdrawal under this index is not found",
            FundlockError::ReleaseLockActive => "The withdrawal is still in a release lock state",
            FundlockError::InsufficientFundsInVault => "Insufficient funds in fundlock vault for the operation",
            FundlockError::InvalidAccountsAmount => "Invalid amount of accounts provided",
            FundlockError::AccountOrderViolated => "Account order for update balances violated",
            FundlockError::BalanceOverflow => "The amount exceeds what a balance can hold",
        }
    }
}

/// The message that describes a rejection by the ledger.
pub open spec fn ledger_message(error: LedgerError) -> Seq<char> {
    match error {
        LedgerError::EmptyPositionsArray => "The provided positions array is empty"@,
        LedgerError::InvalidContractId => "The provided contract id doesnt match the existing one"@,
        LedgerError::AccountOrderViolated => "The provided account order is violated"@,
        LedgerError::EmptyFundMovementArray => "The provided fund movements array is empty"@,
        LedgerError::EmptyAmountsArray => "The provided fund movement moves no amount"@,
        LedgerError::InvalidPrecision => "The token precision does not fit the token decimals"@,
    }
}

impl LedgerError {
    /// The message that describes this rejection.
    pub fn message(&self) -> (text: &'static str)
        ensures
            text@ == ledger_message(*self),
    {
        match self {
            LedgerError::EmptyPositionsArray => "The provided positions array is empty",
            LedgerError::InvalidContractId => "The provided contract id doesnt match the existing one",
            LedgerError::AccountOrderViolated => "The provided account order is violated",
            LedgerError::EmptyFundMovementArray => "The provided fund movements array is empty",
            LedgerError::EmptyAmountsArray => "The provided fund movement moves no amount",
            LedgerError::InvalidPrecision => "The token precision does not fit the token decimals",
        }
    }
}

/// The message that describes a rejection.
pub open spec fn ithaca_message(error: IthacaError) -> Seq<char> {
    match error {
        IthacaError::AccessControl(e) => access_control_message(e),
        IthacaError::TokenValidator(e) => token_validator_message(e),
        IthacaError::Fundlock(e) => fundlock_message(e),
        IthacaError::Ledger(e) => ledger_message(e),
    }
}

impl IthacaError {
    /// The message that describes this rejection.
    pub fn message(&self) -> (text: &'static str)
        ensures
            text@ == ithaca_message(*self),
    {
        match self {
            IthacaError::AccessControl(e) => e.message(),
            IthacaError::TokenValidator(e) => e.message(),
            IthacaError::Fundlock(e) => e.message(),
            IthacaError::Ledger(e) => e.message(),
        }
    }
}

} // verus!
