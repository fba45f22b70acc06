//! The records of the two ledgers and the errors of their operations.

use crate::address::Address;
use vstd::prelude::*;

verus! {

/// Lifecycle of a pool. Every pool is created `Active`; nothing in this
/// library moves it on.
#[derive(Clone, Copy, Debug, PartialEq, Eq, Structural)]
pub enum PoolStatus {
    Active,
    Paused,
    Closed,
}

/// Admission state of a maker. Only a `Verified` maker may deposit or
/// withdraw; there is no way back to `Pending`.
#[derive(Clone, Copy, Debug, PartialEq, Eq, Structural)]
pub enum MakerStatus {
    Verified,
    Pending,
}

/// What the latest operation of a maker on a pool was.
#[derive(Clone, Copy, Debug, PartialEq, Eq, Structural)]
pub enum TransactionType {
    Deposit,
    Withdrawal,
}

/// How far the latest operation of a maker on a pool has come.
#[derive(Clone, Copy, Debug, PartialEq, Eq, Structural)]
pub enum TransactionStatus {
    Pending,
    Completed,
    Failed,
}

/// State of an escrow offer. `Accepted` and `Canceled` are terminal.
#[derive(Clone, Copy, Debug, PartialEq, Eq, Structural)]
pub enum OfferStatus {
    Pending,
    Accepted,
    Canceled,
}

/// A named-currency pool with its aggregate liquidity.
#[derive(Clone, Copy, Debug, PartialEq, Eq)]
pub struct Pool {
    pub currency: [u8; 3],
    pub total_liquidity: u64,
    pub status: PoolStatus,
    pub bump: u8,
}

/// A participant, owned by the authority that registered it.
#[derive(Clone, Copy, Debug, PartialEq, Eq)]
pub struct Maker {
    pub authority: Address,
    pub verified_status: MakerStatus,
    pub bump: u8,
}

/// What one maker has contributed to one pool.
#[derive(Clone, Copy, Debug, PartialEq, Eq)]
pub struct PoolContribution {
    pub pool: Address,
    pub maker: Address,
    pub amount: u64,
    pub bump: u8,
}

/// The latest deposit or withdrawal of one maker on one pool.
#[derive(Clone, Copy, Debug, PartialEq, Eq)]
pub struct Transaction {
    pub pool: Address,
    pub maker: Address,
    pub transaction_type: TransactionType,
    pub amount: u64,
    pub status: TransactionStatus,
    pub bump: u8,
}

/// Funds locked by a depositor at a fixed exchange rate, until a
/// counterparty accepts them or the depositor takes them back.
#[derive(Clone, Copy, Debug, PartialEq, Eq)]
pub struct Offer {
    pub depositor: Address,
    pub amount: u64,
    pub exchange_rate: u64,
    pub nonce: u64,
    pub status: OfferStatus,
    pub bump: u8,
}

/// Why the custody service refused a transfer. The code is the service's
/// own; it is carried to the caller as it came.
#[derive(Clone, Copy, Debug, PartialEq, Eq, Structural)]
pub struct TransferError {
    pub code: u32,
}

/// Why an operation failed. A failed operation has changed nothing.
#[derive(Clone, Copy, Debug, PartialEq, Eq, Structural)]
pub enum ErrorCode {
    /// The maker has not been verified.
    MakerNotVerified,
    /// The contribution holds less than the amount asked for.
    InsufficientFunds,
    /// A balance would leave the range of a `u64`.
    ArithmeticOverflow,
    /// The offer has been accepted or canceled before.
    OfferNotPending,
    /// A record already lives at the pool's address.
    DuplicatePool,
    /// A record already lives at the maker's address.
    DuplicateMaker,
    /// A record already lives at the contribution's address.
    DuplicateContribution,
    /// A record already lives at the transaction record's address.
    DuplicateTransaction,
    /// A record already lives at the offer's address.
    DuplicateOffer,
    /// No record lives at an address that the operation names.
    AccountNotInitialized,
    /// A record does not belong to the pool, maker or authority that it
    /// was named with.
    ConstraintHasOne,
    /// No bump in the search space gives a valid address for the seeds.
    AddressDerivationExhausted,
    /// The custody service refused the transfer.
    Transfer(TransferError),
}

impl ErrorCode {
    /// The text of `message`.
    pub open spec fn description(self) -> Seq<char> {
        match self {
            ErrorCode::MakerNotVerified => "Maker is not verified"@,
            ErrorCode::InsufficientFunds => "Insufficient funds"@,
            ErrorCode::ArithmeticOverflow => "Arithmetic overflow"@,
            ErrorCode::OfferNotPending => "Offer is not pending"@,
            ErrorCode::DuplicatePool => "Pool already exists"@,
            ErrorCode::DuplicateMaker => "Maker already exists"@,
            ErrorCode::DuplicateContribution => "Contribution already exists"@,
            ErrorCode::DuplicateTransaction => "Transaction record already exists"@,
            ErrorCode::DuplicateOffer => "Offer already exists"@,
            ErrorCode::AccountNotInitialized => "Account is not initialized"@,
            ErrorCode::ConstraintHasOne => "Record belongs to another owner"@,
            ErrorCode::AddressDerivationExhausted => "No valid address for these seeds"@,
            ErrorCode::Transfer(_) => "Custody transfer failed"@,
        }
    }

    /// A short description of the error.
    pub fn message(&self) -> (r: &'static str)
        ensures
            r@ == self.description(),
    {
        match self {
            ErrorCode::MakerNotVerified => "Maker is not verified",
            ErrorCode::InsufficientFunds => "Insufficient funds",
            ErrorCode::ArithmeticOverflow => "Arithmetic overflow",
            ErrorCode::OfferNotPending => "Offer is not pending",
            ErrorCode::DuplicatePool => "Pool already exists",
            ErrorCode::DuplicateMaker => "Maker already exists",
            ErrorCode::DuplicateContribution => "Contribution already exists",
            ErrorCode::DuplicateTransaction => "Transaction record already exists",
            ErrorCode::DuplicateOffer => "Offer already exists",
            ErrorCode::AccountNotInitialized => "Account is not initialized",
            ErrorCode::ConstraintHasOne => "Record belongs to another owner",
            ErrorCode::AddressDerivationExhausted => "No valid address for these seeds",
            ErrorCode::Transfer(_) => "Custody transfer failed",
        }
    }
}

} // verus!
