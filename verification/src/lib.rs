//! Two coupled ledgers: pools of liquidity to which verified makers
//! contribute, and escrow offers that lock funds until a counterparty
//! accepts them or the depositor takes them back.

pub mod address;
pub mod custody;
pub mod instructions;
pub mod laws;
pub mod ledger;
pub mod model;
pub mod state;
pub mod table;

pub use address::Address;
pub use custody::{Authorization, TransferRequest};
pub use instructions::{
    accept_offer, cancel_offer, create_contribution, create_maker, create_pool,
    create_transaction, deposit, deposit_funds, verify_maker, withdraw, AcceptOffer, CancelOffer,
    CreateContribution, CreateMaker, CreatePool, CreateTransaction, Deposit, DepositFunds,
    VerifyMaker, Withdraw,
};
pub use ledger::Ledger;
pub use state::{
    ErrorCode, Maker, MakerStatus, Offer, OfferStatus, Pool, PoolContribution, PoolStatus,
    Transaction, TransactionStatus, TransactionType, TransferError,
};
