//! The operations on loaded records.
//!
//! Each operation works on a context: the records it touches, already
//! loaded, with the identities and the bump that go with them. It checks
//! its preconditions first and only then writes, so a failed operation
//! leaves its context as it found it. Finding the records by address and
//! putting them back is the ledger's part.

use crate::address::Address;
use crate::custody::{Authorization, TransferRequest};
use crate::state::{
    ErrorCode, Maker, MakerStatus, Offer, OfferStatus, Pool, PoolContribution, PoolStatus,
    Transaction, TransactionStatus, TransactionType,
};
use vstd::prelude::*;

verus! {

/// Context of `create_pool`: the record to fill, and the bump of its
/// address.
#[derive(Clone, Copy, Debug, PartialEq, Eq)]
pub struct CreatePool {
    pub pool: Pool,
    pub bump: u8,
}

/// Context of `create_maker`: the record to fill, the authority that
/// registers, and the bump of the record's address.
#[derive(Clone, Copy, Debug, PartialEq, Eq)]
pub struct CreateMaker {
    pub maker: Maker,
    pub authority: Address,
    pub bump: u8,
}

/// Context of `create_contribution`: the record to fill, the addresses of
/// the pool and the maker it joins, and the bump of the record's address.
#[derive(Clone, Copy, Debug, PartialEq, Eq)]
pub struct CreateContribution {
    pub contribution: PoolContribution,
    pub pool: Address,
    pub maker: Address,
    pub bump: u8,
}

/// Context of `create_transaction`: the record to fill, the addresses of
/// the pool and the maker it joins, and the bump of the record's address.
#[derive(Clone, Copy, Debug, PartialEq, Eq)]
pub struct CreateTransaction {
    pub transaction: Transaction,
    pub pool: Address,
    pub maker: Address,
    pub bump: u8,
}

/// Context of `verify_maker`: the maker, and the authority that asks.
#[derive(Clone, Copy, Debug, PartialEq, Eq)]
pub struct VerifyMaker {
    pub maker: Maker,
    pub authority: Address,
}

/// Context of `deposit`: the pool, the maker, the maker's contribution to
/// the pool, their transaction record and the bump of its address.
#[derive(Clone, Copy, Debug, PartialEq, Eq)]
pub struct Deposit {
    pub pool: Pool,
    pub maker: Maker,
    pub contribution: PoolContribution,
    pub transaction: Transaction,
    pub bump: u8,
}

/// Context of `withdraw`: the same records as for `deposit`.
#[derive(Clone, Copy, Debug, PartialEq, Eq)]
pub struct Withdraw {
    pub pool: Pool,
    pub maker: Maker,
    pub contribution: PoolContribution,
    pub transaction: Transaction,
    pub bump: u8,
}

/// Context of `deposit_funds`: the offer to fill, who locks the funds, the
/// protocol authority that takes them into custody, and the bump of the
/// offer's address.
#[derive(Clone, Copy, Debug, PartialEq, Eq)]
pub struct DepositFunds {
    pub offer: Offer,
    pub depositor: Address,
    pub custody: Address,
    pub bump: u8,
}

/// Context of `accept_offer`: the offer, who receives the funds, and the
/// protocol authority with its bump.
#[derive(Clone, Copy, Debug, PartialEq, Eq)]
pub struct AcceptOffer {
    pub offer: Offer,
    pub counterparty: Address,
    pub custody: Address,
    pub custody_bump: u8,
}

/// Context of `cancel_offer`: the offer, and the protocol authority with
/// its bump.
#[derive(Clone, Copy, Debug, PartialEq, Eq)]
pub struct CancelOffer {
    pub offer: Offer,
    pub custody: Address,
    pub custody_bump: u8,
}

/// The pool that `create_pool` writes.
pub open spec fn created_pool(currency: [u8; 3], initial_liquidity: u64, bump: u8) -> Pool {
    Pool { currency, total_liquidity: initial_liquidity, status: PoolStatus::Active, bump }
}

/// The maker that `create_maker` writes.
pub open spec fn created_maker(authority: Address, bump: u8) -> Maker {
    Maker { authority, verified_status: MakerStatus::Pending, bump }
}

/// The contribution that `create_contribution` writes.
pub open spec fn created_contribution(pool: Address, maker: Address, bump: u8) -> PoolContribution {
    PoolContribution { pool, maker, amount: 0, bump }
}

/// The transaction record that `create_transaction` writes.
pub open spec fn created_transaction(pool: Address, maker: Address, bump: u8) -> Transaction {
    Transaction {
        pool,
        maker,
        transaction_type: TransactionType::Deposit,
        amount: 0,
        status: TransactionStatus::Pending,
        bump,
    }
}

/// The offer that `deposit_funds` writes.
pub open spec fn created_offer(
    depositor: Address,
    amount: u64,
    exchange_rate: u64,
    nonce: u64,
    bump: u8,
) -> Offer {
    Offer { depositor, amount, exchange_rate, nonce, status: OfferStatus::Pending, bump }
}

/// What a completed deposit or withdrawal leaves in the transaction
/// record: its kind and amount; whose record it is stays.
pub open spec fn completed(
    before: Transaction,
    transaction_type: TransactionType,
    amount: u64,
    bump: u8,
) -> Transaction {
    Transaction {
        pool: before.pool,
        maker: before.maker,
        transaction_type,
        amount,
        status: TransactionStatus::Completed,
        bump,
    }
}

/// `deposit` as a function: the context after a deposit that succeeds, or
/// the error of one that fails.
pub open spec fn deposit_outcome(ctx: Deposit, amount: u64) -> Result<Deposit, ErrorCode> {
    if ctx.maker.verified_status != MakerStatus::Verified {
        Err(ErrorCode::MakerNotVerified)
    } else if ctx.pool.total_liquidity + amount > u64::MAX || ctx.contribution.amount + amount
        > u64::MAX {
        Err(ErrorCode::ArithmeticOverflow)
    } else {
        Ok(
            Deposit {
                pool: Pool {
                    currency: ctx.pool.currency,
                    total_liquidity: (ctx.pool.total_liquidity + amount) as u64,
                    status: ctx.pool.status,
                    bump: ctx.pool.bump,
                },
                maker: ctx.maker,
                contribution: PoolContribution {
                    pool: ctx.contribution.pool,
                    maker: ctx.contribution.maker,
                    amount: (ctx.contribution.amount + amount) as u64,
                    bump: ctx.contribution.bump,
                },
                transaction: completed(ctx.transaction, TransactionType::Deposit, amount, ctx.bump),
                bump: ctx.bump,
            },
        )
    }
}

/// `withdraw` as a function: the context after a withdrawal that succeeds,
/// or the error of one that fails.
pub open spec fn withdraw_outcome(ctx: Withdraw, amount: u64) -> Result<Withdraw, ErrorCode> {
    if ctx.maker.verified_status != MakerStatus::Verified {
        Err(ErrorCode::MakerNotVerified)
    } else if ctx.contribution.amount < amount {
        Err(ErrorCode::InsufficientFunds)
    } else if ctx.pool.total_liquidity < amount {
        Err(ErrorCode::ArithmeticOverflow)
    } else {
        Ok(
            Withdraw {
                pool: Pool {
                    currency: ctx.pool.currency,
                    total_liquidity: (ctx.pool.total_liquidity - amount) as u64,
                    status: ctx.pool.status,
                    bump: ctx.pool.bump,
                },
                maker: ctx.maker,
                contribution: PoolContribution {
                    pool: ctx.contribution.pool,
                    maker: ctx.contribution.maker,
                    amount: (ctx.contribution.amount - amount) as u64,
                    bump: ctx.contribution.bump,
                },
                transaction: completed(
                    ctx.transaction,
                    TransactionType::Withdrawal,
                    amount,
                    ctx.bump,
                ),
                bump: ctx.bump,
            },
        )
    }
}

/// The offer with another status, all else kept.
pub open spec fn with_status(offer: Offer, status: OfferStatus) -> Offer {
    Offer {
        depositor: offer.depositor,
        amount: offer.amount,
        exchange_rate: offer.exchange_rate,
        nonce: offer.nonce,
        status,
        bump: offer.bump,
    }
}

/// The transfer that locks the funds of a new offer: from the depositor,
/// under the depositor's own signature, into protocol custody.
pub open spec fn lock_request(depositor: Address, custody: Address, amount: u64) -> TransferRequest {
    TransferRequest {
        from: depositor,
        to: custody,
        amount,
        authorization: Authorization::Signature { signer: depositor },
    }
}

/// The transfer that releases the locked funds of an offer: all of them,
/// out of protocol custody, under the protocol authority's proof.
pub open spec fn release_request(offer: Offer, custody: Address, custody_bump: u8, to: Address) -> TransferRequest {
    TransferRequest {
        from: custody,
        to,
        amount: offer.amount,
        authorization: Authorization::Protocol { bump: custody_bump },
    }
}

/// `accept_offer` as a function: the context after, with the transfer to
/// the counterparty, or the error.
pub open spec fn accept_outcome(ctx: AcceptOffer) -> Result<(AcceptOffer, TransferRequest), ErrorCode> {
    if ctx.offer.status != OfferStatus::Pending {
        Err(ErrorCode::OfferNotPending)
    } else {
        Ok(
            (
                AcceptOffer {
                    offer: with_status(ctx.offer, OfferStatus::Accepted),
                    counterparty: ctx.counterparty,
                    custody: ctx.custody,
                    custody_bump: ctx.custody_bump,
                },
                release_request(ctx.offer, ctx.custody, ctx.custody_bump, ctx.counterparty),
            ),
        )
    }
}

/// `cancel_offer` as a function: the context after, with the transfer back
/// to the depositor, or the error.
pub open spec fn cancel_outcome(ctx: CancelOffer) -> Result<(CancelOffer, TransferRequest), ErrorCode> {
    if ctx.offer.status != OfferStatus::Pending {
        Err(ErrorCode::OfferNotPending)
    } else {
        Ok(
            (
                CancelOffer {
                    offer: with_status(ctx.offer, OfferStatus::Canceled),
                    custody: ctx.custody,
                    custody_bump: ctx.custody_bump,
                },
                release_request(ctx.offer, ctx.custody, ctx.custody_bump, ctx.offer.depositor),
            ),
        )
    }
}

/// Fills the pool record: the currency, the initial liquidity as given (no
/// funds move for it), status `Active`, and the bump.
pub fn create_pool(ctx: &mut CreatePool, currency: [u8; 3], initial_liquidity: u64) -> (result:
    Result<(), ErrorCode>)
    ensures
        result is Ok,
        final(ctx).pool == created_pool(currency, initial_liquidity, old(ctx).bump),
        final(ctx).bump == old(ctx).bump,
{
    ctx.pool.currency = currency;
    ctx.pool.total_liquidity = initial_liquidity;
    ctx.pool.status = PoolStatus::Active;
    ctx.pool.bump = ctx.bump;
    Ok(())
}

/// Fills the maker record: owned by the registering authority, `Pending`.
pub fn create_maker(ctx: &mut CreateMaker) -> (result: Result<(), ErrorCode>)
    ensures
        result is Ok,
        final(ctx).maker == created_maker(old(ctx).authority, old(ctx).bump),
        final(ctx).authority == old(ctx).authority,
        final(ctx).bump == old(ctx).bump,
{
    ctx.maker.authority = ctx.authority;
    ctx.maker.verified_status = MakerStatus::Pending;
    ctx.maker.bump = ctx.bump;
    Ok(())
}

/// Fills the contribution record: of this maker to this pool, amount zero.
pub fn create_contribution(ctx: &mut CreateContribution) -> (result: Result<(), ErrorCode>)
    ensures
        result is Ok,
        final(ctx).contribution == created_contribution(
            old(ctx).pool,
            old(ctx).maker,
            old(ctx).bump,
        ),
        final(ctx).pool == old(ctx).pool,
        final(ctx).maker == old(ctx).maker,
        final(ctx).bump == old(ctx).bump,
{
    ctx.contribution.pool = ctx.pool;
    ctx.contribution.maker = ctx.maker;
    ctx.contribution.amount = 0;
    ctx.contribution.bump = ctx.bump;
    Ok(())
}

/// Fills the transaction record with its placeholder: a pending deposit of
/// zero, to be overwritten by every deposit and withdrawal of the pair.
pub fn create_transaction(ctx: &mut CreateTransaction) -> (result: Result<(), ErrorCode>)
    ensures
        result is Ok,
        final(ctx).transaction == created_transaction(
            old(ctx).pool,
            old(ctx).maker,
            old(ctx).bump,
        ),
        final(ctx).pool == old(ctx).pool,
        final(ctx).maker == old(ctx).maker,
        final(ctx).bump == old(ctx).bump,
{
    ctx.transaction.pool = ctx.pool;
    ctx.transaction.maker = ctx.maker;
    ctx.transaction.transaction_type = TransactionType::Deposit;
    ctx.transaction.amount = 0;
    ctx.transaction.status = TransactionStatus::Pending;
    ctx.transaction.bump = ctx.bump;
    Ok(())
}

/// Marks the maker `Verified`, whatever it was; all else stays.
pub fn verify_maker(ctx: &mut VerifyMaker) -> (result: Result<(), ErrorCode>)
    ensures
        result is Ok,
        final(ctx).maker.verified_status == MakerStatus::Verified,
        final(ctx).maker.authority == old(ctx).maker.authority,
        final(ctx).maker.bump == old(ctx).maker.bump,
        final(ctx).authority == old(ctx).authority,
{
    ctx.maker.verified_status = MakerStatus::Verified;
    Ok(())
}

/// Adds `amount` to the pool's liquidity and to the contribution, and
/// records a completed deposit.
///
/// Fails with `MakerNotVerified` unless the maker is verified, and with
/// `ArithmeticOverflow` where either sum would pass `u64::MAX`.
pub fn deposit(ctx: &mut Deposit, amount: u64) -> (result: Result<(), ErrorCode>)
    ensures
        match deposit_outcome(*old(ctx), amount) {
            Ok(after) => result is Ok && *final(ctx) == after,
            Err(e) => result == Err::<(), ErrorCode>(e) && *final(ctx) == *old(ctx),
        },
        old(ctx).maker.verified_status != MakerStatus::Verified ==> result == Err::<(), ErrorCode>(
            ErrorCode::MakerNotVerified,
        ),
{
    if ctx.maker.verified_status != MakerStatus::Verified {
        return Err(ErrorCode::MakerNotVerified);
    }
    let total = match ctx.pool.total_liquidity.checked_add(amount) {
        Some(t) => t,
        None => {
            return Err(ErrorCode::ArithmeticOverflow);
        },
    };
    let contributed = match ctx.contribution.amount.checked_add(amount) {
        Some(c) => c,
        None => {
            return Err(ErrorCode::ArithmeticOverflow);
        },
    };
    ctx.pool.total_liquidity = total;
    ctx.contribution.amount = contributed;
    ctx.transaction.transaction_type = TransactionType::Deposit;
    ctx.transaction.amount = amount;
    ctx.transaction.status = TransactionStatus::Completed;
    ctx.transaction.bump = ctx.bump;
    Ok(())
}

/// Takes `amount` from the pool's liquidity and from the contribution, and
/// records a completed withdrawal.
///
/// Fails with `MakerNotVerified` unless the maker is verified, with
/// `InsufficientFunds` where the contribution holds less than `amount`,
/// and with `ArithmeticOverflow` where the pool holds less than `amount`.
pub fn withdraw(ctx: &mut Withdraw, amount: u64) -> (result: Result<(), ErrorCode>)
    ensures
        match withdraw_outcome(*old(ctx), amount) {
            Ok(after) => result is Ok && *final(ctx) == after,
            Err(e) => result == Err::<(), ErrorCode>(e) && *final(ctx) == *old(ctx),
        },
        old(ctx).contribution.amount < amount ==> result is Err,
        old(ctx).maker.verified_status != MakerStatus::Verified ==> result == Err::<(), ErrorCode>(
            ErrorCode::MakerNotVerified,
        ),
{
    if ctx.maker.verified_status != MakerStatus::Verified {
        return Err(ErrorCode::MakerNotVerified);
    }
    if ctx.contribution.amount < amount {
        return Err(ErrorCode::InsufficientFunds);
    }
    if ctx.pool.total_liquidity < amount {
        return Err(ErrorCode::ArithmeticOverflow);
    }
    ctx.pool.total_liquidity = ctx.pool.total_liquidity - amount;
    ctx.contribution.amount = ctx.contribution.amount - amount;
    ctx.transaction.transaction_type = TransactionType::Withdrawal;
    ctx.transaction.amount = amount;
    ctx.transaction.status = TransactionStatus::Completed;
    ctx.transaction.bump = ctx.bump;
    Ok(())
}

/// Fills the offer record, `Pending`, and hands back the transfer that
/// locks `amount`: from the depositor into protocol custody. The exchange
/// rate is stored as given and checked against nothing.
pub fn deposit_funds(ctx: &mut DepositFunds, amount: u64, exchange_rate: u64, nonce: u64) -> (result:
    Result<TransferRequest, ErrorCode>)
    ensures
        result == Ok::<TransferRequest, ErrorCode>(
            lock_request(old(ctx).depositor, old(ctx).custody, amount),
        ),
        final(ctx).offer == created_offer(
            old(ctx).depositor,
            amount,
            exchange_rate,
            nonce,
            old(ctx).bump,
        ),
        final(ctx).depositor == old(ctx).depositor,
        final(ctx).custody == old(ctx).custody,
        final(ctx).bump == old(ctx).bump,
{
    ctx.offer.depositor = ctx.depositor;
    ctx.offer.amount = amount;
    ctx.offer.exchange_rate = exchange_rate;
    ctx.offer.nonce = nonce;
    ctx.offer.status = OfferStatus::Pending;
    ctx.offer.bump = ctx.bump;
    Ok(
        TransferRequest {
            from: ctx.depositor,
            to: ctx.custody,
            amount,
            authorization: Authorization::Signature { signer: ctx.depositor },
        },
    )
}

/// Marks a pending offer `Accepted` and hands back the transfer of all
/// its locked funds to the counterparty, under the protocol authority.
///
/// Fails with `OfferNotPending` on an offer that is accepted or canceled.
pub fn accept_offer(ctx: &mut AcceptOffer) -> (result: Result<TransferRequest, ErrorCode>)
    ensures
        match accept_outcome(*old(ctx)) {
            Ok((after, request)) => {
                &&& result == Ok::<TransferRequest, ErrorCode>(request)
                &&& *final(ctx) == after
            },
            Err(e) => result == Err::<TransferRequest, ErrorCode>(e) && *final(ctx) == *old(ctx),
        },
{
    if ctx.offer.status != OfferStatus::Pending {
        return Err(ErrorCode::OfferNotPending);
    }
    ctx.offer.status = OfferStatus::Accepted;
    Ok(
        TransferRequest {
            from: ctx.custody,
            to: ctx.counterparty,
            amount: ctx.offer.amount,
            authorization: Authorization::Protocol { bump: ctx.custody_bump },
        },
    )
}

/// Marks a pending offer `Canceled` and hands back the transfer of all its
/// locked funds to the depositor, under the protocol authority.
///
/// Fails with `OfferNotPending` on an offer that is accepted or canceled.
pub fn cancel_offer(ctx: &mut CancelOffer) -> (result: Result<TransferRequest, ErrorCode>)
    ensures
        match cancel_outcome(*old(ctx)) {
            Ok((after, request)) => {
                &&& result == Ok::<TransferRequest, ErrorCode>(request)
                &&& *final(ctx) == after
            },
            Err(e) => result == Err::<TransferRequest, ErrorCode>(e) && *final(ctx) == *old(ctx),
        },
{
    if ctx.offer.status != OfferStatus::Pending {
        return Err(ErrorCode::OfferNotPending);
    }
    ctx.offer.status = OfferStatus::Canceled;
    Ok(
        TransferRequest {
            from: ctx.custody,
            to: ctx.offer.depositor,
            amount: ctx.offer.amount,
            authorization: Authorization::Protocol { bump: ctx.custody_bump },
        },
    )
}

} // verus!
