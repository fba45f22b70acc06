//! What holds of the ledger across operations.
//!
//! The operations are taken here as functions on the ledger as a value
//! (`State`), which is what the contracts of the executable operations
//! speak of. A `Step` is one call of one operation, with everything that
//! the call is given; the laws hold for every step and every sequence of
//! steps, whatever addresses were derived for them.

use crate::address::{offer_address, Address};
use crate::custody::TransferRequest;
use crate::instructions::{
    completed, created_offer, created_pool, deposit_outcome, release_request, with_status,
    withdraw_outcome, Deposit, Withdraw,
};
use crate::model::{
    contributed, granted, lemma_accept_offer, lemma_cancel_offer, lemma_contributed_bounds,
    lemma_contributed_none, lemma_create_contribution, lemma_create_maker, lemma_create_pool,
    lemma_create_transaction, lemma_deposit, lemma_deposit_funds, lemma_follows_itself,
    lemma_follows_on, lemma_verify_maker, lemma_withdraw, offer_kept, requested, settled, share,
    state_after, State,
};
use crate::state::{ErrorCode, MakerStatus, OfferStatus, TransactionType, TransferError};
use crate::table::{
    has_key, lemma_inserted, lemma_position_unique, lemma_replaced, lookup, position,
};
use vstd::prelude::*;

verus! {

/// One call of one operation of the ledger.
pub enum Step {
    CreatePool { derived: Option<(Address, u8)>, currency: [u8; 3], initial_liquidity: u64 },
    CreateMaker { derived: Option<(Address, u8)>, authority: Address },
    VerifyMaker { derived: Option<(Address, u8)>, authority: Address },
    CreateContribution { derived: Option<(Address, u8)>, pool: Address, maker: Address },
    CreateTransaction { derived: Option<(Address, u8)>, pool: Address, maker: Address },
    Deposit {
        derived: Option<(Address, u8)>,
        pool: Address,
        maker: Address,
        contribution: Address,
        amount: u64,
    },
    Withdraw {
        derived: Option<(Address, u8)>,
        pool: Address,
        maker: Address,
        contribution: Address,
        amount: u64,
    },
    DepositFunds {
        derived: Option<(Address, u8)>,
        depositor: Address,
        amount: u64,
        exchange_rate: u64,
        nonce: u64,
        transferred: Result<(), TransferError>,
    },
    AcceptOffer { offer: Address, counterparty: Address, transferred: Result<(), TransferError> },
    CancelOffer { offer: Address, transferred: Result<(), TransferError> },
}

/// Whether an operation fails, and with this error.
pub open spec fn fails_with<R>(outcome: Result<R, ErrorCode>, error: ErrorCode) -> bool {
    outcome is Err && outcome->Err_0 == error
}

/// The ledger after one step: changed as the operation says where it
/// succeeds, and as before where it fails.
pub open spec fn after_step(s: State, step: Step) -> State {
    match step {
        Step::CreatePool { derived, currency, initial_liquidity } => state_after(
            s.create_pool(derived, currency, initial_liquidity),
            s,
        ),
        Step::CreateMaker { derived, authority } => state_after(
            s.create_maker(derived, authority),
            s,
        ),
        Step::VerifyMaker { derived, authority } => state_after(
            s.verify_maker(derived, authority),
            s,
        ),
        Step::CreateContribution { derived, pool, maker } => state_after(
            s.create_contribution(derived, pool, maker),
            s,
        ),
        Step::CreateTransaction { derived, pool, maker } => state_after(
            s.create_transaction(derived, pool, maker),
            s,
        ),
        Step::Deposit { derived, pool, maker, contribution, amount } => state_after(
            s.deposit(derived, pool, maker, contribution, amount),
            s,
        ),
        Step::Withdraw { derived, pool, maker, contribution, amount } => state_after(
            s.withdraw(derived, pool, maker, contribution, amount),
            s,
        ),
        Step::DepositFunds {
            derived,
            depositor,
            amount,
            exchange_rate,
            nonce,
            transferred,
        } => state_after(
            settled(
                granted(s.deposit_funds(derived, depositor, amount, exchange_rate, nonce)),
                transferred,
            ),
            s,
        ),
        Step::AcceptOffer { offer, counterparty, transferred } => state_after(
            settled(granted(s.accept_offer(offer, counterparty)), transferred),
            s,
        ),
        Step::CancelOffer { offer, transferred } => state_after(
            settled(granted(s.cancel_offer(offer)), transferred),
            s,
        ),
    }
}

/// The ledger after a sequence of steps, taken in order.
pub open spec fn after_steps(s: State, steps: Seq<Step>) -> State
    decreases steps.len(),
{
    if steps.len() == 0 {
        s
    } else {
        after_step(after_steps(s, steps.drop_last()), steps.last())
    }
}

/// Every step keeps the ledger well formed and leads to a state that
/// follows the one before: no pool's liquidity moves but with what is
/// contributed to it, no verified maker and no settled offer changes.
pub proof fn step_keeps_invariant(s: State, step: Step)
    requires
        s.wf(),
    ensures
        after_step(s, step).wf(),
        s.follows(after_step(s, step)),
{
    match step {
        Step::CreatePool { derived, currency, initial_liquidity } => {
            lemma_create_pool(s, derived, currency, initial_liquidity);
        },
        Step::CreateMaker { derived, authority } => {
            lemma_create_maker(s, derived, authority);
        },
        Step::VerifyMaker { derived, authority } => {
            lemma_verify_maker(s, derived, authority);
        },
        Step::CreateContribution { derived, pool, maker } => {
            lemma_create_contribution(s, derived, pool, maker);
        },
        Step::CreateTransaction { derived, pool, maker } => {
            lemma_create_transaction(s, derived, pool, maker);
        },
        Step::Deposit { derived, pool, maker, contribution, amount } => {
            lemma_deposit(s, derived, pool, maker, contribution, amount);
        },
        Step::Withdraw { derived, pool, maker, contribution, amount } => {
            lemma_withdraw(s, derived, pool, maker, contribution, amount);
        },
        Step::DepositFunds { derived, depositor, amount, exchange_rate, nonce, transferred } => {
            lemma_deposit_funds(s, derived, depositor, amount, exchange_rate, nonce);
            lemma_follows_itself(s);
        },
        Step::AcceptOffer { offer, counterparty, transferred } => {
            lemma_accept_offer(s, offer, counterparty);
            lemma_follows_itself(s);
        },
        Step::CancelOffer { offer, transferred } => {
            lemma_cancel_offer(s, offer);
            lemma_follows_itself(s);
        },
    }
}

/// Every sequence of steps keeps the ledger well formed and leads to a
/// state that follows the one it started from.
pub proof fn steps_keep_invariant(s: State, steps: Seq<Step>)
    requires
        s.wf(),
    ensures
        after_steps(s, steps).wf(),
        s.follows(after_steps(s, steps)),
    decreases steps.len(),
{
    if steps.len() == 0 {
        lemma_follows_itself(s);
    } else {
        let before = after_steps(s, steps.drop_last());
        steps_keep_invariant(s, steps.drop_last());
        step_keeps_invariant(before, steps.last());
        lemma_follows_on(s, before, after_step(before, steps.last()));
    }
}

/// Through every sequence of operations, and after each of them, a
/// pool's liquidity stays exactly as far above what has been contributed
/// to it as it was; so a pool whose liquidity equals the sum of the
/// contributions addressed to it, as every pool created with no initial
/// liquidity does, keeps that equality at every point.
pub proof fn liquidity_tracks_contributions(s: State, steps: Seq<Step>, pool: Address)
    requires
        s.wf(),
        has_key(s.pools, pool),
    ensures
        forall|n: int|
            0 <= n <= steps.len() ==> {
                let now = #[trigger] after_steps(s, steps.take(n));
                &&& now.wf()
                &&& has_key(now.pools, pool)
                &&& now.surplus(pool) == s.surplus(pool)
                &&& lookup(now.pools, pool)->0.total_liquidity == contributed(
                    now.contributions,
                    pool,
                ) + s.surplus(pool)
                &&& s.balanced(pool) ==> now.balanced(pool)
            },
{
    assert forall|n: int| 0 <= n <= steps.len() implies {
        let now = #[trigger] after_steps(s, steps.take(n));
        &&& now.wf()
        &&& has_key(now.pools, pool)
        &&& now.surplus(pool) == s.surplus(pool)
        &&& lookup(now.pools, pool)->0.total_liquidity == contributed(now.contributions, pool)
            + s.surplus(pool)
        &&& s.balanced(pool) ==> now.balanced(pool)
    } by {
        steps_keep_invariant(s, steps.take(n));
    }
}

/// A pool that has just been created holds its initial liquidity and no
/// contributions: with no initial liquidity it is balanced.
pub proof fn new_pool_surplus(
    s: State,
    derived: Option<(Address, u8)>,
    currency: [u8; 3],
    initial_liquidity: u64,
)
    requires
        s.wf(),
        s.create_pool(derived, currency, initial_liquidity) is Ok,
    ensures
        ({
            let (address, next) = s.create_pool(derived, currency, initial_liquidity)->Ok_0;
            &&& has_key(next.pools, address)
            &&& contributed(next.contributions, address) == 0
            &&& next.surplus(address) == initial_liquidity
            &&& initial_liquidity == 0 ==> next.balanced(address)
        }),
{
    let (address, next) = s.create_pool(derived, currency, initial_liquidity)->Ok_0;
    lemma_create_pool(s, derived, currency, initial_liquidity);
    let bump = (derived->0).1;
    lemma_inserted(
        s.pools,
        address,
        created_pool(currency, initial_liquidity, bump),
    );
    assert forall|i: int| 0 <= i < s.contributions.len() implies (
    #[trigger] s.contributions[i]).value.pool != address by {
        assert(has_key(s.pools, s.contributions[i].value.pool));
    }
    lemma_contributed_none(s.contributions, address);
}

/// A withdrawal of more than the contribution holds never succeeds, and
/// leaves the ledger as it was.
pub proof fn withdraw_needs_funds(
    s: State,
    derived: Option<(Address, u8)>,
    pool: Address,
    maker: Address,
    contribution: Address,
    amount: u64,
)
    requires
        lookup(s.contributions, contribution) matches Some(c) && c.amount < amount,
    ensures
        s.withdraw(derived, pool, maker, contribution, amount) is Err,
        state_after(s.withdraw(derived, pool, maker, contribution, amount), s) == s,
{
}

/// In a well-formed ledger a withdrawal never fails for want of liquidity
/// in the pool: what a contribution holds, the pool holds too.
pub proof fn withdraw_never_overdraws_pool(
    s: State,
    derived: Option<(Address, u8)>,
    pool: Address,
    maker: Address,
    contribution: Address,
    amount: u64,
)
    requires
        s.wf(),
    ensures
        !fails_with(
            s.withdraw(derived, pool, maker, contribution, amount),
            ErrorCode::ArithmeticOverflow,
        ),
{
    if let Ok(l) = s.load(derived, pool, maker, contribution) {
        let ci = position(s.contributions, contribution);
        let pi = position(s.pools, pool);
        assert(s.contributions[ci].key == contribution);
        assert(s.pools[pi].key == pool);
        lemma_contributed_bounds(s.contributions, ci, pool);
        assert(share(l.contribution, pool) == l.contribution.amount);
        assert(contributed(s.contributions, s.pools[pi].key) <= s.pools[pi].value.total_liquidity);
    }
}

/// A deposit or a withdrawal that succeeds appends no transaction record:
/// it overwrites the pair's one record, which then shows the operation's
/// kind and amount as completed.
pub proof fn transaction_record_is_overwritten(
    s: State,
    derived: Option<(Address, u8)>,
    pool: Address,
    maker: Address,
    contribution: Address,
    amount: u64,
)
    requires
        s.wf(),
    ensures
        s.deposit(derived, pool, maker, contribution, amount) matches Ok((_, next)) ==> {
            &&& next.transactions.len() == s.transactions.len()
            &&& lookup(next.transactions, (derived->0).0) == Some(
                completed(
                    lookup(s.transactions, (derived->0).0)->0,
                    TransactionType::Deposit,
                    amount,
                    (derived->0).1,
                ),
            )
        },
        s.withdraw(derived, pool, maker, contribution, amount) matches Ok((_, next)) ==> {
            &&& next.transactions.len() == s.transactions.len()
            &&& lookup(next.transactions, (derived->0).0) == Some(
                completed(
                    lookup(s.transactions, (derived->0).0)->0,
                    TransactionType::Withdrawal,
                    amount,
                    (derived->0).1,
                ),
            )
        },
{
    if s.load(derived, pool, maker, contribution) is Ok {
        let key = (derived->0).0;
        let before = lookup(s.transactions, key)->0;
        lemma_replaced(
            s.transactions,
            key,
            completed(before, TransactionType::Deposit, amount, (derived->0).1),
        );
        lemma_replaced(
            s.transactions,
            key,
            completed(before, TransactionType::Withdrawal, amount, (derived->0).1),
        );
    }
}

/// On loaded records, a deposit followed by a withdrawal of the same
/// amount succeeds and leaves the pool and the contribution as they were
/// before the deposit.
pub proof fn deposit_then_withdraw_restores_records(ctx: Deposit, amount: u64)
    requires
        deposit_outcome(ctx, amount) is Ok,
    ensures
        ({
            let mid = deposit_outcome(ctx, amount)->Ok_0;
            let back = withdraw_outcome(
                Withdraw {
                    pool: mid.pool,
                    maker: mid.maker,
                    contribution: mid.contribution,
                    transaction: mid.transaction,
                    bump: mid.bump,
                },
                amount,
            );
            &&& back matches Ok(end)
            &&& end.pool == ctx.pool
            &&& end.contribution == ctx.contribution
        }),
{
}

/// In the ledger, a deposit followed by a withdrawal of the same amount
/// by the same maker on the same pool succeeds and leaves every pool and
/// every contribution as it was before the deposit.
pub proof fn deposit_then_withdraw_restores(
    s: State,
    derived: Option<(Address, u8)>,
    pool: Address,
    maker: Address,
    contribution: Address,
    amount: u64,
)
    requires
        s.wf(),
        s.deposit(derived, pool, maker, contribution, amount) is Ok,
    ensures
        ({
            let mid = (s.deposit(derived, pool, maker, contribution, amount)->Ok_0).1;
            let back = mid.withdraw(derived, pool, maker, contribution, amount);
            &&& back matches Ok((_, end))
            &&& end.pools == s.pools
            &&& end.contributions == s.contributions
            &&& end.makers == s.makers
            &&& end.offers == s.offers
        }),
{
    let l = s.load(derived, pool, maker, contribution)->Ok_0;
    let ctx = Deposit {
        pool: l.pool,
        maker: l.maker,
        contribution: l.contribution,
        transaction: l.transaction,
        bump: l.bump,
    };
    let after = deposit_outcome(ctx, amount)->Ok_0;
    let mid = (s.deposit(derived, pool, maker, contribution, amount)->Ok_0).1;
    lemma_replaced(s.pools, pool, after.pool);
    lemma_replaced(s.contributions, contribution, after.contribution);
    lemma_replaced(s.transactions, l.transaction_key, after.transaction);
    deposit_then_withdraw_restores_records(ctx, amount);
    let back = mid.withdraw(derived, pool, maker, contribution, amount);
    assert(back is Ok);
    let end = (back->Ok_0).1;
    let pi = position(s.pools, pool);
    let ci = position(s.contributions, contribution);
    assert(s.pools[pi].key == pool);
    assert(s.contributions[ci].key == contribution);
    lemma_position_unique(mid.pools, pool, pi);
    lemma_position_unique(mid.contributions, contribution, ci);
    assert(end.pools =~= s.pools);
    assert(end.contributions =~= s.contributions);
}

/// An offer that is accepted or canceled is refused by `accept_offer`
/// and by `cancel_offer`, with `OfferNotPending` where the ledger has its
/// protocol authority, and the ledger stays as it was.
pub proof fn settled_offer_is_refused(
    s: State,
    offer: Address,
    counterparty: Address,
    transferred: Result<(), TransferError>,
)
    requires
        lookup(s.offers, offer) matches Some(o) && o.status != OfferStatus::Pending,
    ensures
        requested(s.accept_offer(offer, counterparty)) is Err,
        requested(s.cancel_offer(offer)) is Err,
        settled(granted(s.accept_offer(offer, counterparty)), transferred) is Err,
        settled(granted(s.cancel_offer(offer)), transferred) is Err,
        s.custody is Some ==> fails_with(
            s.accept_offer(offer, counterparty),
            ErrorCode::OfferNotPending,
        ),
        s.custody is Some ==> fails_with(s.cancel_offer(offer), ErrorCode::OfferNotPending),
{
}

/// An offer that is accepted or canceled stays exactly as it is through
/// every sequence of operations.
pub proof fn settled_offer_stays(s: State, steps: Seq<Step>, offer: Address)
    requires
        s.wf(),
        lookup(s.offers, offer) matches Some(o) && o.status != OfferStatus::Pending,
    ensures
        lookup(after_steps(s, steps).offers, offer) == lookup(s.offers, offer),
{
    steps_keep_invariant(s, steps);
    assert(offer_kept(lookup(s.offers, offer), lookup(after_steps(s, steps).offers, offer)));
}

/// An offer that has been accepted is `Accepted`, the transfer that was
/// asked for it paid all its funds out of protocol custody to the
/// counterparty, and a cancellation after it fails with
/// `OfferNotPending`.
pub proof fn accepted_offer_cannot_be_canceled(
    s: State,
    offer: Address,
    counterparty: Address,
    transferred: Result<(), TransferError>,
)
    requires
        s.wf(),
        settled(granted(s.accept_offer(offer, counterparty)), Ok(())) is Ok,
    ensures
        ({
            let before = lookup(s.offers, offer)->0;
            let next = state_after(settled(granted(s.accept_offer(offer, counterparty)), Ok(())), s);
            &&& lookup(next.offers, offer) == Some(with_status(before, OfferStatus::Accepted))
            &&& requested(s.accept_offer(offer, counterparty)) == Ok::<TransferRequest, ErrorCode>(
                release_request(before, (s.custody->0).0, (s.custody->0).1, counterparty),
            )
            &&& fails_with(
                settled(granted(next.cancel_offer(offer)), transferred),
                ErrorCode::OfferNotPending,
            )
        }),
{
    let before = lookup(s.offers, offer)->0;
    lemma_replaced(s.offers, offer, with_status(before, OfferStatus::Accepted));
}

/// An offer that has been canceled is `Canceled`, the transfer that was
/// asked for it paid all its funds out of protocol custody back to the
/// depositor, and an acceptance after it fails with `OfferNotPending`.
pub proof fn canceled_offer_cannot_be_accepted(
    s: State,
    offer: Address,
    counterparty: Address,
    transferred: Result<(), TransferError>,
)
    requires
        s.wf(),
        settled(granted(s.cancel_offer(offer)), Ok(())) is Ok,
    ensures
        ({
            let before = lookup(s.offers, offer)->0;
            let next = state_after(settled(granted(s.cancel_offer(offer)), Ok(())), s);
            &&& lookup(next.offers, offer) == Some(with_status(before, OfferStatus::Canceled))
            &&& requested(s.cancel_offer(offer)) == Ok::<TransferRequest, ErrorCode>(
                release_request(before, (s.custody->0).0, (s.custody->0).1, before.depositor),
            )
            &&& fails_with(
                settled(granted(next.accept_offer(offer, counterparty)), transferred),
                ErrorCode::OfferNotPending,
            )
        }),
{
    let before = lookup(s.offers, offer)->0;
    lemma_replaced(s.offers, offer, with_status(before, OfferStatus::Canceled));
}

/// Once a depositor has opened an offer under a nonce, every further
/// `deposit_funds` of that depositor under that nonce fails with
/// `DuplicateOffer`, whatever the amount, the rate and the custody
/// service's answer.
pub proof fn nonce_opens_one_offer(
    s: State,
    depositor: Address,
    nonce: u64,
    amount: u64,
    exchange_rate: u64,
    again_amount: u64,
    again_exchange_rate: u64,
    again_transferred: Result<(), TransferError>,
)
    requires
        s.wf(),
        settled(
            granted(
                s.deposit_funds(
                    offer_address(s.program_id, depositor, nonce),
                    depositor,
                    amount,
                    exchange_rate,
                    nonce,
                ),
            ),
            Ok(()),
        ) is Ok,
    ensures
        ({
            let next = state_after(
                s.deposit_funds(
                    offer_address(s.program_id, depositor, nonce),
                    depositor,
                    amount,
                    exchange_rate,
                    nonce,
                ),
                s,
            );
            &&& next.program_id == s.program_id
            &&& fails_with(
                requested(
                    next.deposit_funds(
                        offer_address(next.program_id, depositor, nonce),
                        depositor,
                        again_amount,
                        again_exchange_rate,
                        nonce,
                    ),
                ),
                ErrorCode::DuplicateOffer,
            )
            &&& fails_with(
                settled(
                    granted(
                        next.deposit_funds(
                            offer_address(next.program_id, depositor, nonce),
                            depositor,
                            again_amount,
                            again_exchange_rate,
                            nonce,
                        ),
                    ),
                    again_transferred,
                ),
                ErrorCode::DuplicateOffer,
            )
        }),
{
    let derived = offer_address(s.program_id, depositor, nonce);
    let (address, bump) = derived->0;
    lemma_inserted(
        s.offers,
        address,
        created_offer(depositor, amount, exchange_rate, nonce, bump),
    );
}

/// Asking for an offer's transfer and settling it go together: where the
/// request is refused, settling fails with the same error whatever the
/// custody service answered; where a transfer is asked for, settling
/// succeeds exactly if the service performed it, and else fails with the
/// service's error. A failure leaves the ledger as it was.
pub proof fn settling_matches_request<R>(
    outcome: Result<((R, TransferRequest), State), ErrorCode>,
    transferred: Result<(), TransferError>,
    before: State,
)
    ensures
        requested(outcome) matches Err(e) ==> fails_with(settled(granted(outcome), transferred), e),
        requested(outcome) is Ok && transferred is Ok ==> settled(
            granted(outcome),
            transferred,
        ) is Ok,
        transferred matches Err(refusal) ==> (requested(outcome) is Ok ==> fails_with(
            settled(granted(outcome), transferred),
            ErrorCode::Transfer(refusal),
        )),
        settled(granted(outcome), transferred) is Err ==> state_after(
            settled(granted(outcome), transferred),
            before,
        ) == before,
{
}

/// A deposit or a withdrawal for a maker that is not verified fails with
/// `MakerNotVerified` and leaves the ledger as it was, whatever the
/// amount.
pub proof fn unverified_maker_is_refused(
    s: State,
    derived: Option<(Address, u8)>,
    pool: Address,
    maker: Address,
    contribution: Address,
    amount: u64,
)
    requires
        s.load(derived, pool, maker, contribution) matches Ok(l) && l.maker.verified_status
            != MakerStatus::Verified,
    ensures
        fails_with(
            s.deposit(derived, pool, maker, contribution, amount),
            ErrorCode::MakerNotVerified,
        ),
        fails_with(
            s.withdraw(derived, pool, maker, contribution, amount),
            ErrorCode::MakerNotVerified,
        ),
        state_after(s.deposit(derived, pool, maker, contribution, amount), s) == s,
        state_after(s.withdraw(derived, pool, maker, contribution, amount), s) == s,
{
}

/// Every transfer that an escrow operation asks for carries the
/// authorization of the holder it takes the funds from: the depositor's
/// signature when funds are locked, the protocol authority's proof when
/// they are released.
pub proof fn requests_are_authorized(
    s: State,
    derived: Option<(Address, u8)>,
    depositor: Address,
    amount: u64,
    exchange_rate: u64,
    nonce: u64,
    offer: Address,
    counterparty: Address,
)
    ensures
        requested(
            s.deposit_funds(derived, depositor, amount, exchange_rate, nonce),
        ) matches Ok(r) ==> r.authorized_by(s.custody) && r.from == depositor && r.amount
            == amount,
        requested(s.accept_offer(offer, counterparty)) matches Ok(r) ==> r.authorized_by(s.custody)
            && r.to == counterparty,
        requested(s.cancel_offer(offer)) matches Ok(r) ==> r.authorized_by(s.custody),
{
}

} // verus!
