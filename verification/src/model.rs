//! The ledger as a value.
//!
//! `State` is what a ledger holds, as sequences of records by address;
//! each operation of the ledger is a function from the state before it to
//! its outcome. The contracts of the executable ledger speak of these
//! functions, and the lemmas here show what the operations keep.

use crate::address::Address;
use crate::custody::TransferRequest;
use crate::instructions::{
    accept_outcome, cancel_outcome, created_contribution, created_maker, created_offer,
    created_pool, created_transaction, deposit_outcome, lock_request, with_status,
    withdraw_outcome, AcceptOffer, CancelOffer, Deposit, Withdraw,
};
use crate::state::{
    ErrorCode, Maker, MakerStatus, Offer, OfferStatus, Pool, PoolContribution, Transaction,
    TransferError,
};
use crate::table::{
    distinct_keys, has_key, inserted, lemma_inserted, lemma_position_unique, lemma_replaced, lookup,
    position, replaced, Entry,
};
use vstd::prelude::*;

verus! {

/// The ledger as a value: the program it belongs to, the protocol-owned
/// transfer authority with its bump, if one was found, and the records,
/// each kind in the order of creation.
#[verifier::ext_equal]
pub struct State {
    pub program_id: Address,
    pub custody: Option<(Address, u8)>,
    pub pools: Seq<Entry<Pool>>,
    pub makers: Seq<Entry<Maker>>,
    pub contributions: Seq<Entry<PoolContribution>>,
    pub transactions: Seq<Entry<Transaction>>,
    pub offers: Seq<Entry<Offer>>,
}

/// What one contribution counts towards `pool`: its amount if it is
/// addressed to that pool, else nothing.
pub open spec fn share(contribution: PoolContribution, pool: Address) -> nat {
    if contribution.pool == pool {
        contribution.amount as nat
    } else {
        0
    }
}

/// The sum of the amounts of all contributions addressed to `pool`.
pub open spec fn contributed(contributions: Seq<Entry<PoolContribution>>, pool: Address) -> nat
    decreases contributions.len(),
{
    if contributions.len() == 0 {
        0
    } else {
        contributed(contributions.drop_last(), pool) + share(contributions.last().value, pool)
    }
}

/// The records that a deposit or a withdrawal works on, as found in the
/// ledger, with the address and the bump of the transaction record.
#[derive(Clone, Copy, Debug)]
pub struct Loaded {
    pub pool: Pool,
    pub maker: Maker,
    pub contribution: PoolContribution,
    pub transaction: Transaction,
    pub transaction_key: Address,
    pub bump: u8,
}

/// An operation's outcome as a function of the state before it: what it
/// returns together with the state after it, or the error with which it
/// fails and changes nothing.
pub type Outcome<R> = Result<(R, State), ErrorCode>;

/// The outcome of an operation that moves funds, once the custody service
/// has answered: as planned where the transfer went through, else the
/// service's error, and nothing changed.
pub open spec fn settled<R>(outcome: Outcome<R>, transferred: Result<(), TransferError>) -> Outcome<
    R,
> {
    match outcome {
        Err(e) => Err(e),
        Ok(done) => match transferred {
            Ok(_) => Ok(done),
            Err(refusal) => Err(ErrorCode::Transfer(refusal)),
        },
    }
}

/// The transfer that an operation which moves funds asks for, or the
/// error with which it fails before asking.
pub open spec fn requested<R>(outcome: Outcome<(R, TransferRequest)>) -> Result<
    TransferRequest,
    ErrorCode,
> {
    match outcome {
        Err(e) => Err(e),
        Ok(((_, request), _)) => Ok(request),
    }
}

/// The outcome without the transfer that was asked for.
pub open spec fn granted<R>(outcome: Outcome<(R, TransferRequest)>) -> Outcome<R> {
    match outcome {
        Err(e) => Err(e),
        Ok(((value, _), next)) => Ok((value, next)),
    }
}

/// A maker that exists stays, owned as before, and a verified one stays
/// as it is.
pub open spec fn maker_kept(before: Option<Maker>, after: Option<Maker>) -> bool {
    before matches Some(m) ==> (after matches Some(n) && n.authority == m.authority && (
    m.verified_status == MakerStatus::Verified ==> n == m))
}

/// An offer that exists stays, the same but for its status, and one that
/// is accepted or canceled stays as it is.
pub open spec fn offer_kept(before: Option<Offer>, after: Option<Offer>) -> bool {
    before matches Some(o) ==> (after matches Some(n) && with_status(n, o.status) == o && (o.status
        != OfferStatus::Pending ==> n == o))
}

/// The state that an outcome leaves: the one it names, or the one before
/// where the operation failed.
pub open spec fn state_after<R>(outcome: Outcome<R>, before: State) -> State {
    match outcome {
        Ok((_, next)) => next,
        Err(_) => before,
    }
}

/// Whether a call that returned `result` and took the ledger from
/// `before` to `after` did what `outcome` says.
pub open spec fn agrees<R>(outcome: Outcome<R>, result: Result<R, ErrorCode>, before: State, after: State) -> bool {
    match outcome {
        Ok((value, next)) => result == Ok::<R, ErrorCode>(value) && after =~= next,
        Err(e) => result == Err::<R, ErrorCode>(e) && after =~= before,
    }
}

impl State {
    /// The ledger of a program without records.
    pub open spec fn empty(program_id: Address, custody: Option<(Address, u8)>) -> State {
        State {
            program_id,
            custody,
            pools: Seq::empty(),
            makers: Seq::empty(),
            contributions: Seq::empty(),
            transactions: Seq::empty(),
            offers: Seq::empty(),
        }
    }

    /// What holds of every ledger: within each kind no address is taken
    /// twice, every contribution is addressed to a pool that exists, and
    /// no pool holds less than what has been contributed to it.
    pub open spec fn wf(self) -> bool {
        &&& distinct_keys(self.pools)
        &&& distinct_keys(self.makers)
        &&& distinct_keys(self.contributions)
        &&& distinct_keys(self.transactions)
        &&& distinct_keys(self.offers)
        &&& forall|i: int|
            0 <= i < self.contributions.len() ==> has_key(
                self.pools,
                (#[trigger] self.contributions[i]).value.pool,
            )
        &&& forall|i: int|
            0 <= i < self.pools.len() ==> contributed(
                self.contributions,
                (#[trigger] self.pools[i]).key,
            ) <= self.pools[i].value.total_liquidity
    }

    /// The liquidity on a pool's books beyond what has been contributed
    /// to it: what the pool was created with.
    pub open spec fn surplus(self, pool: Address) -> int {
        lookup(self.pools, pool)->0.total_liquidity - contributed(self.contributions, pool)
    }

    /// The pool exists, and its liquidity is exactly what has been
    /// contributed to it.
    pub open spec fn balanced(self, pool: Address) -> bool {
        has_key(self.pools, pool) && self.surplus(pool) == 0
    }

    /// What every operation keeps, from the state before it to the state
    /// `next` after it: the program and its authority stay; a pool stays,
    /// and its liquidity moves only with what is contributed to it; a
    /// verified maker stays as it is; an offer stays, and one that is
    /// accepted or canceled stays as it is.
    pub open spec fn follows(self, next: State) -> bool {
        &&& next.program_id == self.program_id
        &&& next.custody == self.custody
        &&& forall|pool: Address| #[trigger]
            has_key(self.pools, pool) ==> has_key(next.pools, pool) && next.surplus(pool)
                == self.surplus(pool)
        &&& forall|maker: Address|
            maker_kept(#[trigger] lookup(self.makers, maker), lookup(next.makers, maker))
        &&& forall|offer: Address|
            offer_kept(#[trigger] lookup(self.offers, offer), lookup(next.offers, offer))
    }

    /// `create_pool`, given the address that was derived for the currency.
    pub open spec fn create_pool(
        self,
        derived: Option<(Address, u8)>,
        currency: [u8; 3],
        initial_liquidity: u64,
    ) -> Outcome<Address> {
        match derived {
            None => Err(ErrorCode::AddressDerivationExhausted),
            Some((address, bump)) => if has_key(self.pools, address) {
                Err(ErrorCode::DuplicatePool)
            } else {
                Ok(
                    (
                        address,
                        State {
                            pools: inserted(
                                self.pools,
                                address,
                                created_pool(currency, initial_liquidity, bump),
                            ),
                            ..self
                        },
                    ),
                )
            },
        }
    }

    /// `create_maker`, given the address that was derived for the
    /// authority.
    pub open spec fn create_maker(self, derived: Option<(Address, u8)>, authority: Address) -> Outcome<
        Address,
    > {
        match derived {
            None => Err(ErrorCode::AddressDerivationExhausted),
            Some((address, bump)) => if has_key(self.makers, address) {
                Err(ErrorCode::DuplicateMaker)
            } else {
                Ok(
                    (
                        address,
                        State {
                            makers: inserted(self.makers, address, created_maker(authority, bump)),
                            ..self
                        },
                    ),
                )
            },
        }
    }

    /// `verify_maker`, given the address that was derived for the
    /// authority.
    pub open spec fn verify_maker(self, derived: Option<(Address, u8)>, authority: Address) -> Outcome<
        (),
    > {
        match derived {
            None => Err(ErrorCode::AddressDerivationExhausted),
            Some((address, bump)) => match lookup(self.makers, address) {
                None => Err(ErrorCode::AccountNotInitialized),
                Some(maker) => if maker.authority != authority {
                    Err(ErrorCode::ConstraintHasOne)
                } else {
                    Ok(
                        (
                            (),
                            State {
                                makers: replaced(
                                    self.makers,
                                    address,
                                    Maker {
                                        authority: maker.authority,
                                        verified_status: MakerStatus::Verified,
                                        bump: maker.bump,
                                    },
                                ),
                                ..self
                            },
                        ),
                    )
                },
            },
        }
    }

    /// `create_contribution`, given the address that was derived for the
    /// pool and the maker.
    pub open spec fn create_contribution(
        self,
        derived: Option<(Address, u8)>,
        pool: Address,
        maker: Address,
    ) -> Outcome<Address> {
        match derived {
            None => Err(ErrorCode::AddressDerivationExhausted),
            Some((address, bump)) => if has_key(self.contributions, address) {
                Err(ErrorCode::DuplicateContribution)
            } else if !has_key(self.pools, pool) || !has_key(self.makers, maker) {
                Err(ErrorCode::AccountNotInitialized)
            } else {
                Ok(
                    (
                        address,
                        State {
                            contributions: inserted(
                                self.contributions,
                                address,
                                created_contribution(pool, maker, bump),
                            ),
                            ..self
                        },
                    ),
                )
            },
        }
    }

    /// `create_transaction`, given the address that was derived for the
    /// pool and the maker.
    pub open spec fn create_transaction(
        self,
        derived: Option<(Address, u8)>,
        pool: Address,
        maker: Address,
    ) -> Outcome<Address> {
        match derived {
            None => Err(ErrorCode::AddressDerivationExhausted),
            Some((address, bump)) => if has_key(self.transactions, address) {
                Err(ErrorCode::DuplicateTransaction)
            } else if !has_key(self.pools, pool) || !has_key(self.makers, maker) {
                Err(ErrorCode::AccountNotInitialized)
            } else {
                Ok(
                    (
                        address,
                        State {
                            transactions: inserted(
                                self.transactions,
                                address,
                                created_transaction(pool, maker, bump),
                            ),
                            ..self
                        },
                    ),
                )
            },
        }
    }

    /// The records that a deposit or a withdrawal of `maker` on `pool`
    /// works on, given the address that was derived for the pair's
    /// transaction record.
    ///
    /// `AccountNotInitialized` where the pool, the maker, the contribution
    /// or the transaction record does not exist; `ConstraintHasOne` where
    /// the contribution is not that of `maker` to `pool`;
    /// `AddressDerivationExhausted` where no address was found.
    pub open spec fn load(
        self,
        derived: Option<(Address, u8)>,
        pool: Address,
        maker: Address,
        contribution: Address,
    ) -> Result<Loaded, ErrorCode> {
        match (
            lookup(self.pools, pool),
            lookup(self.makers, maker),
            lookup(self.contributions, contribution),
        ) {
            (Some(p), Some(m), Some(c)) => if c.pool != pool || c.maker != maker {
                Err(ErrorCode::ConstraintHasOne)
            } else {
                match derived {
                    None => Err(ErrorCode::AddressDerivationExhausted),
                    Some((transaction_key, bump)) => match lookup(
                        self.transactions,
                        transaction_key,
                    ) {
                        None => Err(ErrorCode::AccountNotInitialized),
                        Some(t) => Ok(
                            Loaded {
                                pool: p,
                                maker: m,
                                contribution: c,
                                transaction: t,
                                transaction_key,
                                bump,
                            },
                        ),
                    },
                }
            },
            _ => Err(ErrorCode::AccountNotInitialized),
        }
    }

    /// The state with the pool, the contribution and the transaction
    /// record overwritten in place.
    pub open spec fn store(
        self,
        pool: Address,
        contribution: Address,
        transaction_key: Address,
        p: Pool,
        c: PoolContribution,
        t: Transaction,
    ) -> State {
        State {
            pools: replaced(self.pools, pool, p),
            contributions: replaced(self.contributions, contribution, c),
            transactions: replaced(self.transactions, transaction_key, t),
            ..self
        }
    }

    /// `deposit`, given the address that was derived for the pair's
    /// transaction record.
    pub open spec fn deposit(
        self,
        derived: Option<(Address, u8)>,
        pool: Address,
        maker: Address,
        contribution: Address,
        amount: u64,
    ) -> Outcome<()> {
        match self.load(derived, pool, maker, contribution) {
            Err(e) => Err(e),
            Ok(l) => match deposit_outcome(
                Deposit {
                    pool: l.pool,
                    maker: l.maker,
                    contribution: l.contribution,
                    transaction: l.transaction,
                    bump: l.bump,
                },
                amount,
            ) {
                Err(e) => Err(e),
                Ok(after) => Ok(
                    (
                        (),
                        self.store(
                            pool,
                            contribution,
                            l.transaction_key,
                            after.pool,
                            after.contribution,
                            after.transaction,
                        ),
                    ),
                ),
            },
        }
    }

    /// `withdraw`, given the address that was derived for the pair's
    /// transaction record.
    pub open spec fn withdraw(
        self,
        derived: Option<(Address, u8)>,
        pool: Address,
        maker: Address,
        contribution: Address,
        amount: u64,
    ) -> Outcome<()> {
        match self.load(derived, pool, maker, contribution) {
            Err(e) => Err(e),
            Ok(l) => match withdraw_outcome(
                Withdraw {
                    pool: l.pool,
                    maker: l.maker,
                    contribution: l.contribution,
                    transaction: l.transaction,
                    bump: l.bump,
                },
                amount,
            ) {
                Err(e) => Err(e),
                Ok(after) => Ok(
                    (
                        (),
                        self.store(
                            pool,
                            contribution,
                            l.transaction_key,
                            after.pool,
                            after.contribution,
                            after.transaction,
                        ),
                    ),
                ),
            },
        }
    }

    /// `deposit_funds`, given the address that was derived for the
    /// depositor and the nonce: the offer's address with the transfer that
    /// locks the funds, and the state with the offer in it.
    pub open spec fn deposit_funds(
        self,
        derived: Option<(Address, u8)>,
        depositor: Address,
        amount: u64,
        exchange_rate: u64,
        nonce: u64,
    ) -> Outcome<(Address, TransferRequest)> {
        match (derived, self.custody) {
            (Some((address, bump)), Some((vault, _))) => if has_key(self.offers, address) {
                Err(ErrorCode::DuplicateOffer)
            } else {
                Ok(
                    (
                        (address, lock_request(depositor, vault, amount)),
                        State {
                            offers: inserted(
                                self.offers,
                                address,
                                created_offer(depositor, amount, exchange_rate, nonce, bump),
                            ),
                            ..self
                        },
                    ),
                )
            },
            _ => Err(ErrorCode::AddressDerivationExhausted),
        }
    }

    /// `accept_offer`: the transfer that pays the counterparty, and the
    /// state with the offer accepted.
    pub open spec fn accept_offer(self, offer: Address, counterparty: Address) -> Outcome<
        ((), TransferRequest),
    > {
        match (lookup(self.offers, offer), self.custody) {
            (None, _) => Err(ErrorCode::AccountNotInitialized),
            (Some(_), None) => Err(ErrorCode::AddressDerivationExhausted),
            (Some(found), Some((vault, vault_bump))) => match accept_outcome(
                AcceptOffer { offer: found, counterparty, custody: vault, custody_bump: vault_bump },
            ) {
                Err(e) => Err(e),
                Ok((after, request)) => Ok(
                    (
                        ((), request),
                        State { offers: replaced(self.offers, offer, after.offer), ..self },
                    ),
                ),
            },
        }
    }

    /// `cancel_offer`: the transfer that pays the depositor back, and the
    /// state with the offer canceled.
    pub open spec fn cancel_offer(self, offer: Address) -> Outcome<((), TransferRequest)> {
        match (lookup(self.offers, offer), self.custody) {
            (None, _) => Err(ErrorCode::AccountNotInitialized),
            (Some(_), None) => Err(ErrorCode::AddressDerivationExhausted),
            (Some(found), Some((vault, vault_bump))) => match cancel_outcome(
                CancelOffer { offer: found, custody: vault, custody_bump: vault_bump },
            ) {
                Err(e) => Err(e),
                Ok((after, request)) => Ok(
                    (
                        ((), request),
                        State { offers: replaced(self.offers, offer, after.offer), ..self },
                    ),
                ),
            },
        }
    }
}

/// Nothing has been contributed to a pool that no contribution names.
pub proof fn lemma_contributed_none(contributions: Seq<Entry<PoolContribution>>, pool: Address)
    requires
        forall|i: int| 0 <= i < contributions.len() ==> (#[trigger] contributions[i]).value.pool != pool,
    ensures
        contributed(contributions, pool) == 0,
    decreases contributions.len(),
{
    if contributions.len() > 0 {
        let rest = contributions.drop_last();
        assert forall|i: int| 0 <= i < rest.len() implies (#[trigger] rest[i]).value.pool != pool by {
            assert(rest[i] == contributions[i]);
        }
        lemma_contributed_none(rest, pool);
        assert(contributions.last() == contributions[contributions.len() - 1]);
    }
}

/// A new contribution adds its share to what has been contributed to a
/// pool.
pub proof fn lemma_contributed_inserted(
    contributions: Seq<Entry<PoolContribution>>,
    key: Address,
    value: PoolContribution,
    pool: Address,
)
    ensures
        contributed(inserted(contributions, key, value), pool) == contributed(contributions, pool)
            + share(value, pool),
{
    let after = inserted(contributions, key, value);
    assert(after.drop_last() =~= contributions);
    assert(after.last() == Entry { key, value });
}

/// Overwriting one contribution changes what has been contributed to a
/// pool by the difference of the two shares.
pub proof fn lemma_contributed_update(
    contributions: Seq<Entry<PoolContribution>>,
    i: int,
    entry: Entry<PoolContribution>,
    pool: Address,
)
    requires
        0 <= i < contributions.len(),
    ensures
        contributed(contributions.update(i, entry), pool) + share(contributions[i].value, pool)
            == contributed(contributions, pool) + share(entry.value, pool),
    decreases contributions.len(),
{
    let after = contributions.update(i, entry);
    if i == contributions.len() - 1 {
        assert(after.drop_last() =~= contributions.drop_last());
    } else {
        assert(after.drop_last() =~= contributions.drop_last().update(i, entry));
        lemma_contributed_update(contributions.drop_last(), i, entry, pool);
    }
}

/// What has been contributed to a pool is at least any one share of it.
pub proof fn lemma_contributed_bounds(
    contributions: Seq<Entry<PoolContribution>>,
    i: int,
    pool: Address,
)
    requires
        0 <= i < contributions.len(),
    ensures
        share(contributions[i].value, pool) <= contributed(contributions, pool),
    decreases contributions.len(),
{
    if i < contributions.len() - 1 {
        lemma_contributed_bounds(contributions.drop_last(), i, pool);
    }
}

/// Moving `delta` into a pool's liquidity and into one contribution to
/// that pool keeps the ledger well formed, shifts what has been
/// contributed to that pool by `delta`, and leaves every other pool and
/// every other sum as it was.
pub proof fn lemma_store(
    s: State,
    pool: Address,
    contribution: Address,
    transaction_key: Address,
    p: Pool,
    c: PoolContribution,
    t: Transaction,
    delta: int,
)
    requires
        s.wf(),
        has_key(s.pools, pool),
        has_key(s.contributions, contribution),
        has_key(s.transactions, transaction_key),
        lookup(s.contributions, contribution)->0.pool == pool,
        c.pool == pool,
        p.total_liquidity == lookup(s.pools, pool)->0.total_liquidity + delta,
        c.amount == lookup(s.contributions, contribution)->0.amount + delta,
    ensures
        s.store(pool, contribution, transaction_key, p, c, t).wf(),
        forall|x: Address|
            #![trigger contributed(s.store(pool, contribution, transaction_key, p, c, t).contributions, x)]
            contributed(s.store(pool, contribution, transaction_key, p, c, t).contributions, x)
                == contributed(s.contributions, x) + (if x == pool {
                delta
            } else {
                0
            }),
        lookup(s.store(pool, contribution, transaction_key, p, c, t).pools, pool) == Some(p),
        forall|x: Address|
            x != pool ==> #[trigger] lookup(
                s.store(pool, contribution, transaction_key, p, c, t).pools,
                x,
            ) == lookup(s.pools, x),
{
    let next = s.store(pool, contribution, transaction_key, p, c, t);
    lemma_replaced(s.pools, pool, p);
    lemma_replaced(s.contributions, contribution, c);
    lemma_replaced(s.transactions, transaction_key, t);
    let ci = position(s.contributions, contribution);
    let c0 = s.contributions[ci].value;
    assert forall|x: Address|
        #![trigger contributed(next.contributions, x)]
        contributed(next.contributions, x) == contributed(s.contributions, x) + (if x == pool {
            delta
        } else {
            0
        }) by {
        lemma_contributed_update(s.contributions, ci, Entry { key: contribution, value: c }, x);
    }
    assert forall|i: int| 0 <= i < next.contributions.len() implies has_key(
        next.pools,
        (#[trigger] next.contributions[i]).value.pool,
    ) by {
        if i != ci {
            assert(next.contributions[i] == s.contributions[i]);
            assert(has_key(s.pools, s.contributions[i].value.pool));
        }
    }
    let pi = position(s.pools, pool);
    assert forall|i: int| 0 <= i < next.pools.len() implies contributed(
        next.contributions,
        (#[trigger] next.pools[i]).key,
    ) <= next.pools[i].value.total_liquidity by {
        assert(next.pools[i].key == s.pools[i].key);
        assert(contributed(s.contributions, s.pools[i].key) <= s.pools[i].value.total_liquidity);
        if i != pi {
            if s.pools[i].key == pool {
                lemma_position_unique(s.pools, pool, i);
            }
        }
    }
}

/// The state in which `delta` has moved into a pool and into one
/// contribution to it follows the state before.
pub proof fn lemma_store_follows(
    s: State,
    pool: Address,
    contribution: Address,
    transaction_key: Address,
    p: Pool,
    c: PoolContribution,
    t: Transaction,
    delta: int,
)
    requires
        s.wf(),
        has_key(s.pools, pool),
        has_key(s.contributions, contribution),
        has_key(s.transactions, transaction_key),
        lookup(s.contributions, contribution)->0.pool == pool,
        c.pool == pool,
        p.total_liquidity == lookup(s.pools, pool)->0.total_liquidity + delta,
        c.amount == lookup(s.contributions, contribution)->0.amount + delta,
    ensures
        s.follows(s.store(pool, contribution, transaction_key, p, c, t)),
{
    let next = s.store(pool, contribution, transaction_key, p, c, t);
    lemma_store(s, pool, contribution, transaction_key, p, c, t, delta);
    lemma_replaced(s.pools, pool, p);
    assert forall|x: Address| #[trigger] has_key(s.pools, x) implies has_key(next.pools, x)
        && next.surplus(x) == s.surplus(x) by {
        assert(contributed(next.contributions, x) == contributed(s.contributions, x) + (if x
            == pool {
            delta
        } else {
            0
        }));
        if x != pool {
            assert(lookup(next.pools, x) == lookup(s.pools, x));
        }
    }
}

/// Every state follows itself.
pub proof fn lemma_follows_itself(s: State)
    ensures
        s.follows(s),
{
}

/// What follows a state that follows `a` follows `a`.
pub proof fn lemma_follows_on(a: State, b: State, c: State)
    requires
        a.follows(b),
        b.follows(c),
    ensures
        a.follows(c),
{
    assert forall|pool: Address| #[trigger] has_key(a.pools, pool) implies has_key(c.pools, pool)
        && c.surplus(pool) == a.surplus(pool) by {
        assert(has_key(b.pools, pool));
    }
    assert forall|maker: Address|
        maker_kept(#[trigger] lookup(a.makers, maker), lookup(c.makers, maker)) by {
        assert(maker_kept(lookup(a.makers, maker), lookup(b.makers, maker)));
        assert(maker_kept(lookup(b.makers, maker), lookup(c.makers, maker)));
    }
    assert forall|offer: Address|
        offer_kept(#[trigger] lookup(a.offers, offer), lookup(c.offers, offer)) by {
        assert(offer_kept(lookup(a.offers, offer), lookup(b.offers, offer)));
        assert(offer_kept(lookup(b.offers, offer), lookup(c.offers, offer)));
    }
}

/// `create_pool` keeps the ledger well formed, and its result follows.
pub proof fn lemma_create_pool(
    s: State,
    derived: Option<(Address, u8)>,
    currency: [u8; 3],
    initial_liquidity: u64,
)
    requires
        s.wf(),
    ensures
        state_after(s.create_pool(derived, currency, initial_liquidity), s).wf(),
        s.follows(state_after(s.create_pool(derived, currency, initial_liquidity), s)),
{
    if let Ok((address, next)) = s.create_pool(derived, currency, initial_liquidity) {
        let pool = created_pool(currency, initial_liquidity, (derived->0).1);
        lemma_inserted(s.pools, address, pool);
        assert forall|i: int| 0 <= i < s.contributions.len() implies (
        #[trigger] s.contributions[i]).value.pool != address by {
            assert(has_key(s.pools, s.contributions[i].value.pool));
        }
        lemma_contributed_none(s.contributions, address);
        assert forall|i: int| 0 <= i < next.pools.len() implies contributed(
            next.contributions,
            (#[trigger] next.pools[i]).key,
        ) <= next.pools[i].value.total_liquidity by {
            if i < s.pools.len() {
                assert(next.pools[i] == s.pools[i]);
            }
        }
    }
}

/// `create_maker` keeps the ledger well formed, and its result follows.
pub proof fn lemma_create_maker(s: State, derived: Option<(Address, u8)>, authority: Address)
    requires
        s.wf(),
    ensures
        state_after(s.create_maker(derived, authority), s).wf(),
        s.follows(state_after(s.create_maker(derived, authority), s)),
{
    if let Ok((address, next)) = s.create_maker(derived, authority) {
        lemma_inserted(s.makers, address, created_maker(authority, (derived->0).1));
    }
}

/// `verify_maker` keeps the ledger well formed, and its result follows.
pub proof fn lemma_verify_maker(s: State, derived: Option<(Address, u8)>, authority: Address)
    requires
        s.wf(),
    ensures
        state_after(s.verify_maker(derived, authority), s).wf(),
        s.follows(state_after(s.verify_maker(derived, authority), s)),
{
    if let Ok((_, next)) = s.verify_maker(derived, authority) {
        let address = (derived->0).0;
        let maker = lookup(s.makers, address)->0;
        lemma_replaced(
            s.makers,
            address,
            Maker {
                authority: maker.authority,
                verified_status: MakerStatus::Verified,
                bump: maker.bump,
            },
        );
    }
}

/// `create_contribution` keeps the ledger well formed, and its result
/// follows.
pub proof fn lemma_create_contribution(
    s: State,
    derived: Option<(Address, u8)>,
    pool: Address,
    maker: Address,
)
    requires
        s.wf(),
    ensures
        state_after(s.create_contribution(derived, pool, maker), s).wf(),
        s.follows(state_after(s.create_contribution(derived, pool, maker), s)),
{
    if let Ok((address, next)) = s.create_contribution(derived, pool, maker) {
        let fresh = created_contribution(pool, maker, (derived->0).1);
        lemma_inserted(s.contributions, address, fresh);
        assert forall|x: Address|
            contributed(next.contributions, x) == #[trigger] contributed(s.contributions, x) by {
            lemma_contributed_inserted(s.contributions, address, fresh, x);
        }
        assert forall|i: int| 0 <= i < next.contributions.len() implies has_key(
            next.pools,
            (#[trigger] next.contributions[i]).value.pool,
        ) by {
            if i < s.contributions.len() {
                assert(next.contributions[i] == s.contributions[i]);
            }
        }
        assert forall|i: int| 0 <= i < next.pools.len() implies contributed(
            next.contributions,
            (#[trigger] next.pools[i]).key,
        ) <= next.pools[i].value.total_liquidity by {
            assert(contributed(next.contributions, s.pools[i].key) == contributed(
                s.contributions,
                s.pools[i].key,
            ));
        }
        assert forall|x: Address| #[trigger] has_key(s.pools, x) implies has_key(next.pools, x)
            && next.surplus(x) == s.surplus(x) by {
            assert(contributed(next.contributions, x) == contributed(s.contributions, x));
        }
    }
}

/// `create_transaction` keeps the ledger well formed, and its result
/// follows.
pub proof fn lemma_create_transaction(
    s: State,
    derived: Option<(Address, u8)>,
    pool: Address,
    maker: Address,
)
    requires
        s.wf(),
    ensures
        state_after(s.create_transaction(derived, pool, maker), s).wf(),
        s.follows(state_after(s.create_transaction(derived, pool, maker), s)),
{
    if let Ok((address, next)) = s.create_transaction(derived, pool, maker) {
        lemma_inserted(s.transactions, address, created_transaction(pool, maker, (derived->0).1));
    }
}

/// `deposit` keeps the ledger well formed, and its result follows.
pub proof fn lemma_deposit(
    s: State,
    derived: Option<(Address, u8)>,
    pool: Address,
    maker: Address,
    contribution: Address,
    amount: u64,
)
    requires
        s.wf(),
    ensures
        state_after(s.deposit(derived, pool, maker, contribution, amount), s).wf(),
        s.follows(state_after(s.deposit(derived, pool, maker, contribution, amount), s)),
{
    if let Ok((_, next)) = s.deposit(derived, pool, maker, contribution, amount) {
        let l = s.load(derived, pool, maker, contribution)->Ok_0;
        let after = deposit_outcome(
            Deposit {
                pool: l.pool,
                maker: l.maker,
                contribution: l.contribution,
                transaction: l.transaction,
                bump: l.bump,
            },
            amount,
        )->Ok_0;
        lemma_store(
            s,
            pool,
            contribution,
            l.transaction_key,
            after.pool,
            after.contribution,
            after.transaction,
            amount as int,
        );
        lemma_store_follows(
            s,
            pool,
            contribution,
            l.transaction_key,
            after.pool,
            after.contribution,
            after.transaction,
            amount as int,
        );
    }
}

/// `withdraw` keeps the ledger well formed, and its result follows.
pub proof fn lemma_withdraw(
    s: State,
    derived: Option<(Address, u8)>,
    pool: Address,
    maker: Address,
    contribution: Address,
    amount: u64,
)
    requires
        s.wf(),
    ensures
        state_after(s.withdraw(derived, pool, maker, contribution, amount), s).wf(),
        s.follows(state_after(s.withdraw(derived, pool, maker, contribution, amount), s)),
{
    if let Ok((_, next)) = s.withdraw(derived, pool, maker, contribution, amount) {
        let l = s.load(derived, pool, maker, contribution)->Ok_0;
        let after = withdraw_outcome(
            Withdraw {
                pool: l.pool,
                maker: l.maker,
                contribution: l.contribution,
                transaction: l.transaction,
                bump: l.bump,
            },
            amount,
        )->Ok_0;
        lemma_store(
            s,
            pool,
            contribution,
            l.transaction_key,
            after.pool,
            after.contribution,
            after.transaction,
            -(amount as int),
        );
        lemma_store_follows(
            s,
            pool,
            contribution,
            l.transaction_key,
            after.pool,
            after.contribution,
            after.transaction,
            -(amount as int),
        );
    }
}

/// `deposit_funds` keeps the ledger well formed, and its result follows.
pub proof fn lemma_deposit_funds(
    s: State,
    derived: Option<(Address, u8)>,
    depositor: Address,
    amount: u64,
    exchange_rate: u64,
    nonce: u64,
)
    requires
        s.wf(),
    ensures
        state_after(s.deposit_funds(derived, depositor, amount, exchange_rate, nonce), s).wf(),
        s.follows(
            state_after(s.deposit_funds(derived, depositor, amount, exchange_rate, nonce), s),
        ),
{
    if let Ok(((address, _), next)) = s.deposit_funds(
        derived,
        depositor,
        amount,
        exchange_rate,
        nonce,
    ) {
        lemma_inserted(
            s.offers,
            address,
            created_offer(depositor, amount, exchange_rate, nonce, (derived->0).1),
        );
    }
}

/// `accept_offer` keeps the ledger well formed, and its result follows.
pub proof fn lemma_accept_offer(s: State, offer: Address, counterparty: Address)
    requires
        s.wf(),
    ensures
        state_after(s.accept_offer(offer, counterparty), s).wf(),
        s.follows(state_after(s.accept_offer(offer, counterparty), s)),
{
    if let Ok((_, next)) = s.accept_offer(offer, counterparty) {
        let found = lookup(s.offers, offer)->0;
        lemma_replaced(s.offers, offer, with_status(found, OfferStatus::Accepted));
    }
}

/// `cancel_offer` keeps the ledger well formed, and its result follows.
pub proof fn lemma_cancel_offer(s: State, offer: Address)
    requires
        s.wf(),
    ensures
        state_after(s.cancel_offer(offer), s).wf(),
        s.follows(state_after(s.cancel_offer(offer), s)),
{
    if let Ok((_, next)) = s.cancel_offer(offer) {
        let found = lookup(s.offers, offer)->0;
        lemma_replaced(s.offers, offer, with_status(found, OfferStatus::Canceled));
    }
}

/// What has been contributed to a pool by the oldest `n` contributions is
/// no more than what has been contributed to it by all.
pub proof fn lemma_contributed_prefix(
    contributions: Seq<Entry<PoolContribution>>,
    n: int,
    pool: Address,
)
    requires
        0 <= n <= contributions.len(),
    ensures
        contributed(contributions.take(n), pool) <= contributed(contributions, pool),
    decreases contributions.len(),
{
    if n == contributions.len() {
        assert(contributions.take(n) =~= contributions);
    } else {
        assert(contributions.take(n) =~= contributions.drop_last().take(n));
        lemma_contributed_prefix(contributions.drop_last(), n, pool);
    }
}

} // verus!
