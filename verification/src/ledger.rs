//! The ledger: every record of one program, by address.
//!
//! The ledger finds the records that an operation names, hands them to the
//! operation, and puts back what the operation wrote, all or nothing. A
//! pool, a maker, a contribution, a transaction record and an offer are
//! kept apart by kind; within a kind, one address holds one record.

use crate::address::{
    contribution_address, custody_authority, derive_contribution_address,
    derive_custody_authority, derive_maker_address, derive_offer_address, derive_pool_address,
    derive_transaction_address, maker_address, offer_address, pool_address, transaction_address,
    Address,
};
use crate::custody::TransferRequest;
use crate::instructions::{
    accept_offer, cancel_offer, create_contribution, create_maker, create_pool,
    create_transaction, deposit, deposit_funds, verify_maker, withdraw, AcceptOffer, CancelOffer,
    CreateContribution, CreateMaker, CreatePool, CreateTransaction, Deposit, DepositFunds,
    VerifyMaker, Withdraw,
};
use crate::model::{
    agrees, contributed, granted, lemma_accept_offer, lemma_cancel_offer, lemma_contributed_none,
    lemma_contributed_prefix, lemma_create_contribution, lemma_create_maker, lemma_create_pool,
    lemma_create_transaction, lemma_deposit, lemma_deposit_funds, lemma_verify_maker,
    lemma_withdraw, requested, settled, Loaded, State,
};
use crate::state::{
    ErrorCode, Maker, MakerStatus, Offer, OfferStatus, Pool, PoolContribution, PoolStatus,
    Transaction, TransactionStatus, TransactionType, TransferError,
};
use crate::table::{has_key, inserted, lookup, position, replaced, Table};
use vstd::prelude::*;

verus! {

/// The records of one program.
pub struct Ledger {
    program_id: Address,
    custody: Option<(Address, u8)>,
    pools: Table<Pool>,
    makers: Table<Maker>,
    contributions: Table<PoolContribution>,
    transactions: Table<Transaction>,
    offers: Table<Offer>,
}

impl Ledger {
    /// The ledger as a value.
    pub closed spec fn view(&self) -> State {
        State {
            program_id: self.program_id,
            custody: self.custody,
            pools: self.pools@,
            makers: self.makers@,
            contributions: self.contributions@,
            transactions: self.transactions@,
            offers: self.offers@,
        }
    }

    /// What holds of every ledger that this library hands out.
    pub open spec fn wf(&self) -> bool {
        self@.wf()
    }

    /// The ledger of `program_id` without records, given the protocol
    /// authority that has been derived for the program.
    pub fn with_custody(program_id: Address, custody: Option<(Address, u8)>) -> (r: Ledger)
        ensures
            r.wf(),
            r@ == State::empty(program_id, custody),
    {
        Ledger {
            program_id,
            custody,
            pools: Table::new(),
            makers: Table::new(),
            contributions: Table::new(),
            transactions: Table::new(),
            offers: Table::new(),
        }
    }

    /// The ledger of `program_id` without records. The protocol-owned
    /// transfer authority is derived here, once, from the custody tag.
    pub fn new(program_id: Address) -> (r: Ledger)
        ensures
            r.wf(),
            r@ == State::empty(program_id, custody_authority(program_id)),
    {
        let custody = derive_custody_authority(&program_id);
        Ledger::with_custody(program_id, custody)
    }

    /// The protocol-owned transfer authority with its bump, if one was
    /// found.
    pub fn custody(&self) -> (r: Option<(Address, u8)>)
        ensures
            r == self@.custody,
    {
        self.custody
    }

    /// The sum of the amounts of all contributions addressed to `pool`.
    pub fn contributed(&self, pool: &Address) -> (r: u64)
        requires
            self.wf(),
        ensures
            r == contributed(self@.contributions, *pool),
    {
        if !self.pools.contains(pool) {
            proof {
                let all = self@.contributions;
                assert forall|i: int| 0 <= i < all.len() implies (#[trigger] all[i]).value.pool
                    != *pool by {
                    assert(has_key(self@.pools, all[i].value.pool));
                }
                lemma_contributed_none(all, *pool);
            }
            return 0;
        }
        proof {
            let at = position(self@.pools, *pool);
            assert(self@.pools[at].key == *pool);
        }
        let n = self.contributions.len();
        let mut sum: u64 = 0;
        let mut i: usize = 0;
        while i < n
            invariant
                i <= n,
                n == self.contributions@.len(),
                sum == contributed(self.contributions@.take(i as int), *pool),
                contributed(self.contributions@, *pool) <= u64::MAX,
            decreases n - i,
        {
            let entry = self.contributions.at(i);
            proof {
                let all = self.contributions@;
                assert(all.take(i + 1).drop_last() =~= all.take(i as int));
                assert(all.take(i + 1).last() == all[i as int]);
                lemma_contributed_prefix(all, i + 1, *pool);
            }
            if entry.value.pool == *pool {
                sum = sum + entry.value.amount;
            }
            i += 1;
        }
        proof {
            assert(self.contributions@.take(n as int) =~= self.contributions@);
        }
        sum
    }

    /// The program that the ledger belongs to.
    pub fn program_id(&self) -> (r: Address)
        ensures
            r == self@.program_id,
    {
        self.program_id
    }

    /// The pool at `address`, if any.
    pub fn pool(&self, address: &Address) -> (r: Option<Pool>)
        requires
            self.wf(),
        ensures
            r == lookup(self@.pools, *address),
    {
        self.pools.get(address)
    }

    /// The maker at `address`, if any.
    pub fn maker(&self, address: &Address) -> (r: Option<Maker>)
        requires
            self.wf(),
        ensures
            r == lookup(self@.makers, *address),
    {
        self.makers.get(address)
    }

    /// The contribution at `address`, if any.
    pub fn contribution(&self, address: &Address) -> (r: Option<PoolContribution>)
        requires
            self.wf(),
        ensures
            r == lookup(self@.contributions, *address),
    {
        self.contributions.get(address)
    }

    /// The transaction record at `address`, if any.
    pub fn transaction(&self, address: &Address) -> (r: Option<Transaction>)
        requires
            self.wf(),
        ensures
            r == lookup(self@.transactions, *address),
    {
        self.transactions.get(address)
    }

    /// The offer at `address`, if any.
    pub fn offer(&self, address: &Address) -> (r: Option<Offer>)
        requires
            self.wf(),
        ensures
            r == lookup(self@.offers, *address),
    {
        self.offers.get(address)
    }

    /// Creates the pool of `currency` at an address that has been derived
    /// for it, with the given liquidity on its books.
    ///
    /// Fails with `AddressDerivationExhausted` where no address was found,
    /// and with `DuplicatePool` where a pool lives at the address.
    pub fn create_pool_at(
        &mut self,
        derived: Option<(Address, u8)>,
        currency: [u8; 3],
        initial_liquidity: u64,
    ) -> (result: Result<Address, ErrorCode>)
        requires
            old(self).wf(),
        ensures
            final(self).wf(),
            old(self)@.follows(final(self)@),
            agrees(
                old(self)@.create_pool(derived, currency, initial_liquidity),
                result,
                old(self)@,
                final(self)@,
            ),
    {
        let (address, bump) = match derived {
            Some(found) => found,
            None => {
                return Err(ErrorCode::AddressDerivationExhausted);
            },
        };
        if self.pools.contains(&address) {
            return Err(ErrorCode::DuplicatePool);
        }
        let mut ctx = CreatePool {
            pool: Pool { currency: [0, 0, 0], total_liquidity: 0, status: PoolStatus::Active, bump: 0 },
            bump,
        };
        let _ = create_pool(&mut ctx, currency, initial_liquidity);
        proof {
            lemma_create_pool(self@, derived, currency, initial_liquidity);
        }
        self.pools.insert(address, ctx.pool);
        Ok(address)
    }

    /// Creates the pool of `currency` at the address derived from the pool
    /// tag and the currency code, with the given liquidity on its books.
    /// No funds move for it.
    ///
    /// Fails with `AddressDerivationExhausted` where no address can be
    /// derived, and with `DuplicatePool` where the pool exists.
    pub fn create_pool(&mut self, currency: [u8; 3], initial_liquidity: u64) -> (result: Result<
        Address,
        ErrorCode,
    >)
        requires
            old(self).wf(),
        ensures
            final(self).wf(),
            old(self)@.follows(final(self)@),
            agrees(
                old(self)@.create_pool(
                    pool_address(old(self)@.program_id, currency),
                    currency,
                    initial_liquidity,
                ),
                result,
                old(self)@,
                final(self)@,
            ),
    {
        let derived = derive_pool_address(&self.program_id, &currency);
        self.create_pool_at(derived, currency, initial_liquidity)
    }

    /// Registers the maker of `authority` at an address that has been
    /// derived for it, `Pending`.
    ///
    /// Fails with `AddressDerivationExhausted` where no address was found,
    /// and with `DuplicateMaker` where a maker lives at the address.
    pub fn create_maker_at(&mut self, derived: Option<(Address, u8)>, authority: Address) -> (result:
        Result<Address, ErrorCode>)
        requires
            old(self).wf(),
        ensures
            final(self).wf(),
            old(self)@.follows(final(self)@),
            agrees(old(self)@.create_maker(derived, authority), result, old(self)@, final(self)@),
    {
        let (address, bump) = match derived {
            Some(found) => found,
            None => {
                return Err(ErrorCode::AddressDerivationExhausted);
            },
        };
        if self.makers.contains(&address) {
            return Err(ErrorCode::DuplicateMaker);
        }
        let mut ctx = CreateMaker {
            maker: Maker { authority, verified_status: MakerStatus::Pending, bump: 0 },
            authority,
            bump,
        };
        let _ = create_maker(&mut ctx);
        proof {
            lemma_create_maker(self@, derived, authority);
        }
        self.makers.insert(address, ctx.maker);
        Ok(address)
    }

    /// Registers the maker of `authority`, `Pending`, at the address
    /// derived from the maker tag and the authority.
    ///
    /// Fails with `AddressDerivationExhausted` where no address can be
    /// derived, and with `DuplicateMaker` where the maker exists.
    pub fn create_maker(&mut self, authority: Address) -> (result: Result<Address, ErrorCode>)
        requires
            old(self).wf(),
        ensures
            final(self).wf(),
            old(self)@.follows(final(self)@),
            agrees(
                old(self)@.create_maker(maker_address(old(self)@.program_id, authority), authority),
                result,
                old(self)@,
                final(self)@,
            ),
    {
        let derived = derive_maker_address(&self.program_id, &authority);
        self.create_maker_at(derived, authority)
    }

    /// Marks the maker at an address that has been derived for
    /// `authority` as `Verified`.
    ///
    /// Fails with `AddressDerivationExhausted` where no address was found,
    /// with `AccountNotInitialized` where no maker lives at it, and with
    /// `ConstraintHasOne` where the maker there is owned by another
    /// authority.
    pub fn verify_maker_at(&mut self, derived: Option<(Address, u8)>, authority: Address) -> (result:
        Result<(), ErrorCode>)
        requires
            old(self).wf(),
        ensures
            final(self).wf(),
            old(self)@.follows(final(self)@),
            agrees(old(self)@.verify_maker(derived, authority), result, old(self)@, final(self)@),
    {
        let address = match derived {
            Some((address, _)) => address,
            None => {
                return Err(ErrorCode::AddressDerivationExhausted);
            },
        };
        let maker = match self.makers.get(&address) {
            Some(maker) => maker,
            None => {
                return Err(ErrorCode::AccountNotInitialized);
            },
        };
        if maker.authority != authority {
            return Err(ErrorCode::ConstraintHasOne);
        }
        let mut ctx = VerifyMaker { maker, authority };
        let _ = verify_maker(&mut ctx);
        proof {
            lemma_verify_maker(self@, derived, authority);
        }
        self.makers.update(address, ctx.maker);
        Ok(())
    }

    /// Marks the maker of `authority` as `Verified`. The maker is found at
    /// the address derived from the authority, so an authority reaches no
    /// maker but its own.
    ///
    /// Fails with `AddressDerivationExhausted` where no address can be
    /// derived, with `AccountNotInitialized` where the authority has
    /// registered no maker, and with `ConstraintHasOne` where the maker at
    /// that address is owned by another authority.
    pub fn verify_maker(&mut self, authority: Address) -> (result: Result<(), ErrorCode>)
        requires
            old(self).wf(),
        ensures
            final(self).wf(),
            old(self)@.follows(final(self)@),
            agrees(
                old(self)@.verify_maker(
                    maker_address(old(self)@.program_id, authority),
                    authority,
                ),
                result,
                old(self)@,
                final(self)@,
            ),
    {
        let derived = derive_maker_address(&self.program_id, &authority);
        self.verify_maker_at(derived, authority)
    }

    /// Creates the contribution of `maker` to `pool`, amount zero, at an
    /// address that has been derived for the pair.
    ///
    /// Fails with `AddressDerivationExhausted` where no address was found,
    /// with `DuplicateContribution` where a contribution lives at the
    /// address, and with `AccountNotInitialized` where the pool or the
    /// maker does not exist.
    pub fn create_contribution_at(
        &mut self,
        derived: Option<(Address, u8)>,
        pool: Address,
        maker: Address,
    ) -> (result: Result<Address, ErrorCode>)
        requires
            old(self).wf(),
        ensures
            final(self).wf(),
            old(self)@.follows(final(self)@),
            agrees(
                old(self)@.create_contribution(derived, pool, maker),
                result,
                old(self)@,
                final(self)@,
            ),
    {
        let (address, bump) = match derived {
            Some(found) => found,
            None => {
                return Err(ErrorCode::AddressDerivationExhausted);
            },
        };
        if self.contributions.contains(&address) {
            return Err(ErrorCode::DuplicateContribution);
        }
        if !self.pools.contains(&pool) || !self.makers.contains(&maker) {
            return Err(ErrorCode::AccountNotInitialized);
        }
        let mut ctx = CreateContribution {
            contribution: PoolContribution { pool, maker, amount: 0, bump: 0 },
            pool,
            maker,
            bump,
        };
        let _ = create_contribution(&mut ctx);
        proof {
            lemma_create_contribution(self@, derived, pool, maker);
        }
        self.contributions.insert(address, ctx.contribution);
        Ok(address)
    }

    /// Creates the contribution of `maker` to `pool`, amount zero, at the
    /// address derived from the contribution tag and the two addresses.
    ///
    /// Fails with `AddressDerivationExhausted` where no address can be
    /// derived, with `DuplicateContribution` where the pair has its
    /// contribution, and with `AccountNotInitialized` where the pool or
    /// the maker does not exist.
    pub fn create_contribution(&mut self, pool: Address, maker: Address) -> (result: Result<
        Address,
        ErrorCode,
    >)
        requires
            old(self).wf(),
        ensures
            final(self).wf(),
            old(self)@.follows(final(self)@),
            agrees(
                old(self)@.create_contribution(
                    contribution_address(old(self)@.program_id, pool, maker),
                    pool,
                    maker,
                ),
                result,
                old(self)@,
                final(self)@,
            ),
    {
        let derived = derive_contribution_address(&self.program_id, &pool, &maker);
        self.create_contribution_at(derived, pool, maker)
    }

    /// Creates the transaction record of `maker` on `pool`, a pending
    /// deposit of zero, at an address that has been derived for the pair.
    ///
    /// Fails with `AddressDerivationExhausted` where no address was found,
    /// with `DuplicateTransaction` where a record lives at the address,
    /// and with `AccountNotInitialized` where the pool or the maker does
    /// not exist.
    pub fn create_transaction_at(
        &mut self,
        derived: Option<(Address, u8)>,
        pool: Address,
        maker: Address,
    ) -> (result: Result<Address, ErrorCode>)
        requires
            old(self).wf(),
        ensures
            final(self).wf(),
            old(self)@.follows(final(self)@),
            agrees(
                old(self)@.create_transaction(derived, pool, maker),
                result,
                old(self)@,
                final(self)@,
            ),
    {
        let (address, bump) = match derived {
            Some(found) => found,
            None => {
                return Err(ErrorCode::AddressDerivationExhausted);
            },
        };
        if self.transactions.contains(&address) {
            return Err(ErrorCode::DuplicateTransaction);
        }
        if !self.pools.contains(&pool) || !self.makers.contains(&maker) {
            return Err(ErrorCode::AccountNotInitialized);
        }
        let mut ctx = CreateTransaction {
            transaction: Transaction {
                pool,
                maker,
                transaction_type: TransactionType::Deposit,
                amount: 0,
                status: TransactionStatus::Pending,
                bump: 0,
            },
            pool,
            maker,
            bump,
        };
        let _ = create_transaction(&mut ctx);
        proof {
            lemma_create_transaction(self@, derived, pool, maker);
        }
        self.transactions.insert(address, ctx.transaction);
        Ok(address)
    }

    /// Creates the transaction record of `maker` on `pool`, a pending
    /// deposit of zero, at the address derived from the transaction tag
    /// and the two addresses.
    ///
    /// Fails with `AddressDerivationExhausted` where no address can be
    /// derived, with `DuplicateTransaction` where the pair has its
    /// record, and with `AccountNotInitialized` where the pool or the
    /// maker does not exist.
    pub fn create_transaction(&mut self, pool: Address, maker: Address) -> (result: Result<
        Address,
        ErrorCode,
    >)
        requires
            old(self).wf(),
        ensures
            final(self).wf(),
            old(self)@.follows(final(self)@),
            agrees(
                old(self)@.create_transaction(
                    transaction_address(old(self)@.program_id, pool, maker),
                    pool,
                    maker,
                ),
                result,
                old(self)@,
                final(self)@,
            ),
    {
        let derived = derive_transaction_address(&self.program_id, &pool, &maker);
        self.create_transaction_at(derived, pool, maker)
    }

    /// Finds the records that a deposit or a withdrawal of `maker` on
    /// `pool` works on.
    fn load(
        &self,
        derived: Option<(Address, u8)>,
        pool: &Address,
        maker: &Address,
        contribution: &Address,
    ) -> (result: Result<Loaded, ErrorCode>)
        requires
            self.wf(),
        ensures
            result == self@.load(derived, *pool, *maker, *contribution),
    {
        let p = match self.pools.get(pool) {
            Some(p) => p,
            None => {
                return Err(ErrorCode::AccountNotInitialized);
            },
        };
        let m = match self.makers.get(maker) {
            Some(m) => m,
            None => {
                return Err(ErrorCode::AccountNotInitialized);
            },
        };
        let c = match self.contributions.get(contribution) {
            Some(c) => c,
            None => {
                return Err(ErrorCode::AccountNotInitialized);
            },
        };
        if c.pool != *pool || c.maker != *maker {
            return Err(ErrorCode::ConstraintHasOne);
        }
        let (transaction_key, bump) = match derived {
            Some(found) => found,
            None => {
                return Err(ErrorCode::AddressDerivationExhausted);
            },
        };
        let t = match self.transactions.get(&transaction_key) {
            Some(t) => t,
            None => {
                return Err(ErrorCode::AccountNotInitialized);
            },
        };
        Ok(Loaded { pool: p, maker: m, contribution: c, transaction: t, transaction_key, bump })
    }

    /// Deposits `amount` for `maker` into `pool`, given the address that
    /// has been derived for the pair's transaction record: the pool's
    /// liquidity and the contribution grow by `amount`, and the
    /// transaction record shows a completed deposit of `amount`.
    ///
    /// Fails, in this order, with `AccountNotInitialized` where the pool,
    /// the maker or the contribution does not exist, `ConstraintHasOne`
    /// where the contribution is not that of `maker` to `pool`,
    /// `AddressDerivationExhausted` where no address was found,
    /// `AccountNotInitialized` where the pair has no transaction record,
    /// `MakerNotVerified`, and `ArithmeticOverflow` where the pool's
    /// liquidity would pass `u64::MAX`.
    pub fn deposit_at(
        &mut self,
        derived: Option<(Address, u8)>,
        pool: Address,
        maker: Address,
        contribution: Address,
        amount: u64,
    ) -> (result: Result<(), ErrorCode>)
        requires
            old(self).wf(),
        ensures
            final(self).wf(),
            old(self)@.follows(final(self)@),
            agrees(
                old(self)@.deposit(derived, pool, maker, contribution, amount),
                result,
                old(self)@,
                final(self)@,
            ),
    {
        let l = match self.load(derived, &pool, &maker, &contribution) {
            Ok(l) => l,
            Err(e) => {
                return Err(e);
            },
        };
        let mut ctx = Deposit {
            pool: l.pool,
            maker: l.maker,
            contribution: l.contribution,
            transaction: l.transaction,
            bump: l.bump,
        };
        match deposit(&mut ctx, amount) {
            Ok(()) => {},
            Err(e) => {
                return Err(e);
            },
        }
        proof {
            lemma_deposit(self@, derived, pool, maker, contribution, amount);
        }
        self.pools.update(pool, ctx.pool);
        self.contributions.update(contribution, ctx.contribution);
        self.transactions.update(l.transaction_key, ctx.transaction);
        Ok(())
    }

    /// Deposits `amount` for `maker` into `pool`: the pool's liquidity and
    /// the contribution grow by `amount`, and the pair's transaction
    /// record, found at the address derived from the transaction tag and
    /// the two addresses, shows a completed deposit of `amount`.
    ///
    /// Fails as `deposit_at` does.
    pub fn deposit(&mut self, pool: Address, maker: Address, contribution: Address, amount: u64) -> (result:
        Result<(), ErrorCode>)
        requires
            old(self).wf(),
        ensures
            final(self).wf(),
            old(self)@.follows(final(self)@),
            agrees(
                old(self)@.deposit(
                    transaction_address(old(self)@.program_id, pool, maker),
                    pool,
                    maker,
                    contribution,
                    amount,
                ),
                result,
                old(self)@,
                final(self)@,
            ),
    {
        let derived = derive_transaction_address(&self.program_id, &pool, &maker);
        self.deposit_at(derived, pool, maker, contribution, amount)
    }

    /// Withdraws `amount` for `maker` from `pool`, given the address that
    /// has been derived for the pair's transaction record: the pool's
    /// liquidity and the contribution shrink by `amount`, and the
    /// transaction record shows a completed withdrawal of `amount`.
    ///
    /// Fails, in this order, with `AccountNotInitialized` where the pool,
    /// the maker or the contribution does not exist, `ConstraintHasOne`
    /// where the contribution is not that of `maker` to `pool`,
    /// `AddressDerivationExhausted` where no address was found,
    /// `AccountNotInitialized` where the pair has no transaction record,
    /// `MakerNotVerified`, and `InsufficientFunds` where the contribution
    /// holds less than `amount`.
    pub fn withdraw_at(
        &mut self,
        derived: Option<(Address, u8)>,
        pool: Address,
        maker: Address,
        contribution: Address,
        amount: u64,
    ) -> (result: Result<(), ErrorCode>)
        requires
            old(self).wf(),
        ensures
            final(self).wf(),
            old(self)@.follows(final(self)@),
            agrees(
                old(self)@.withdraw(derived, pool, maker, contribution, amount),
                result,
                old(self)@,
                final(self)@,
            ),
    {
        let l = match self.load(derived, &pool, &maker, &contribution) {
            Ok(l) => l,
            Err(e) => {
                return Err(e);
            },
        };
        let mut ctx = Withdraw {
            pool: l.pool,
            maker: l.maker,
            contribution: l.contribution,
            transaction: l.transaction,
            bump: l.bump,
        };
        match withdraw(&mut ctx, amount) {
            Ok(()) => {},
            Err(e) => {
                return Err(e);
            },
        }
        proof {
            lemma_withdraw(self@, derived, pool, maker, contribution, amount);
        }
        self.pools.update(pool, ctx.pool);
        self.contributions.update(contribution, ctx.contribution);
        self.transactions.update(l.transaction_key, ctx.transaction);
        Ok(())
    }

    /// Withdraws `amount` for `maker` from `pool`: the pool's liquidity
    /// and the contribution shrink by `amount`, and the pair's transaction
    /// record, found at the address derived from the transaction tag and
    /// the two addresses, shows a completed withdrawal of `amount`.
    ///
    /// Fails as `withdraw_at` does.
    pub fn withdraw(&mut self, pool: Address, maker: Address, contribution: Address, amount: u64) -> (result:
        Result<(), ErrorCode>)
        requires
            old(self).wf(),
        ensures
            final(self).wf(),
            old(self)@.follows(final(self)@),
            agrees(
                old(self)@.withdraw(
                    transaction_address(old(self)@.program_id, pool, maker),
                    pool,
                    maker,
                    contribution,
                    amount,
                ),
                result,
                old(self)@,
                final(self)@,
            ),
    {
        let derived = derive_transaction_address(&self.program_id, &pool, &maker);
        self.withdraw_at(derived, pool, maker, contribution, amount)
    }

    /// The offer that `deposit_funds` would create, with its address and
    /// the transfer that locks its funds.
    fn plan_deposit_funds(
        &self,
        derived: Option<(Address, u8)>,
        depositor: Address,
        amount: u64,
        exchange_rate: u64,
        nonce: u64,
    ) -> (result: Result<(Address, Offer, TransferRequest), ErrorCode>)
        requires
            self.wf(),
        ensures
            match self@.deposit_funds(derived, depositor, amount, exchange_rate, nonce) {
                Err(e) => result == Err::<(Address, Offer, TransferRequest), ErrorCode>(e),
                Ok(((address, request), next)) => {
                    &&& result matches Ok((at, offer, asked))
                    &&& at == address
                    &&& asked == request
                    &&& !has_key(self@.offers, address)
                    &&& next.offers == inserted(self@.offers, address, offer)
                },
            },
    {
        let (address, bump) = match derived {
            Some(found) => found,
            None => {
                return Err(ErrorCode::AddressDerivationExhausted);
            },
        };
        let vault = match self.custody {
            Some((vault, _)) => vault,
            None => {
                return Err(ErrorCode::AddressDerivationExhausted);
            },
        };
        if self.offers.contains(&address) {
            return Err(ErrorCode::DuplicateOffer);
        }
        let mut ctx = DepositFunds {
            offer: Offer {
                depositor,
                amount: 0,
                exchange_rate: 0,
                nonce: 0,
                status: OfferStatus::Pending,
                bump: 0,
            },
            depositor,
            custody: vault,
            bump,
        };
        match deposit_funds(&mut ctx, amount, exchange_rate, nonce) {
            Ok(request) => Ok((address, ctx.offer, request)),
            Err(e) => Err(e),
        }
    }

    /// The transfer that `deposit_funds_at` needs done before it is
    /// called with the same arguments: `amount` from the depositor into
    /// protocol custody, under the depositor's signature. Nothing is
    /// changed.
    ///
    /// Fails as `deposit_funds_at` fails before it looks at the transfer.
    pub fn deposit_funds_transfer_at(
        &self,
        derived: Option<(Address, u8)>,
        depositor: Address,
        amount: u64,
        exchange_rate: u64,
        nonce: u64,
    ) -> (result: Result<TransferRequest, ErrorCode>)
        requires
            self.wf(),
        ensures
            result == requested(
                self@.deposit_funds(derived, depositor, amount, exchange_rate, nonce),
            ),
    {
        match self.plan_deposit_funds(derived, depositor, amount, exchange_rate, nonce) {
            Ok((_, _, request)) => Ok(request),
            Err(e) => Err(e),
        }
    }

    /// The transfer that `deposit_funds` needs done before it is called
    /// with the same arguments. Nothing is changed.
    ///
    /// Fails as `deposit_funds` fails before it looks at the transfer.
    pub fn deposit_funds_transfer(
        &self,
        depositor: Address,
        amount: u64,
        exchange_rate: u64,
        nonce: u64,
    ) -> (result: Result<TransferRequest, ErrorCode>)
        requires
            self.wf(),
        ensures
            result == requested(
                self@.deposit_funds(
                    offer_address(self@.program_id, depositor, nonce),
                    depositor,
                    amount,
                    exchange_rate,
                    nonce,
                ),
            ),
    {
        let derived = derive_offer_address(&self.program_id, &depositor, nonce);
        self.deposit_funds_transfer_at(derived, depositor, amount, exchange_rate, nonce)
    }

    /// Opens the offer of `depositor` under `nonce` at an address that has
    /// been derived for the two, `Pending`, once the custody service has
    /// answered the transfer that locks `amount`. The offer's address is
    /// handed back.
    ///
    /// Fails, in this order and without a change, with
    /// `AddressDerivationExhausted` where no address was found or the
    /// ledger has no protocol authority, with `DuplicateOffer` where an
    /// offer lives at the address, and with `Transfer` and the service's
    /// error where it refused.
    pub fn deposit_funds_at(
        &mut self,
        derived: Option<(Address, u8)>,
        depositor: Address,
        amount: u64,
        exchange_rate: u64,
        nonce: u64,
        transferred: Result<(), TransferError>,
    ) -> (result: Result<Address, ErrorCode>)
        requires
            old(self).wf(),
        ensures
            final(self).wf(),
            old(self)@.follows(final(self)@),
            agrees(
                settled(
                    granted(
                        old(self)@.deposit_funds(derived, depositor, amount, exchange_rate, nonce),
                    ),
                    transferred,
                ),
                result,
                old(self)@,
                final(self)@,
            ),
    {
        let (address, offer) = match self.plan_deposit_funds(
            derived,
            depositor,
            amount,
            exchange_rate,
            nonce,
        ) {
            Ok((address, offer, _)) => (address, offer),
            Err(e) => {
                return Err(e);
            },
        };
        match transferred {
            Ok(_) => {},
            Err(refusal) => {
                return Err(ErrorCode::Transfer(refusal));
            },
        }
        proof {
            lemma_deposit_funds(self@, derived, depositor, amount, exchange_rate, nonce);
        }
        self.offers.insert(address, offer);
        Ok(address)
    }

    /// Opens the offer of `depositor` under `nonce`, `Pending`, at the
    /// address derived from the offer tag, the depositor and the nonce,
    /// once the custody service has answered the transfer that locks
    /// `amount`. The exchange rate is stored and checked against nothing.
    ///
    /// Fails as `deposit_funds_at` does; a nonce that the depositor has
    /// used before gives `DuplicateOffer`.
    pub fn deposit_funds(
        &mut self,
        depositor: Address,
        amount: u64,
        exchange_rate: u64,
        nonce: u64,
        transferred: Result<(), TransferError>,
    ) -> (result: Result<Address, ErrorCode>)
        requires
            old(self).wf(),
        ensures
            final(self).wf(),
            old(self)@.follows(final(self)@),
            agrees(
                settled(
                    granted(
                        old(self)@.deposit_funds(
                            offer_address(old(self)@.program_id, depositor, nonce),
                            depositor,
                            amount,
                            exchange_rate,
                            nonce,
                        ),
                    ),
                    transferred,
                ),
                result,
                old(self)@,
                final(self)@,
            ),
    {
        let derived = derive_offer_address(&self.program_id, &depositor, nonce);
        self.deposit_funds_at(derived, depositor, amount, exchange_rate, nonce, transferred)
    }

    /// The offer as `accept_offer` would leave it, with the transfer that
    /// pays the counterparty.
    fn plan_accept_offer(&self, offer: &Address, counterparty: Address) -> (result: Result<
        (Offer, TransferRequest),
        ErrorCode,
    >)
        requires
            self.wf(),
        ensures
            match self@.accept_offer(*offer, counterparty) {
                Err(e) => result == Err::<(Offer, TransferRequest), ErrorCode>(e),
                Ok(((_, request), next)) => {
                    &&& result matches Ok((after, asked))
                    &&& asked == request
                    &&& has_key(self@.offers, *offer)
                    &&& next.offers == replaced(self@.offers, *offer, after)
                },
            },
    {
        let found = match self.offers.get(offer) {
            Some(found) => found,
            None => {
                return Err(ErrorCode::AccountNotInitialized);
            },
        };
        let (vault, vault_bump) = match self.custody {
            Some(authority) => authority,
            None => {
                return Err(ErrorCode::AddressDerivationExhausted);
            },
        };
        let mut ctx = AcceptOffer { offer: found, counterparty, custody: vault, custody_bump: vault_bump };
        match accept_offer(&mut ctx) {
            Ok(request) => Ok((ctx.offer, request)),
            Err(e) => Err(e),
        }
    }

    /// The transfer that `accept_offer` needs done before it is called
    /// with the same arguments: all the locked funds of the offer, from
    /// protocol custody to the counterparty, under the protocol
    /// authority's proof. Nothing is changed.
    ///
    /// Fails as `accept_offer` fails before it looks at the transfer.
    pub fn accept_offer_transfer(&self, offer: Address, counterparty: Address) -> (result: Result<
        TransferRequest,
        ErrorCode,
    >)
        requires
            self.wf(),
        ensures
            result == requested(self@.accept_offer(offer, counterparty)),
    {
        match self.plan_accept_offer(&offer, counterparty) {
            Ok((_, request)) => Ok(request),
            Err(e) => Err(e),
        }
    }

    /// Marks the offer `Accepted`, once the custody service has answered
    /// the transfer that pays the counterparty.
    ///
    /// Fails, in this order and without a change, with
    /// `AccountNotInitialized` where no offer lives at the address, with
    /// `AddressDerivationExhausted` where the ledger has no protocol
    /// authority, with `OfferNotPending` where the offer is accepted or
    /// canceled, and with `Transfer` and the service's error where it
    /// refused.
    pub fn accept_offer(
        &mut self,
        offer: Address,
        counterparty: Address,
        transferred: Result<(), TransferError>,
    ) -> (result: Result<(), ErrorCode>)
        requires
            old(self).wf(),
        ensures
            final(self).wf(),
            old(self)@.follows(final(self)@),
            agrees(
                settled(granted(old(self)@.accept_offer(offer, counterparty)), transferred),
                result,
                old(self)@,
                final(self)@,
            ),
    {
        let after = match self.plan_accept_offer(&offer, counterparty) {
            Ok((after, _)) => after,
            Err(e) => {
                return Err(e);
            },
        };
        match transferred {
            Ok(_) => {},
            Err(refusal) => {
                return Err(ErrorCode::Transfer(refusal));
            },
        }
        proof {
            lemma_accept_offer(self@, offer, counterparty);
        }
        self.offers.update(offer, after);
        Ok(())
    }

    /// The offer as `cancel_offer` would leave it, with the transfer that
    /// pays the depositor back.
    fn plan_cancel_offer(&self, offer: &Address) -> (result: Result<
        (Offer, TransferRequest),
        ErrorCode,
    >)
        requires
            self.wf(),
        ensures
            match self@.cancel_offer(*offer) {
                Err(e) => result == Err::<(Offer, TransferRequest), ErrorCode>(e),
                Ok(((_, request), next)) => {
                    &&& result matches Ok((after, asked))
                    &&& asked == request
                    &&& has_key(self@.offers, *offer)
                    &&& next.offers == replaced(self@.offers, *offer, after)
                },
            },
    {
        let found = match self.offers.get(offer) {
            Some(found) => found,
            None => {
                return Err(ErrorCode::AccountNotInitialized);
            },
        };
        let (vault, vault_bump) = match self.custody {
            Some(authority) => authority,
            None => {
                return Err(ErrorCode::AddressDerivationExhausted);
            },
        };
        let mut ctx = CancelOffer { offer: found, custody: vault, custody_bump: vault_bump };
        match cancel_offer(&mut ctx) {
            Ok(request) => Ok((ctx.offer, request)),
            Err(e) => Err(e),
        }
    }

    /// The transfer that `cancel_offer` needs done before it is called
    /// with the same argument: all the locked funds of the offer, from
    /// protocol custody back to the depositor, under the protocol
    /// authority's proof. Nothing is changed.
    ///
    /// Fails as `cancel_offer` fails before it looks at the transfer.
    pub fn cancel_offer_transfer(&self, offer: Address) -> (result: Result<
        TransferRequest,
        ErrorCode,
    >)
        requires
            self.wf(),
        ensures
            result == requested(self@.cancel_offer(offer)),
    {
        match self.plan_cancel_offer(&offer) {
            Ok((_, request)) => Ok(request),
            Err(e) => Err(e),
        }
    }

    /// Marks the offer `Canceled`, once the custody service has answered
    /// the transfer that pays the depositor back.
    ///
    /// Fails, in this order and without a change, with
    /// `AccountNotInitialized` where no offer lives at the address, with
    /// `AddressDerivationExhausted` where the ledger has no protocol
    /// authority, with `OfferNotPending` where the offer is accepted or
    /// canceled, and with `Transfer` and the service's error where it
    /// refused.
    pub fn cancel_offer(&mut self, offer: Address, transferred: Result<(), TransferError>) -> (result:
        Result<(), ErrorCode>)
        requires
            old(self).wf(),
        ensures
            final(self).wf(),
            old(self)@.follows(final(self)@),
            agrees(
                settled(granted(old(self)@.cancel_offer(offer)), transferred),
                result,
                old(self)@,
                final(self)@,
            ),
    {
        let after = match self.plan_cancel_offer(&offer) {
            Ok((after, _)) => after,
            Err(e) => {
                return Err(e);
            },
        };
        match transferred {
            Ok(_) => {},
            Err(refusal) => {
                return Err(ErrorCode::Transfer(refusal));
            },
        }
        proof {
            lemma_cancel_offer(self@, offer);
        }
        self.offers.update(offer, after);
        Ok(())
    }
}

} // verus!
