use liquidity_pool::address::{
    derive_contribution_address, derive_maker_address, derive_pool_address,
    derive_transaction_address,
};
use liquidity_pool::{
    Address, ErrorCode, Ledger, Maker, MakerStatus, Pool, PoolContribution, PoolStatus,
    Transaction, TransactionStatus, TransactionType,
};

fn addr(n: u8) -> Address {
    Address::new([n; 32])
}

fn program() -> Address {
    addr(42)
}

struct Setup {
    ledger: Ledger,
    pool: Address,
    maker: Address,
    contribution: Address,
    transaction: Address,
}

fn setup(initial_liquidity: u64, verified: bool) -> Setup {
    let mut ledger = Ledger::new(program());
    let pool = ledger.create_pool(*b"USD", initial_liquidity).unwrap();
    let maker = ledger.create_maker(addr(9)).unwrap();
    if verified {
        ledger.verify_maker(addr(9)).unwrap();
    }
    let contribution = ledger.create_contribution(pool, maker).unwrap();
    let transaction = ledger.create_transaction(pool, maker).unwrap();
    Setup { ledger, pool, maker, contribution, transaction }
}

fn totals(s: &Setup) -> (u64, u64) {
    (
        s.ledger.pool(&s.pool).unwrap().total_liquidity,
        s.ledger.contribution(&s.contribution).unwrap().amount,
    )
}

#[test]
fn new_ledger_is_empty() {
    let ledger = Ledger::new(program());
    assert_eq!(ledger.program_id(), program());
    assert_eq!(ledger.pool(&addr(1)), None);
    assert_eq!(ledger.maker(&addr(1)), None);
    assert_eq!(ledger.contribution(&addr(1)), None);
    assert_eq!(ledger.transaction(&addr(1)), None);
    assert_eq!(ledger.offer(&addr(1)), None);
    assert_eq!(ledger.contributed(&addr(1)), 0);
    assert!(ledger.custody().is_some());
}

#[test]
fn create_pool_lives_at_derived_address() {
    let mut ledger = Ledger::new(program());
    let (expected, bump) = derive_pool_address(&program(), b"USD").unwrap();
    assert_eq!(ledger.create_pool(*b"USD", 500), Ok(expected));
    assert_eq!(
        ledger.pool(&expected),
        Some(Pool { currency: *b"USD", total_liquidity: 500, status: PoolStatus::Active, bump })
    );
}

#[test]
fn create_pool_twice_is_duplicate() {
    let mut ledger = Ledger::new(program());
    let pool = ledger.create_pool(*b"USD", 500).unwrap();
    assert_eq!(ledger.create_pool(*b"USD", 9), Err(ErrorCode::DuplicatePool));
    assert_eq!(ledger.pool(&pool).unwrap().total_liquidity, 500);
    let other = ledger.create_pool(*b"EUR", 9).unwrap();
    assert_ne!(other, pool);
    assert_eq!(ledger.pool(&other).unwrap().total_liquidity, 9);
}

#[test]
fn create_pool_without_address_is_exhausted() {
    let mut ledger = Ledger::new(program());
    assert_eq!(
        ledger.create_pool_at(None, *b"USD", 1),
        Err(ErrorCode::AddressDerivationExhausted)
    );
    assert_eq!(ledger.create_pool_at(Some((addr(1), 3)), *b"USD", 1), Ok(addr(1)));
    assert_eq!(ledger.pool(&addr(1)).unwrap().bump, 3);
    assert_eq!(
        ledger.create_pool_at(Some((addr(1), 4)), *b"EUR", 2),
        Err(ErrorCode::DuplicatePool)
    );
    assert_eq!(ledger.pool(&addr(1)).unwrap().currency, *b"USD");
}

#[test]
fn create_maker_is_pending_at_derived_address() {
    let mut ledger = Ledger::new(program());
    let (expected, bump) = derive_maker_address(&program(), &addr(9)).unwrap();
    assert_eq!(ledger.create_maker(addr(9)), Ok(expected));
    assert_eq!(
        ledger.maker(&expected),
        Some(Maker { authority: addr(9), verified_status: MakerStatus::Pending, bump })
    );
    assert_eq!(ledger.create_maker(addr(9)), Err(ErrorCode::DuplicateMaker));
    assert_eq!(ledger.create_maker_at(None, addr(9)), Err(ErrorCode::AddressDerivationExhausted));
}

#[test]
fn verify_maker_reaches_only_its_own_record() {
    let mut ledger = Ledger::new(program());
    let mine = ledger.create_maker(addr(9)).unwrap();
    let other = ledger.create_maker(addr(10)).unwrap();
    assert_eq!(ledger.verify_maker(addr(11)), Err(ErrorCode::AccountNotInitialized));
    assert_eq!(ledger.verify_maker(addr(9)), Ok(()));
    assert_eq!(ledger.maker(&mine).unwrap().verified_status, MakerStatus::Verified);
    assert_eq!(ledger.maker(&other).unwrap().verified_status, MakerStatus::Pending);
    assert_eq!(
        ledger.verify_maker_at(Some((other, 0)), addr(9)),
        Err(ErrorCode::ConstraintHasOne)
    );
    assert_eq!(ledger.maker(&other).unwrap().verified_status, MakerStatus::Pending);
    assert_eq!(
        ledger.verify_maker_at(None, addr(10)),
        Err(ErrorCode::AddressDerivationExhausted)
    );
    assert_eq!(ledger.verify_maker(addr(9)), Ok(()));
    assert_eq!(ledger.maker(&mine).unwrap().verified_status, MakerStatus::Verified);
}

#[test]
fn create_contribution_needs_pool_and_maker() {
    let mut ledger = Ledger::new(program());
    let pool = ledger.create_pool(*b"USD", 0).unwrap();
    assert_eq!(
        ledger.create_contribution(pool, addr(2)),
        Err(ErrorCode::AccountNotInitialized)
    );
    let maker = ledger.create_maker(addr(9)).unwrap();
    assert_eq!(
        ledger.create_contribution(addr(1), maker),
        Err(ErrorCode::AccountNotInitialized)
    );
    let (expected, bump) = derive_contribution_address(&program(), &pool, &maker).unwrap();
    assert_eq!(ledger.create_contribution(pool, maker), Ok(expected));
    assert_eq!(
        ledger.contribution(&expected),
        Some(PoolContribution { pool, maker, amount: 0, bump })
    );
    assert_eq!(
        ledger.create_contribution(pool, maker),
        Err(ErrorCode::DuplicateContribution)
    );
    assert_eq!(
        ledger.create_contribution_at(None, pool, maker),
        Err(ErrorCode::AddressDerivationExhausted)
    );
}

#[test]
fn create_transaction_writes_placeholder_once() {
    let mut ledger = Ledger::new(program());
    let pool = ledger.create_pool(*b"USD", 0).unwrap();
    let maker = ledger.create_maker(addr(9)).unwrap();
    let (expected, bump) = derive_transaction_address(&program(), &pool, &maker).unwrap();
    assert_eq!(ledger.create_transaction(pool, maker), Ok(expected));
    assert_eq!(
        ledger.transaction(&expected),
        Some(Transaction {
            pool,
            maker,
            transaction_type: TransactionType::Deposit,
            amount: 0,
            status: TransactionStatus::Pending,
            bump,
        })
    );
    assert_eq!(ledger.create_transaction(pool, maker), Err(ErrorCode::DuplicateTransaction));
    assert_eq!(
        ledger.create_transaction(pool, addr(3)),
        Err(ErrorCode::AccountNotInitialized)
    );
    assert_eq!(
        ledger.create_transaction_at(None, pool, maker),
        Err(ErrorCode::AddressDerivationExhausted)
    );
}

#[test]
fn concrete_scenario_usd_pool() {
    let mut s = setup(0, true);
    assert_eq!(s.ledger.pool(&s.pool).unwrap().currency, *b"USD");
    assert_eq!(s.ledger.deposit(s.pool, s.maker, s.contribution, 50), Ok(()));
    assert_eq!(totals(&s), (50, 50));
    let t = s.ledger.transaction(&s.transaction).unwrap();
    assert_eq!(
        (t.transaction_type, t.amount, t.status),
        (TransactionType::Deposit, 50, TransactionStatus::Completed)
    );
    assert_eq!(s.ledger.withdraw(s.pool, s.maker, s.contribution, 20), Ok(()));
    assert_eq!(totals(&s), (30, 30));
    let t = s.ledger.transaction(&s.transaction).unwrap();
    assert_eq!(
        (t.transaction_type, t.amount, t.status),
        (TransactionType::Withdrawal, 20, TransactionStatus::Completed)
    );
    assert_eq!(
        s.ledger.withdraw(s.pool, s.maker, s.contribution, 100),
        Err(ErrorCode::InsufficientFunds)
    );
    assert_eq!(totals(&s), (30, 30));
    let after = s.ledger.transaction(&s.transaction).unwrap();
    assert_eq!(after, t);
}

#[test]
fn liquidity_equals_sum_of_contributions_after_each_operation() {
    let mut ledger = Ledger::new(program());
    let usd = ledger.create_pool(*b"USD", 0).unwrap();
    let eur = ledger.create_pool(*b"EUR", 0).unwrap();
    let mut makers = Vec::new();
    for n in 1..=3u8 {
        let maker = ledger.create_maker(addr(n)).unwrap();
        ledger.verify_maker(addr(n)).unwrap();
        let in_usd = ledger.create_contribution(usd, maker).unwrap();
        ledger.create_transaction(usd, maker).unwrap();
        let in_eur = ledger.create_contribution(eur, maker).unwrap();
        ledger.create_transaction(eur, maker).unwrap();
        makers.push((maker, in_usd, in_eur));
    }
    let balanced = |ledger: &Ledger| {
        assert_eq!(ledger.pool(&usd).unwrap().total_liquidity, ledger.contributed(&usd));
        assert_eq!(ledger.pool(&eur).unwrap().total_liquidity, ledger.contributed(&eur));
    };
    balanced(&ledger);
    let (m0, u0, e0) = makers[0];
    let (m1, u1, e1) = makers[1];
    let (m2, u2, _) = makers[2];
    assert_eq!(ledger.deposit(usd, m0, u0, 70), Ok(()));
    balanced(&ledger);
    assert_eq!(ledger.deposit(eur, m0, e0, 5), Ok(()));
    balanced(&ledger);
    assert_eq!(ledger.deposit(usd, m1, u1, 30), Ok(()));
    balanced(&ledger);
    assert_eq!(ledger.withdraw(usd, m0, u0, 25), Ok(()));
    balanced(&ledger);
    assert_eq!(ledger.withdraw(usd, m2, u2, 1), Err(ErrorCode::InsufficientFunds));
    balanced(&ledger);
    assert_eq!(ledger.deposit(eur, m1, e1, 11), Ok(()));
    balanced(&ledger);
    assert_eq!(ledger.withdraw(usd, m1, u1, 30), Ok(()));
    balanced(&ledger);
    assert_eq!(ledger.pool(&usd).unwrap().total_liquidity, 45);
    assert_eq!(ledger.contributed(&usd), 45);
    assert_eq!(ledger.pool(&eur).unwrap().total_liquidity, 16);
    assert_eq!(ledger.contributed(&eur), 16);
    assert_eq!(ledger.contribution(&u0).unwrap().amount, 45);
    assert_eq!(ledger.contribution(&u1).unwrap().amount, 0);
}

#[test]
fn initial_liquidity_stays_above_contributions() {
    let mut s = setup(1_000, true);
    assert_eq!(s.ledger.contributed(&s.pool), 0);
    assert_eq!(s.ledger.deposit(s.pool, s.maker, s.contribution, 50), Ok(()));
    assert_eq!(totals(&s), (1_050, 50));
    assert_eq!(s.ledger.contributed(&s.pool), 50);
    assert_eq!(
        s.ledger.withdraw(s.pool, s.maker, s.contribution, 51),
        Err(ErrorCode::InsufficientFunds)
    );
    assert_eq!(s.ledger.withdraw(s.pool, s.maker, s.contribution, 50), Ok(()));
    assert_eq!(totals(&s), (1_000, 0));
}

#[test]
fn failed_withdraw_leaves_totals() {
    let mut s = setup(0, true);
    assert_eq!(s.ledger.deposit(s.pool, s.maker, s.contribution, 10), Ok(()));
    let record = s.ledger.transaction(&s.transaction).unwrap();
    for amount in [11u64, 12, u64::MAX] {
        assert_eq!(
            s.ledger.withdraw(s.pool, s.maker, s.contribution, amount),
            Err(ErrorCode::InsufficientFunds)
        );
        assert_eq!(totals(&s), (10, 10));
        assert_eq!(s.ledger.transaction(&s.transaction).unwrap(), record);
    }
}

#[test]
fn deposit_then_withdraw_round_trip() {
    let mut s = setup(7, true);
    assert_eq!(s.ledger.deposit(s.pool, s.maker, s.contribution, 5), Ok(()));
    let before = totals(&s);
    for amount in [0u64, 1, 999, u64::MAX - 12] {
        assert_eq!(s.ledger.deposit(s.pool, s.maker, s.contribution, amount), Ok(()));
        assert_eq!(s.ledger.withdraw(s.pool, s.maker, s.contribution, amount), Ok(()));
        assert_eq!(totals(&s), before);
    }
}

#[test]
fn unverified_maker_is_refused_for_any_amount() {
    let mut s = setup(0, false);
    for amount in [0u64, 1, 50, u64::MAX] {
        assert_eq!(
            s.ledger.deposit(s.pool, s.maker, s.contribution, amount),
            Err(ErrorCode::MakerNotVerified)
        );
        assert_eq!(totals(&s), (0, 0));
        assert_eq!(
            s.ledger.withdraw(s.pool, s.maker, s.contribution, amount),
            Err(ErrorCode::MakerNotVerified)
        );
        assert_eq!(totals(&s), (0, 0));
    }
    assert_eq!(
        s.ledger.transaction(&s.transaction).unwrap().status,
        TransactionStatus::Pending
    );
    s.ledger.verify_maker(addr(9)).unwrap();
    assert_eq!(s.ledger.deposit(s.pool, s.maker, s.contribution, 0), Ok(()));
    assert_eq!(
        s.ledger.transaction(&s.transaction).unwrap().status,
        TransactionStatus::Completed
    );
}

#[test]
fn deposit_overflow_is_an_error() {
    let mut s = setup(u64::MAX - 5, true);
    assert_eq!(
        s.ledger.deposit(s.pool, s.maker, s.contribution, 6),
        Err(ErrorCode::ArithmeticOverflow)
    );
    assert_eq!(totals(&s), (u64::MAX - 5, 0));
    assert_eq!(s.ledger.deposit(s.pool, s.maker, s.contribution, 5), Ok(()));
    assert_eq!(totals(&s), (u64::MAX, 5));
}

#[test]
fn deposit_names_records_that_must_exist() {
    let mut s = setup(0, true);
    assert_eq!(
        s.ledger.deposit(addr(1), s.maker, s.contribution, 1),
        Err(ErrorCode::AccountNotInitialized)
    );
    assert_eq!(
        s.ledger.deposit(s.pool, addr(1), s.contribution, 1),
        Err(ErrorCode::AccountNotInitialized)
    );
    assert_eq!(
        s.ledger.deposit(s.pool, s.maker, addr(1), 1),
        Err(ErrorCode::AccountNotInitialized)
    );
    assert_eq!(
        s.ledger.deposit_at(None, s.pool, s.maker, s.contribution, 1),
        Err(ErrorCode::AddressDerivationExhausted)
    );
    assert_eq!(
        s.ledger.withdraw_at(None, s.pool, s.maker, s.contribution, 0),
        Err(ErrorCode::AddressDerivationExhausted)
    );
    assert_eq!(
        s.ledger.deposit_at(Some((addr(1), 0)), s.pool, s.maker, s.contribution, 1),
        Err(ErrorCode::AccountNotInitialized)
    );
    assert_eq!(totals(&s), (0, 0));
}

#[test]
fn deposit_without_transaction_record_fails() {
    let mut ledger = Ledger::new(program());
    let pool = ledger.create_pool(*b"USD", 0).unwrap();
    let maker = ledger.create_maker(addr(9)).unwrap();
    ledger.verify_maker(addr(9)).unwrap();
    let contribution = ledger.create_contribution(pool, maker).unwrap();
    assert_eq!(
        ledger.deposit(pool, maker, contribution, 1),
        Err(ErrorCode::AccountNotInitialized)
    );
    assert_eq!(ledger.pool(&pool).unwrap().total_liquidity, 0);
}

#[test]
fn contribution_of_another_pair_is_refused() {
    let mut s = setup(0, true);
    let other_pool = s.ledger.create_pool(*b"EUR", 0).unwrap();
    s.ledger.create_transaction(other_pool, s.maker).unwrap();
    let other_maker = s.ledger.create_maker(addr(10)).unwrap();
    s.ledger.verify_maker(addr(10)).unwrap();
    s.ledger.create_transaction(s.pool, other_maker).unwrap();
    assert_eq!(
        s.ledger.deposit(other_pool, s.maker, s.contribution, 5),
        Err(ErrorCode::ConstraintHasOne)
    );
    assert_eq!(
        s.ledger.deposit(s.pool, other_maker, s.contribution, 5),
        Err(ErrorCode::ConstraintHasOne)
    );
    assert_eq!(
        s.ledger.withdraw(other_pool, s.maker, s.contribution, 0),
        Err(ErrorCode::ConstraintHasOne)
    );
    assert_eq!(totals(&s), (0, 0));
    assert_eq!(s.ledger.pool(&other_pool).unwrap().total_liquidity, 0);
}

#[test]
fn transaction_record_is_overwritten_not_appended() {
    let mut s = setup(0, true);
    assert_eq!(s.ledger.deposit(s.pool, s.maker, s.contribution, 8), Ok(()));
    assert_eq!(s.ledger.deposit(s.pool, s.maker, s.contribution, 3), Ok(()));
    let t = s.ledger.transaction(&s.transaction).unwrap();
    assert_eq!((t.transaction_type, t.amount), (TransactionType::Deposit, 3));
    assert_eq!((t.pool, t.maker), (s.pool, s.maker));
    assert_eq!(s.ledger.withdraw(s.pool, s.maker, s.contribution, 11), Ok(()));
    let t = s.ledger.transaction(&s.transaction).unwrap();
    assert_eq!((t.transaction_type, t.amount), (TransactionType::Withdrawal, 11));
}
