use liquidity_pool::address::{derive_custody_authority, derive_offer_address};
use liquidity_pool::{
    Address, Authorization, ErrorCode, Ledger, Offer, OfferStatus, TransferError, TransferRequest,
};

fn addr(n: u8) -> Address {
    Address::new([n; 32])
}

fn program() -> Address {
    addr(42)
}

/// A stand-in for the custody service: balances by holder.
struct Book {
    program: Address,
    balances: Vec<(Address, u64)>,
}

impl Book {
    fn balance(&self, holder: &Address) -> u64 {
        self.balances.iter().find(|(a, _)| a == holder).map(|(_, b)| *b).unwrap_or(0)
    }

    fn set(&mut self, holder: Address, amount: u64) {
        match self.balances.iter_mut().find(|(a, _)| *a == holder) {
            Some(slot) => slot.1 = amount,
            None => self.balances.push((holder, amount)),
        }
    }

    fn transfer(&mut self, request: &TransferRequest) -> Result<(), TransferError> {
        if !request.is_authorized(&self.program) {
            return Err(TransferError { code: 1 });
        }
        let from = self.balance(&request.from);
        if from < request.amount {
            return Err(TransferError { code: 2 });
        }
        self.set(request.from, from - request.amount);
        let to = self.balance(&request.to);
        self.set(request.to, to + request.amount);
        Ok(())
    }
}

fn book_with(holder: Address, amount: u64) -> Book {
    Book { program: program(), balances: vec![(holder, amount)] }
}

fn open_offer(ledger: &mut Ledger, book: &mut Book, depositor: Address, amount: u64, nonce: u64) -> Result<Address, ErrorCode> {
    let request = ledger.deposit_funds_transfer(depositor, amount, 3, nonce)?;
    let outcome = book.transfer(&request);
    ledger.deposit_funds(depositor, amount, 3, nonce, outcome)
}

#[test]
fn deposit_funds_opens_pending_offer_and_locks_funds() {
    let mut ledger = Ledger::new(program());
    let mut book = book_with(addr(3), 500);
    let (vault, _) = derive_custody_authority(&program()).unwrap();
    let (expected, bump) = derive_offer_address(&program(), &addr(3), 7).unwrap();
    let request = ledger.deposit_funds_transfer(addr(3), 100, 3, 7).unwrap();
    assert_eq!(
        request,
        TransferRequest {
            from: addr(3),
            to: vault,
            amount: 100,
            authorization: Authorization::Signature { signer: addr(3) },
        }
    );
    assert_eq!(ledger.offer(&expected), None);
    let outcome = book.transfer(&request);
    assert_eq!(ledger.deposit_funds(addr(3), 100, 3, 7, outcome), Ok(expected));
    assert_eq!(
        ledger.offer(&expected),
        Some(Offer {
            depositor: addr(3),
            amount: 100,
            exchange_rate: 3,
            nonce: 7,
            status: OfferStatus::Pending,
            bump,
        })
    );
    assert_eq!(book.balance(&addr(3)), 400);
    assert_eq!(book.balance(&vault), 100);
}

#[test]
fn accept_then_cancel_fails_with_offer_not_pending() {
    let mut ledger = Ledger::new(program());
    let mut book = book_with(addr(3), 100);
    let (vault, vault_bump) = derive_custody_authority(&program()).unwrap();
    let offer = open_offer(&mut ledger, &mut book, addr(3), 100, 7).unwrap();
    let counterparty = addr(4);

    let request = ledger.accept_offer_transfer(offer, counterparty).unwrap();
    assert_eq!(
        request,
        TransferRequest {
            from: vault,
            to: counterparty,
            amount: 100,
            authorization: Authorization::Protocol { bump: vault_bump },
        }
    );
    let outcome = book.transfer(&request);
    assert_eq!(outcome, Ok(()));
    assert_eq!(ledger.accept_offer(offer, counterparty, outcome), Ok(()));
    assert_eq!(ledger.offer(&offer).unwrap().status, OfferStatus::Accepted);
    assert_eq!(book.balance(&counterparty), 100);
    assert_eq!(book.balance(&vault), 0);
    assert_eq!(book.balance(&addr(3)), 0);

    assert_eq!(ledger.cancel_offer_transfer(offer), Err(ErrorCode::OfferNotPending));
    assert_eq!(ledger.cancel_offer(offer, Ok(())), Err(ErrorCode::OfferNotPending));
    assert_eq!(ledger.offer(&offer).unwrap().status, OfferStatus::Accepted);
    assert_eq!(book.balance(&counterparty), 100);
    assert_eq!(book.balance(&vault), 0);
    assert_eq!(book.balance(&addr(3)), 0);
}

#[test]
fn cancel_returns_funds_and_is_terminal() {
    let mut ledger = Ledger::new(program());
    let mut book = book_with(addr(3), 250);
    let (vault, _) = derive_custody_authority(&program()).unwrap();
    let offer = open_offer(&mut ledger, &mut book, addr(3), 100, 1).unwrap();
    assert_eq!(book.balance(&addr(3)), 150);
    let request = ledger.cancel_offer_transfer(offer).unwrap();
    assert_eq!((request.from, request.to, request.amount), (vault, addr(3), 100));
    let outcome = book.transfer(&request);
    assert_eq!(ledger.cancel_offer(offer, outcome), Ok(()));
    assert_eq!(ledger.offer(&offer).unwrap().status, OfferStatus::Canceled);
    assert_eq!(book.balance(&addr(3)), 250);
    assert_eq!(book.balance(&vault), 0);

    assert_eq!(ledger.accept_offer_transfer(offer, addr(4)), Err(ErrorCode::OfferNotPending));
    assert_eq!(ledger.accept_offer(offer, addr(4), Ok(())), Err(ErrorCode::OfferNotPending));
    assert_eq!(ledger.cancel_offer(offer, Ok(())), Err(ErrorCode::OfferNotPending));
    assert_eq!(ledger.offer(&offer).unwrap().status, OfferStatus::Canceled);
}

#[test]
fn accept_twice_fails_the_second_time() {
    let mut ledger = Ledger::new(program());
    let mut book = book_with(addr(3), 100);
    let offer = open_offer(&mut ledger, &mut book, addr(3), 100, 7).unwrap();
    assert_eq!(ledger.accept_offer(offer, addr(4), Ok(())), Ok(()));
    let settled = ledger.offer(&offer).unwrap();
    assert_eq!(ledger.accept_offer(offer, addr(5), Ok(())), Err(ErrorCode::OfferNotPending));
    assert_eq!(
        ledger.accept_offer(offer, addr(5), Err(TransferError { code: 9 })),
        Err(ErrorCode::OfferNotPending)
    );
    assert_eq!(ledger.offer(&offer).unwrap(), settled);
}

#[test]
fn same_nonce_twice_is_duplicate_offer() {
    let mut ledger = Ledger::new(program());
    let mut book = book_with(addr(3), 500);
    let first = open_offer(&mut ledger, &mut book, addr(3), 100, 7);
    assert!(first.is_ok());
    assert_eq!(
        ledger.deposit_funds_transfer(addr(3), 100, 3, 7),
        Err(ErrorCode::DuplicateOffer)
    );
    assert_eq!(
        ledger.deposit_funds(addr(3), 100, 3, 7, Ok(())),
        Err(ErrorCode::DuplicateOffer)
    );
    assert_eq!(
        ledger.deposit_funds(addr(3), 1, 99, 7, Ok(())),
        Err(ErrorCode::DuplicateOffer)
    );
    assert_eq!(ledger.offer(&first.unwrap()).unwrap().amount, 100);
    assert_eq!(book.balance(&addr(3)), 400);
}

#[test]
fn one_depositor_holds_many_offers() {
    let mut ledger = Ledger::new(program());
    let mut book = book_with(addr(3), 500);
    let a = open_offer(&mut ledger, &mut book, addr(3), 100, 7).unwrap();
    let b = open_offer(&mut ledger, &mut book, addr(3), 50, 8).unwrap();
    assert_ne!(a, b);
    let mut other = book_with(addr(4), 10);
    let c = open_offer(&mut ledger, &mut other, addr(4), 10, 7).unwrap();
    assert_ne!(a, c);
    assert_eq!(ledger.accept_offer(a, addr(9), Ok(())), Ok(()));
    assert_eq!(ledger.offer(&a).unwrap().status, OfferStatus::Accepted);
    assert_eq!(ledger.offer(&b).unwrap().status, OfferStatus::Pending);
    assert_eq!(ledger.offer(&c).unwrap().status, OfferStatus::Pending);
}

#[test]
fn refused_transfer_changes_nothing() {
    let mut ledger = Ledger::new(program());
    let mut book = book_with(addr(3), 50);
    let request = ledger.deposit_funds_transfer(addr(3), 100, 3, 7).unwrap();
    let outcome = book.transfer(&request);
    assert_eq!(outcome, Err(TransferError { code: 2 }));
    assert_eq!(
        ledger.deposit_funds(addr(3), 100, 3, 7, outcome),
        Err(ErrorCode::Transfer(TransferError { code: 2 }))
    );
    let (address, _) = derive_offer_address(&program(), &addr(3), 7).unwrap();
    assert_eq!(ledger.offer(&address), None);

    let offer = open_offer(&mut ledger, &mut book, addr(3), 50, 7).unwrap();
    assert_eq!(offer, address);
    let refusal = Err(TransferError { code: 77 });
    assert_eq!(
        ledger.accept_offer(offer, addr(4), refusal),
        Err(ErrorCode::Transfer(TransferError { code: 77 }))
    );
    assert_eq!(ledger.offer(&offer).unwrap().status, OfferStatus::Pending);
    assert_eq!(
        ledger.cancel_offer(offer, refusal),
        Err(ErrorCode::Transfer(TransferError { code: 77 }))
    );
    assert_eq!(ledger.offer(&offer).unwrap().status, OfferStatus::Pending);
    assert_eq!(ledger.cancel_offer(offer, Ok(())), Ok(()));
}

#[test]
fn missing_offer_is_not_initialized() {
    let mut ledger = Ledger::new(program());
    assert_eq!(ledger.accept_offer_transfer(addr(1), addr(4)), Err(ErrorCode::AccountNotInitialized));
    assert_eq!(ledger.accept_offer(addr(1), addr(4), Ok(())), Err(ErrorCode::AccountNotInitialized));
    assert_eq!(ledger.cancel_offer_transfer(addr(1)), Err(ErrorCode::AccountNotInitialized));
    assert_eq!(ledger.cancel_offer(addr(1), Ok(())), Err(ErrorCode::AccountNotInitialized));
}

#[test]
fn ledger_without_authority_cannot_move_funds() {
    let mut ledger = Ledger::with_custody(program(), None);
    assert_eq!(ledger.custody(), None);
    assert_eq!(
        ledger.deposit_funds(addr(3), 100, 3, 7, Ok(())),
        Err(ErrorCode::AddressDerivationExhausted)
    );
    assert_eq!(
        ledger.deposit_funds_transfer(addr(3), 100, 3, 7),
        Err(ErrorCode::AddressDerivationExhausted)
    );
    let mut ledger = Ledger::with_custody(program(), Some((addr(8), 1)));
    assert_eq!(
        ledger.deposit_funds_at(None, addr(3), 100, 3, 7, Ok(())),
        Err(ErrorCode::AddressDerivationExhausted)
    );
    assert_eq!(
        ledger.deposit_funds_transfer_at(None, addr(3), 100, 3, 7),
        Err(ErrorCode::AddressDerivationExhausted)
    );
    assert_eq!(
        ledger.deposit_funds_at(Some((addr(1), 2)), addr(3), 100, 3, 7, Ok(())),
        Ok(addr(1))
    );
    assert_eq!(ledger.offer(&addr(1)).unwrap().bump, 2);
    assert_eq!(
        ledger.accept_offer_transfer(addr(1), addr(4)),
        Ok(TransferRequest {
            from: addr(8),
            to: addr(4),
            amount: 100,
            authorization: Authorization::Protocol { bump: 1 },
        })
    );
}

#[test]
fn requests_carry_the_right_authorization() {
    let mut ledger = Ledger::new(program());
    let lock = ledger.deposit_funds_transfer(addr(3), 100, 3, 7).unwrap();
    assert!(lock.is_authorized(&program()));
    let offer = ledger.deposit_funds(addr(3), 100, 3, 7, Ok(())).unwrap();
    let release = ledger.accept_offer_transfer(offer, addr(4)).unwrap();
    assert!(release.is_authorized(&program()));
    assert!(!release.is_authorized(&addr(43)));
    assert!(release.is_authorized_by(ledger.custody()));

    let forged = TransferRequest {
        from: addr(3),
        to: addr(4),
        amount: 1,
        authorization: Authorization::Signature { signer: addr(4) },
    };
    assert!(!forged.is_authorized(&program()));
    let wrong_bump = TransferRequest {
        authorization: match release.authorization {
            Authorization::Protocol { bump } => Authorization::Protocol { bump: bump.wrapping_sub(1) },
            other => other,
        },
        ..release
    };
    assert!(!wrong_bump.is_authorized(&program()));
    let not_the_vault = TransferRequest { from: addr(3), ..release };
    assert!(!not_the_vault.is_authorized(&program()));
    assert!(!release.is_authorized_by(None));
}
