use anchor_lang::solana_program::pubkey::Pubkey;
use liquidity_pool::address::{
    derive_contribution_address, derive_custody_authority, derive_maker_address,
    derive_offer_address, derive_pool_address, derive_transaction_address, CONTRIBUTION_TAG,
    CUSTODY_TAG, MAKER_TAG, OFFER_TAG, POOL_TAG, TRANSACTION_TAG,
};
use liquidity_pool::custody::custody_signer_seeds;
use liquidity_pool::table::Table;
use liquidity_pool::Address;

fn addr(n: u8) -> Address {
    Address::new([n; 32])
}

fn program() -> Address {
    addr(42)
}

fn expected(seeds: &[&[u8]]) -> Option<(Address, u8)> {
    let id = Pubkey::new_from_array(program().bytes);
    Pubkey::try_find_program_address(seeds, &id).map(|(key, bump)| (Address::new(key.to_bytes()), bump))
}

#[test]
fn tags_spell_their_names() {
    assert_eq!(&POOL_TAG, b"pool");
    assert_eq!(&MAKER_TAG, b"maker");
    assert_eq!(&CONTRIBUTION_TAG, b"contribution");
    assert_eq!(&TRANSACTION_TAG, b"transaction");
    assert_eq!(&OFFER_TAG, b"offer");
    assert_eq!(&CUSTODY_TAG, b"custody");
}

#[test]
fn pool_address_is_derived_from_tag_and_currency() {
    let derived = derive_pool_address(&program(), b"USD");
    assert!(derived.is_some());
    assert_eq!(derived, expected(&[b"pool", b"USD"]));
    assert_ne!(derived.unwrap().0, program());
    assert_ne!(derived, derive_pool_address(&program(), b"EUR"));
    assert_ne!(derived, derive_pool_address(&addr(43), b"USD"));
    assert_eq!(derived, derive_pool_address(&program(), b"USD"));
}

#[test]
fn maker_address_is_derived_from_tag_and_authority() {
    let derived = derive_maker_address(&program(), &addr(9));
    assert_eq!(derived, expected(&[b"maker", &[9u8; 32]]));
    assert_ne!(derived, derive_maker_address(&program(), &addr(10)));
}

#[test]
fn contribution_and_transaction_addresses_differ_by_tag() {
    let c = derive_contribution_address(&program(), &addr(1), &addr(2));
    let t = derive_transaction_address(&program(), &addr(1), &addr(2));
    assert_eq!(c, expected(&[b"contribution", &[1u8; 32], &[2u8; 32]]));
    assert_eq!(t, expected(&[b"transaction", &[1u8; 32], &[2u8; 32]]));
    assert_ne!(c.unwrap().0, t.unwrap().0);
    assert_ne!(c, derive_contribution_address(&program(), &addr(2), &addr(1)));
}

#[test]
fn offer_address_uses_little_endian_nonce() {
    let derived = derive_offer_address(&program(), &addr(3), 7);
    assert_eq!(derived, expected(&[b"offer", &[3u8; 32], &7u64.to_le_bytes()]));
    let big = derive_offer_address(&program(), &addr(3), 0x0102_0304_0506_0708);
    assert_eq!(big, expected(&[b"offer", &[3u8; 32], &[8, 7, 6, 5, 4, 3, 2, 1]]));
    assert_ne!(derived, big);
    assert_ne!(derived, derive_offer_address(&program(), &addr(4), 7));
}

#[test]
fn custody_authority_has_no_user_seed() {
    let derived = derive_custody_authority(&program());
    assert_eq!(derived, expected(&[b"custody"]));
    let (vault, bump) = derived.unwrap();
    let seeds = custody_signer_seeds(bump);
    assert_eq!(seeds, vec![b"custody".to_vec(), vec![bump]]);
    let parts: Vec<&[u8]> = seeds.iter().map(|s| s.as_slice()).collect();
    let id = Pubkey::new_from_array(program().bytes);
    let signer = Pubkey::create_program_address(&parts, &id).unwrap();
    assert_eq!(Address::new(signer.to_bytes()), vault);
    assert!(!signer.is_on_curve());
}

#[test]
fn addresses_compare_by_bytes() {
    let mut bytes = [5u8; 32];
    assert_eq!(Address::new(bytes), addr(5));
    bytes[31] = 6;
    assert_ne!(Address::new(bytes), addr(5));
    bytes[31] = 5;
    bytes[0] = 4;
    assert_ne!(Address::new(bytes), addr(5));
    assert_eq!(addr(5).to_seed(), vec![5u8; 32]);
}

#[test]
fn table_creates_if_absent_and_overwrites_in_place() {
    let mut table: Table<u64> = Table::new();
    assert_eq!(table.len(), 0);
    assert_eq!(table.get(&addr(1)), None);
    assert!(table.insert(addr(1), 10));
    assert!(table.insert(addr(2), 20));
    assert!(!table.insert(addr(1), 11));
    assert_eq!(table.len(), 2);
    assert_eq!(table.get(&addr(1)), Some(10));
    assert!(table.contains(&addr(2)));
    assert!(!table.contains(&addr(3)));
    assert!(table.update(addr(1), 12));
    assert!(!table.update(addr(3), 30));
    assert_eq!(table.get(&addr(1)), Some(12));
    assert_eq!(table.get(&addr(3)), None);
    assert_eq!(table.len(), 2);
    assert_eq!(table.at(0).key, addr(1));
    assert_eq!(table.at(0).value, 12);
    assert_eq!(table.at(1).value, 20);
}
