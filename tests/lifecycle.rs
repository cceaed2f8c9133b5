use faucet::address::Address;
use faucet::engine::{authorize_withdrawal, TransferError, WithdrawError};
use faucet::records::{initialize_faucet, initialize_withdrawer, InitError};
use faucet::registry::Registry;
use faucet::signing::reserve_seed_bytes;

fn addr(b: u8) -> Address {
    Address::new([b; 32])
}

#[test]
fn address_equality_is_bytewise() {
    let mut b = [3u8; 32];
    assert!(addr(3).same_as(&Address::new(b)));
    b[31] = 4;
    assert!(!addr(3).same_as(&Address::new(b)));
    assert_eq!(Address::new(b).to_vec(), b.to_vec());
}

#[test]
fn reserve_seeds_are_tag_and_mint() {
    assert_eq!(reserve_seed_bytes(&addr(5)), vec![b"mint".to_vec(), vec![5u8; 32]]);
}

#[test]
fn initialize_faucet_sets_fields_and_derives_signer() {
    let program = addr(11);
    let (f, signer_addr) = initialize_faucet(&program, &addr(7), &addr(1), 100, 1000).unwrap();
    assert_eq!(f.mint.bytes, [7u8; 32]);
    assert_eq!(f.owner.bytes, [1u8; 32]);
    assert_eq!(f.decimals, 100);
    assert_eq!(f.max_withdraw, 1000);
    assert!(!signer_addr.same_as(&addr(7)));
    assert!(!signer_addr.same_as(&program));
    // the stored discriminator byte reproduces the same signing address
    let w = initialize_withdrawer(&addr(2));
    let auth = authorize_withdrawal(&f, &w, &addr(7), &addr(2), 1, 1000).unwrap();
    let again = auth.capability.signing_address(&program).unwrap();
    assert!(again.same_as(&signer_addr));
}

#[test]
fn derivation_is_deterministic_and_asset_scoped() {
    let program = addr(11);
    let (f1, a1) = initialize_faucet(&program, &addr(7), &addr(1), 1, 10).unwrap();
    let (f2, a2) = initialize_faucet(&program, &addr(7), &addr(2), 5, 50).unwrap();
    let (_, a3) = initialize_faucet(&program, &addr(8), &addr(1), 1, 10).unwrap();
    assert_eq!(f1.bump, f2.bump);
    assert!(a1.same_as(&a2));
    assert!(!a1.same_as(&a3));
}

#[test]
fn duplicate_reserve_is_rejected() {
    let mut reg = Registry::new();
    let (f, _) = initialize_faucet(&addr(11), &addr(7), &addr(1), 1, 1000).unwrap();
    assert_eq!(reg.create_faucet(f), Ok(()));
    let (g, _) = initialize_faucet(&addr(11), &addr(7), &addr(3), 2, 5).unwrap();
    assert_eq!(reg.create_faucet(g), Err(InitError::AlreadyExists));
    assert_eq!(reg.faucet_index(&addr(7)), Some(0));
    assert_eq!(reg.faucet(0).owner.bytes, [1u8; 32]);
    assert_eq!(reg.faucet_index(&addr(8)), None);
}

#[test]
fn duplicate_requester_is_rejected() {
    let mut reg = Registry::new();
    assert_eq!(reg.create_withdrawer(initialize_withdrawer(&addr(2))), Ok(()));
    assert_eq!(reg.create_withdrawer(initialize_withdrawer(&addr(3))), Ok(()));
    assert_eq!(
        reg.create_withdrawer(initialize_withdrawer(&addr(2))),
        Err(InitError::AlreadyExists)
    );
    assert_eq!(reg.withdrawer_index(&addr(3)), Some(1));
    assert_eq!(reg.withdrawer_index(&addr(4)), None);
}

#[test]
fn registry_records_only_completed_transfers() {
    let mut reg = Registry::new();
    let (f, _) = initialize_faucet(&addr(11), &addr(7), &addr(1), 1, 1000).unwrap();
    reg.create_faucet(f).unwrap();
    reg.create_withdrawer(initialize_withdrawer(&addr(2))).unwrap();
    let i = reg.withdrawer_index(&addr(2)).unwrap();
    let fi = reg.faucet_index(&addr(7)).unwrap();
    let auth =
        authorize_withdrawal(&reg.faucet(fi), &reg.withdrawer(i), &addr(7), &addr(2), 10, 1000).unwrap();
    assert_eq!(
        reg.complete_withdrawal(i, &auth, 1000, Err(TransferError::WrongAuthority)),
        Err(WithdrawError::Transfer(TransferError::WrongAuthority))
    );
    assert_eq!(reg.withdrawer(i).last_withdraw, 0);
    assert_eq!(reg.complete_withdrawal(i, &auth, 1000, Ok(())), Ok(10));
    assert_eq!(reg.withdrawer(i).last_withdraw, 1000);
}
