use scoogi_battle::address::{escrow_seed_bytes, is_escrow_of};
use scoogi_battle::{find_escrow_address, Escrow, EscrowSigner, Pubkey, TokenAccount};

fn addr_key(n: u8) -> Pubkey {
    Pubkey::new_from_array([n; 32])
}

fn addr_ledger_key(key: &Pubkey) -> anchor_lang::prelude::Pubkey {
    anchor_lang::prelude::Pubkey::new_from_array(key.to_bytes())
}

#[test]
fn escrow_seeds_are_tag_player_and_little_endian_id() {
    let seeds = escrow_seed_bytes(&addr_key(1), 0x0102_0304_0506_0708);
    assert_eq!(
        seeds,
        vec![b"token_account".to_vec(), vec![1u8; 32], vec![8u8, 7, 6, 5, 4, 3, 2, 1]]
    );
    assert_eq!(escrow_seed_bytes(&addr_key(2), 1)[2], vec![1u8, 0, 0, 0, 0, 0, 0, 0]);
}

#[test]
fn signer_seeds_end_with_the_bump() {
    let signer = EscrowSigner { player_one: addr_key(1), battle_id: 1, bump: 253 };
    assert_eq!(
        signer.seeds(),
        vec![b"token_account".to_vec(), vec![1u8; 32], vec![1u8, 0, 0, 0, 0, 0, 0, 0], vec![253u8]]
    );
}

#[test]
fn escrow_address_is_the_ledgers_program_address() {
    let program_id = addr_key(100);
    let (key, bump) = find_escrow_address(&program_id, &addr_key(1), 1).unwrap();
    let id_bytes = 1u64.to_le_bytes();
    let player = [1u8; 32];
    let seeds: [&[u8]; 3] = [b"token_account", &player, &id_bytes];
    let (expected, expected_bump) =
        anchor_lang::prelude::Pubkey::find_program_address(&seeds, &addr_ledger_key(&program_id));
    assert_eq!(key.to_bytes(), expected.to_bytes());
    assert_eq!(bump, expected_bump);
    // It is none of the keys that went in.
    assert_ne!(key, program_id);
    assert_ne!(key, addr_key(1));
}

#[test]
fn escrows_of_different_battles_stand_at_different_addresses() {
    let program_id = addr_key(100);
    let (first, _) = find_escrow_address(&program_id, &addr_key(1), 1).unwrap();
    let (again, _) = find_escrow_address(&program_id, &addr_key(1), 1).unwrap();
    let (other_id, _) = find_escrow_address(&program_id, &addr_key(1), 2).unwrap();
    let (other_player, _) = find_escrow_address(&program_id, &addr_key(2), 1).unwrap();
    let (other_program, _) = find_escrow_address(&addr_key(101), &addr_key(1), 1).unwrap();
    assert_eq!(first, again);
    assert_ne!(first, other_id);
    assert_ne!(first, other_player);
    assert_ne!(first, other_program);
}

#[test]
fn signer_seeds_sign_for_the_escrow_address() {
    let program_id = addr_key(100);
    let (key, bump) = find_escrow_address(&program_id, &addr_key(1), 42).unwrap();
    let signer = EscrowSigner { player_one: addr_key(1), battle_id: 42, bump };
    let seeds = signer.seeds();
    let parts: Vec<&[u8]> = seeds.iter().map(|seed| seed.as_slice()).collect();
    let signed_for = anchor_lang::prelude::Pubkey::create_program_address(
        &parts,
        &addr_ledger_key(&program_id),
    )
    .unwrap();
    assert_eq!(signed_for.to_bytes(), key.to_bytes());
}

#[test]
fn an_escrow_is_told_from_one_that_stands_elsewhere() {
    let program_id = addr_key(100);
    let (key, bump) = find_escrow_address(&program_id, &addr_key(1), 1).unwrap();
    let escrow = Escrow { key, bump, account: None };
    assert!(is_escrow_of(&program_id, &addr_key(1), 1, &escrow));
    assert!(!is_escrow_of(&program_id, &addr_key(1), 2, &escrow));
    assert!(!is_escrow_of(&program_id, &addr_key(2), 1, &escrow));
    assert!(!is_escrow_of(&addr_key(101), &addr_key(1), 1, &escrow));
    assert!(!is_escrow_of(
        &program_id,
        &addr_key(1),
        1,
        &Escrow { bump: bump.wrapping_sub(1), ..escrow }
    ));
    assert!(!is_escrow_of(&program_id, &addr_key(1), 1, &Escrow { key: addr_key(5), ..escrow }));
    assert!(escrow.is_at(&Some((key, bump))));
    assert!(!escrow.is_at(&None));
    assert!(!escrow.is_at(&Some((key, bump.wrapping_add(1)))));
    assert!(!escrow.is_at(&Some((addr_key(5), bump))));
}

#[test]
fn an_escrow_reports_its_stakes_only_when_it_is_sound() {
    let sound = Escrow {
        key: addr_key(5),
        bump: 255,
        account: Some(TokenAccount { mint: addr_key(9), owner: addr_key(5), amount: 100 }),
    };
    assert_eq!(sound.stakes(&addr_key(9)), Some(100));
    assert_eq!(sound.stakes(&addr_key(8)), None);
    assert_eq!(Escrow { key: addr_key(6), ..sound }.stakes(&addr_key(9)), None);
    assert_eq!(Escrow { account: None, ..sound }.stakes(&addr_key(9)), None);
}
