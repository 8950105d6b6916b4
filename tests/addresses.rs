use anchor_lang::prelude::Pubkey;
use stake::derivation::{derive_address, escrow_address, stake_record_address, vault_address, TOKEN_SEED};

const PROGRAM: [u8; 32] = [7; 32];

#[test]
fn vault_address_matches_the_runtime_derivation() {
    let (key, bump) = Pubkey::find_program_address(&[b"vault"], &Pubkey::new_from_array(PROGRAM));
    assert_eq!(vault_address(&PROGRAM), Some((key.to_bytes(), bump)));
}

#[test]
fn escrow_and_record_addresses_match_the_runtime_derivation() {
    let user = [42u8; 32];
    let program = Pubkey::new_from_array(PROGRAM);
    let (e, eb) = Pubkey::find_program_address(&[b"token", &user], &program);
    let (s, sb) = Pubkey::find_program_address(&[b"stake", &user], &program);
    assert_eq!(escrow_address(&PROGRAM, user), Some((e.to_bytes(), eb)));
    assert_eq!(stake_record_address(&PROGRAM, user), Some((s.to_bytes(), sb)));
    assert_ne!(e, s);
}

#[test]
fn derivation_is_deterministic() {
    let user = [3u8; 32];
    assert_eq!(derive_address(&TOKEN_SEED, Some(user), &PROGRAM), derive_address(&TOKEN_SEED, Some(user), &PROGRAM));
    assert!(derive_address(&TOKEN_SEED, Some(user), &PROGRAM).is_some());
}

#[test]
fn different_users_get_different_escrows() {
    let mut seen: Vec<[u8; 32]> = Vec::new();
    for i in 0..16u8 {
        let mut user = [0u8; 32];
        user[0] = i;
        let (addr, _) = escrow_address(&PROGRAM, user).unwrap();
        assert!(!seen.contains(&addr));
        seen.push(addr);
    }
}
