//! The derived authorities and the admin identity, checked against the
//! host's own derivation.

use dassi::error::DassiError;
use dassi::keys::{
    check_airdrop_pda_account, check_lending_vault_authority, check_pda_account, Pubkey,
};
use dassi::processor::Processor;
use dassi::utils::get_admin_pubkey;

fn key(byte: u8) -> Pubkey {
    Pubkey::new_from_array([byte; 32])
}

fn solana_key(byte: u8) -> solana_program::pubkey::Pubkey {
    solana_program::pubkey::Pubkey::new_from_array([byte; 32])
}

#[test]
fn accepts_the_derived_lending_authority() {
    let program_id = solana_key(200);
    let (pda, _bump) =
        solana_program::pubkey::Pubkey::find_program_address(&[b"DassiFinance"], &program_id);
    let pda_key = Pubkey::new_from_array(pda.to_bytes());
    assert_eq!(check_lending_vault_authority(&pda_key, &key(200)), Ok(()));
    assert_eq!(check_pda_account(&pda_key, &key(200)), Ok(()));
    assert_eq!(
        check_lending_vault_authority(&key(7), &key(200)),
        Err(DassiError::DassiVaultAccountDoesNotMatched)
    );
    assert_eq!(
        check_pda_account(&key(7), &key(200)),
        Err(DassiError::PdaAccountDoesNotMatched)
    );
}

#[test]
fn accepts_the_derived_airdrop_authority() {
    let program_id = solana_key(201);
    let (pda, _bump) = solana_program::pubkey::Pubkey::find_program_address(
        &[b"DassiFinanceAirdrop"],
        &program_id,
    );
    let pda_key = Pubkey::new_from_array(pda.to_bytes());
    assert_eq!(check_airdrop_pda_account(&pda_key, &key(201)), Ok(()));
    assert_eq!(
        check_airdrop_pda_account(&key(7), &key(201)),
        Err(DassiError::PdaAccountDoesNotMatched)
    );
}

#[test]
fn airdrops_until_the_cap() {
    let user = solana_key(30);
    let program_id = solana_key(202);
    let expected =
        solana_program::pubkey::Pubkey::create_with_seed(&user, "DassiFinanceAirdrop", &program_id)
            .unwrap();
    let storage_key = Pubkey::new_from_array(expected.to_bytes());
    let mut storage = vec![0u8; 8];
    for round in 1..=5u64 {
        let amt = Processor::process_airdrop_users_with_dassi_test_coins(
            &mut storage,
            &key(30),
            &storage_key,
            &key(202),
        )
        .unwrap();
        assert_eq!(amt, 500_000_000_000);
        assert_eq!(
            u64::from_le_bytes(storage[0..8].try_into().unwrap()),
            round * 500_000_000_000
        );
    }
    assert_eq!(
        Processor::process_airdrop_users_with_dassi_test_coins(
            &mut storage,
            &key(30),
            &storage_key,
            &key(202),
        ),
        Err(DassiError::UserAlreadyAirdroped)
    );
}

#[test]
fn airdrop_rejects_a_wrong_storage_address() {
    let mut storage = vec![0u8; 8];
    assert_eq!(
        Processor::process_airdrop_users_with_dassi_test_coins(
            &mut storage,
            &key(30),
            &key(31),
            &key(202),
        ),
        Err(DassiError::AccountMismatched)
    );
}

#[test]
fn admin_key_decodes_from_base58() {
    let admin = get_admin_pubkey();
    assert_eq!(admin.bytes.len(), 32);
    let expected = bs58::decode("857Tm9dNi6Ypur9zCcJ9oAhqYd3bE6J6s2ww77PKCSa")
        .into_vec()
        .unwrap();
    assert_eq!(admin.bytes, expected);
}

#[test]
fn key_equality_and_shape() {
    assert!(key(5).key_eq(&key(5)));
    assert!(!key(5).key_eq(&key(6)));
    assert_eq!(
        Pubkey::from_bytes(vec![0u8; 31]).unwrap_err(),
        DassiError::InvalidAccountData
    );
    let k = Pubkey::from_bytes(vec![9u8; 32]).unwrap();
    assert_eq!(k.clone_key().bytes, vec![9u8; 32]);
}
