use nft_market::account::AccountMeta;
use nft_market::error::NftError;
use nft_market::token::transfer_ownership;
use solana_program::pubkey::Pubkey;
use spl_token::instruction::{set_authority, AuthorityType};

fn token_program() -> [u8; 32] {
    spl_token::id().to_bytes()
}

#[test]
fn the_token_program_has_its_address() {
    assert_eq!(
        token_program(),
        [
            6, 221, 246, 225, 215, 101, 161, 147, 217, 203, 225, 70, 206, 235, 121, 172, 28, 180,
            133, 237, 95, 91, 55, 145, 58, 140, 245, 133, 126, 255, 0, 169
        ]
    );
}

#[test]
fn transfer_ownership_builds_the_instruction() {
    let account = [3u8; 32];
    let new_owner = [1u8; 32];
    let owner = [7u8; 32];
    let instruction = transfer_ownership(&token_program(), &account, &new_owner, &owner).unwrap();
    assert_eq!(instruction.program_id, token_program());
    assert_eq!(
        instruction.accounts,
        vec![
            AccountMeta { pubkey: account, is_signer: false, is_writable: true },
            AccountMeta { pubkey: owner, is_signer: false, is_writable: false },
            AccountMeta { pubkey: owner, is_signer: true, is_writable: false },
        ]
    );
    let mut data = vec![6u8, 2, 1];
    data.extend_from_slice(&new_owner);
    assert_eq!(instruction.data, data);
}

#[test]
fn transfer_ownership_is_the_token_program_s_set_authority() {
    let account = [0x21u8; 32];
    let new_owner = [0x43u8; 32];
    let owner = [0x65u8; 32];
    let ours = transfer_ownership(&token_program(), &account, &new_owner, &owner).unwrap();
    let current = Pubkey::new_from_array(owner);
    let theirs = set_authority(
        &spl_token::id(),
        &Pubkey::new_from_array(account),
        Some(&Pubkey::new_from_array(new_owner)),
        AuthorityType::AccountOwner,
        &current,
        &[&current],
    )
    .unwrap();
    assert_eq!(ours.program_id, theirs.program_id.to_bytes());
    assert_eq!(ours.data, theirs.data);
    assert_eq!(ours.accounts.len(), theirs.accounts.len());
    for (our, their) in ours.accounts.iter().zip(theirs.accounts.iter()) {
        assert_eq!(our.pubkey, their.pubkey.to_bytes());
        assert_eq!(our.is_signer, their.is_signer);
        assert_eq!(our.is_writable, their.is_writable);
    }
}

#[test]
fn transfer_ownership_rejects_another_program() {
    let mut other = token_program();
    other[31] ^= 1;
    assert_eq!(
        transfer_ownership(&other, &[3; 32], &[1; 32], &[7; 32]),
        Err(NftError::IncorrectProgramId)
    );
    assert_eq!(
        transfer_ownership(&[0; 32], &[3; 32], &[1; 32], &[7; 32]),
        Err(NftError::IncorrectProgramId)
    );
}
