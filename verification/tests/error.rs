use nft_market::error::NftError;

#[test]
fn the_marketplace_s_own_causes_have_custom_codes() {
    assert_eq!(NftError::NotRentExempt.custom_code(), Some(0));
    assert_eq!(NftError::InvalidInstruction.custom_code(), Some(1));
    assert_eq!(NftError::NoTokens.custom_code(), Some(2));
    assert_eq!(NftError::InvalidToken.custom_code(), Some(3));
    assert_eq!(NftError::InvalidTrade.custom_code(), Some(4));
    assert_eq!(NftError::NotEnoughLamports.custom_code(), Some(5));
}

#[test]
fn the_ledger_s_causes_have_no_custom_code() {
    for cause in [
        NftError::Overflow,
        NftError::AccountAlreadyInitialized,
        NftError::MissingRequiredSignature,
        NftError::InvalidAccountData,
        NftError::NotEnoughAccountKeys,
        NftError::IncorrectProgramId,
        NftError::AuthorityTransferFailed,
    ] {
        assert_eq!(cause.custom_code(), None);
    }
}

#[test]
fn causes_are_distinct() {
    let causes = [
        NftError::NotRentExempt,
        NftError::InvalidInstruction,
        NftError::NoTokens,
        NftError::InvalidToken,
        NftError::InvalidTrade,
        NftError::NotEnoughLamports,
        NftError::Overflow,
        NftError::AccountAlreadyInitialized,
        NftError::MissingRequiredSignature,
        NftError::InvalidAccountData,
        NftError::NotEnoughAccountKeys,
        NftError::IncorrectProgramId,
        NftError::AuthorityTransferFailed,
    ];
    for (i, a) in causes.iter().enumerate() {
        for (j, b) in causes.iter().enumerate() {
            assert_eq!(a == b, i == j);
        }
    }
}
