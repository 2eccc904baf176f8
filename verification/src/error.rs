//! The causes for which an instruction is rejected.

use vstd::prelude::*;

verus! {

/// Why an instruction was rejected. Each variant is one reportable cause;
/// none stands in for another.
#[derive(Debug, Copy, Clone, PartialEq, Eq, Structural)]
pub enum NftError {
    /// A record account does not hold the balance that the rent witness
    /// supplied with it demands, or the witness is not one.
    NotRentExempt,
    /// The instruction bytes are empty, carry an unknown tag or are too
    /// short for their fields; or the item offered is not attached to the
    /// trade it is bought from.
    InvalidInstruction,
    /// The trade has no items left.
    NoTokens,
    /// The item record is not initialized.
    InvalidToken,
    /// The trade is not initialized, or not locked where a purchase needs
    /// it locked.
    InvalidTrade,
    /// The payment account does not hold exactly the price.
    NotEnoughLamports,
    /// A checked addition or increment would leave the range of `u64`.
    Overflow,
    /// The record that the instruction would initialize is initialized
    /// already.
    AccountAlreadyInitialized,
    /// The first account did not sign the instruction.
    MissingRequiredSignature,
    /// A record buffer has the wrong length or a flag byte other than `0`
    /// or `1`, the signer is not the trade's initializer, or an account
    /// that the operation writes to is not writable.
    InvalidAccountData,
    /// The instruction came with fewer accounts than its operation reads.
    NotEnoughAccountKeys,
    /// The account in the token program's place is not the token program.
    IncorrectProgramId,
    /// The token program refused to hand the item's token account over to
    /// the trade.
    AuthorityTransferFailed,
}

impl NftError {
    /// The number under which the ledger reports the marketplace's own
    /// causes; `None` for the causes that the ledger has a name for.
    pub open spec fn spec_custom_code(self) -> Option<u32> {
        match self {
            NftError::NotRentExempt => Some(0u32),
            NftError::InvalidInstruction => Some(1u32),
            NftError::NoTokens => Some(2u32),
            NftError::InvalidToken => Some(3u32),
            NftError::InvalidTrade => Some(4u32),
            NftError::NotEnoughLamports => Some(5u32),
            _ => None,
        }
    }

    /// The number under which the ledger reports this cause as a custom
    /// program error, if it is one of the marketplace's own.
    #[verifier::when_used_as_spec(spec_custom_code)]
    pub fn custom_code(self) -> (code: Option<u32>)
        ensures
            code == self.spec_custom_code(),
    {
        match self {
            NftError::NotRentExempt => Some(0u32),
            NftError::InvalidInstruction => Some(1u32),
            NftError::NoTokens => Some(2u32),
            NftError::InvalidToken => Some(3u32),
            NftError::InvalidTrade => Some(4u32),
            NftError::NotEnoughLamports => Some(5u32),
            _ => None,
        }
    }
}

} // verus!
