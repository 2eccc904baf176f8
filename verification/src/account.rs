//! The accounts that an instruction is handed, and the instruction that
//! the processor hands on to another program.

use crate::state::Address;
use vstd::prelude::*;

verus! {

/// One account as an instruction sees it.
#[derive(Debug, Clone, PartialEq, Eq)]
pub struct Account {
    /// The account's address.
    pub key: Address,
    /// Whether the account signed the transaction.
    pub is_signer: bool,
    /// Whether the instruction may change the account.
    pub is_writable: bool,
    /// The account's balance, in the ledger's native unit.
    pub lamports: u64,
    /// The bytes that the account stores.
    pub data: Vec<u8>,
}

/// What an account is to a contract.
pub struct AccountView {
    pub key: Seq<u8>,
    pub is_signer: bool,
    pub is_writable: bool,
    pub lamports: u64,
    pub data: Seq<u8>,
}

impl View for Account {
    type V = AccountView;

    open spec fn view(&self) -> AccountView {
        AccountView {
            key: self.key@,
            is_signer: self.is_signer,
            is_writable: self.is_writable,
            lamports: self.lamports,
            data: self.data@,
        }
    }
}

/// The accounts of an instruction, each by its view.
pub open spec fn views(accounts: Seq<Account>) -> Seq<AccountView> {
    Seq::new(accounts.len(), |i: int| accounts[i]@)
}

/// How an instruction for another program refers to one account.
#[derive(Debug, Clone, PartialEq, Eq)]
pub struct AccountMeta {
    /// The account's address.
    pub pubkey: Address,
    /// Whether the instruction needs the account's signature.
    pub is_signer: bool,
    /// Whether the instruction may change the account.
    pub is_writable: bool,
}

/// What an account reference is to a contract.
pub struct AccountMetaView {
    pub pubkey: Seq<u8>,
    pub is_signer: bool,
    pub is_writable: bool,
}

impl View for AccountMeta {
    type V = AccountMetaView;

    open spec fn view(&self) -> AccountMetaView {
        AccountMetaView {
            pubkey: self.pubkey@,
            is_signer: self.is_signer,
            is_writable: self.is_writable,
        }
    }
}

/// An instruction for another program.
#[derive(Debug, Clone, PartialEq, Eq)]
pub struct Instruction {
    /// The program that is to carry the instruction out.
    pub program_id: Address,
    /// The accounts that the program is handed, in order.
    pub accounts: Vec<AccountMeta>,
    /// The bytes that the program decodes.
    pub data: Vec<u8>,
}

/// What an instruction for another program is to a contract.
pub struct InstructionView {
    pub program_id: Seq<u8>,
    pub accounts: Seq<AccountMetaView>,
    pub data: Seq<u8>,
}

impl View for Instruction {
    type V = InstructionView;

    open spec fn view(&self) -> InstructionView {
        InstructionView {
            program_id: self.program_id@,
            accounts: Seq::new(self.accounts@.len(), |i: int| self.accounts@[i]@),
            data: self.data@,
        }
    }
}

} // verus!
