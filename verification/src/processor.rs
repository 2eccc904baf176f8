//! The three operations of the marketplace, carried out on the accounts
//! that come with an instruction.
//!
//! Each operation reads its accounts by position, tries the causes of
//! rejection in a fixed order and writes only when none applies, so that a
//! rejected instruction leaves every account as it was. The account that
//! must sign is tested for its signature, and each account that the
//! operation writes to is tested for being writable, before anything is
//! read from it.
//!
//! What an operation makes of its accounts is said once, by a function
//! over the accounts' views (`create_trade_outcome` and the like); the
//! contracts of the processor's functions say that they do exactly that,
//! and the laws at the end of the file are proved of those functions.
//!
//! `AddItem` depends on the token program, which this crate cannot ask. It
//! runs in two steps: [`Processor::process_add_item`] tests everything and
//! returns what is pending, the caller has the token program carry the
//! pending instruction out, and [`Processor::complete_add_item`] writes the
//! records if and only if that succeeded.
//!
//! The price of an item is the trade's base price divided by the number of
//! items left, rounded down.

use crate::account::{views, Account, AccountView, Instruction, InstructionView};
use crate::error::NftError;
use crate::instruction::{decode_instruction, ItemParams, NftInstruction};
use crate::rent::{is_rent_exempt, rent_exempt};
use crate::state::{
    lemma_item_bytes_round_trip, lemma_item_round_trip, lemma_trade_bytes_round_trip,
    lemma_trade_round_trip, same_address, Address, Item, ItemView, Trade, TradeView,
};
use crate::token::{owner_transfer, token_program_id, transfer_ownership};
use vstd::prelude::*;

verus! {

/// An `AddItem` that has passed every test and waits for the token
/// program: the records it will write, and the instruction that hands the
/// item's token account to the trade. Nothing is written before the token
/// program has carried that instruction out.
#[derive(Debug, Clone, PartialEq, Eq)]
pub struct PendingAddItem {
    /// The trade with the item counted in.
    pub trade: Trade,
    /// The item as it will be listed.
    pub item: Item,
    /// The instruction for the token program.
    pub transfer: Instruction,
}

/// What a pending `AddItem` is to a contract.
pub struct PendingAddItemView {
    pub trade: TradeView,
    pub item: ItemView,
    pub transfer: InstructionView,
}

impl View for PendingAddItem {
    type V = PendingAddItemView;

    open spec fn view(&self) -> PendingAddItemView {
        PendingAddItemView { trade: self.trade@, item: self.item@, transfer: self.transfer@ }
    }
}

/// What is pending, by its view.
pub open spec fn pending_view(pending: Option<PendingAddItem>) -> Option<PendingAddItemView> {
    match pending {
        Some(staged) => Some(staged@),
        None => None,
    }
}

/// The account `account` with `data` for its bytes.
pub open spec fn with_data(account: AccountView, data: Seq<u8>) -> AccountView {
    AccountView { data, ..account }
}

/// The account `account` with `lamports` for its balance.
pub open spec fn with_lamports(account: AccountView, lamports: u64) -> AccountView {
    AccountView { lamports, ..account }
}

/// Every address among `accounts` has its 32 bytes, as the views of real
/// accounts always have.
pub open spec fn well_formed(accounts: Seq<AccountView>) -> bool {
    forall|i: int| 0 <= i < accounts.len() ==> (#[trigger] accounts[i]).key.len() == 32
}

/// Whether the account at `witness` shows the account at `record` to be
/// exempt from rent. Where either is missing, nothing is shown.
pub open spec fn witnessed(accounts: Seq<AccountView>, record: int, witness: int) -> bool {
    0 <= record < accounts.len() && 0 <= witness < accounts.len() && rent_exempt(
        accounts[witness],
        accounts[record].lamports,
        accounts[record].data.len() as usize,
    )
}

/// The trade that `CreateTrade` writes: initialized, not locked, without
/// items, at `price`, and `initializer`'s.
pub open spec fn created_trade(initializer: Seq<u8>, price: u64) -> TradeView {
    TradeView {
        is_initialized: true,
        is_locked: false,
        initializer_pubkey: initializer,
        amount: 0,
        price,
    }
}

/// The item that `AddItem` writes: initialized, with the traits of
/// `params`, and held by the trade at `trade_address`.
pub open spec fn listed_item(params: ItemParams, trade_address: Seq<u8>) -> ItemView {
    ItemView {
        is_initialized: true,
        body_r: params.body_r,
        body_g: params.body_g,
        body_b: params.body_b,
        stripe_r: params.stripe_r,
        stripe_g: params.stripe_g,
        stripe_b: params.stripe_b,
        hat: params.hat,
        emotion: params.emotion,
        eyes: params.eyes,
        owner: trade_address,
    }
}

/// The trade `trade` with one item more.
pub open spec fn after_listing(trade: TradeView) -> TradeView
    recommends
        trade.amount < u64::MAX,
{
    TradeView { amount: (trade.amount + 1) as u64, ..trade }
}

/// What one item of `trade` costs: the base price divided by the number of
/// items left, rounded down. The last item costs the base price. Taken
/// only of a trade that has items left.
pub open spec fn price_of(trade: TradeView) -> u64
    recommends
        trade.amount > 0,
{
    (trade.price / trade.amount) as u64
}

/// The trade `trade` with one item fewer.
pub open spec fn after_sale(trade: TradeView) -> TradeView
    recommends
        trade.amount > 0,
{
    TradeView { amount: (trade.amount - 1) as u64, ..trade }
}

/// The item `item` in the hands of `buyer`.
pub open spec fn sold_item(item: ItemView, buyer: Seq<u8>) -> ItemView {
    ItemView { owner: buyer, ..item }
}

/// What `CreateTrade` at `price` makes of `accounts`, where `exempt` says
/// whether the rent witness shows the trade's record to be exempt: the
/// accounts after it, or the cause for which it is rejected. The causes
/// are tried in the order in which they stand.
pub open spec fn create_trade_outcome(
    accounts: Seq<AccountView>,
    price: u64,
    exempt: bool,
) -> Result<Seq<AccountView>, NftError> {
    if accounts.len() < 1 {
        Err(NftError::NotEnoughAccountKeys)
    } else if !accounts[0].is_signer {
        Err(NftError::MissingRequiredSignature)
    } else if accounts.len() < 3 {
        Err(NftError::NotEnoughAccountKeys)
    } else if !accounts[1].is_writable {
        Err(NftError::InvalidAccountData)
    } else if !exempt {
        Err(NftError::NotRentExempt)
    } else {
        match TradeView::parse(accounts[1].data) {
            Err(e) => Err(e),
            Ok(trade) => if trade.is_initialized {
                Err(NftError::AccountAlreadyInitialized)
            } else {
                Ok(
                    accounts.update(
                        1,
                        with_data(accounts[1], created_trade(accounts[0].key, price).bytes()),
                    ),
                )
            },
        }
    }
}

/// What `AddItem` with `params` makes of `accounts`, where `trade_exempt`
/// and `item_exempt` say whether the rent witnesses show the two records
/// to be exempt: what is pending once every test has passed, or the
/// cause for which the instruction is rejected. The causes are tried in
/// the order in which they stand.
pub open spec fn add_item_outcome(
    accounts: Seq<AccountView>,
    params: ItemParams,
    trade_exempt: bool,
    item_exempt: bool,
) -> Result<PendingAddItemView, NftError> {
    if accounts.len() < 1 {
        Err(NftError::NotEnoughAccountKeys)
    } else if !accounts[0].is_signer {
        Err(NftError::MissingRequiredSignature)
    } else if accounts.len() < 5 {
        Err(NftError::NotEnoughAccountKeys)
    } else if !accounts[1].is_writable || !accounts[3].is_writable {
        Err(NftError::InvalidAccountData)
    } else if !trade_exempt || !item_exempt {
        Err(NftError::NotRentExempt)
    } else {
        match (ItemView::parse(accounts[3].data), TradeView::parse(accounts[1].data)) {
            (Ok(item), Ok(trade)) => if !trade.is_initialized {
                Err(NftError::InvalidTrade)
            } else if item.is_initialized {
                Err(NftError::AccountAlreadyInitialized)
            } else if trade.initializer_pubkey != accounts[0].key {
                Err(NftError::InvalidAccountData)
            } else if trade.amount == u64::MAX {
                Err(NftError::Overflow)
            } else if accounts.len() < 6 {
                Err(NftError::NotEnoughAccountKeys)
            } else if accounts[5].key != token_program_id() {
                Err(NftError::IncorrectProgramId)
            } else {
                Ok(
                    PendingAddItemView {
                        trade: after_listing(trade),
                        item: listed_item(params, accounts[1].key),
                        transfer: owner_transfer(
                            accounts[5].key,
                            accounts[3].key,
                            accounts[1].key,
                            accounts[0].key,
                        ),
                    },
                )
            },
            _ => Err(NftError::InvalidAccountData),
        }
    }
}

/// What the end of an `AddItem` makes of `accounts`, where `transferred`
/// says whether the token program carried the pending instruction out:
/// the accounts with both records written, or the cause for which nothing
/// is written.
pub open spec fn complete_add_item_outcome(
    accounts: Seq<AccountView>,
    pending: PendingAddItemView,
    transferred: bool,
) -> Result<Seq<AccountView>, NftError> {
    if !transferred {
        Err(NftError::AuthorityTransferFailed)
    } else if accounts.len() < 4 {
        Err(NftError::NotEnoughAccountKeys)
    } else if !accounts[1].is_writable || !accounts[3].is_writable {
        Err(NftError::InvalidAccountData)
    } else if accounts[1].data.len() != TradeView::len() || accounts[3].data.len()
        != ItemView::len() {
        Err(NftError::InvalidAccountData)
    } else {
        Ok(
            accounts.update(1, with_data(accounts[1], pending.trade.bytes())).update(
                3,
                with_data(accounts[3], pending.item.bytes()),
            ),
        )
    }
}

/// What `BuyItem` makes of `accounts`: the accounts after it, or the
/// cause for which it is rejected. The causes are tried in the order in
/// which they stand.
pub open spec fn buy_item_outcome(accounts: Seq<AccountView>) -> Result<
    Seq<AccountView>,
    NftError,
> {
    if accounts.len() < 1 {
        Err(NftError::NotEnoughAccountKeys)
    } else if !accounts[0].is_signer {
        Err(NftError::MissingRequiredSignature)
    } else if accounts.len() < 2 {
        Err(NftError::NotEnoughAccountKeys)
    } else if !accounts[1].is_writable {
        Err(NftError::InvalidAccountData)
    } else {
        match TradeView::parse(accounts[1].data) {
            Err(e) => Err(e),
            Ok(trade) => if accounts.len() < 3 {
                Err(NftError::NotEnoughAccountKeys)
            } else if !accounts[2].is_writable {
                Err(NftError::InvalidAccountData)
            } else {
                match ItemView::parse(accounts[2].data) {
                    Err(e) => Err(e),
                    Ok(item) => if !trade.is_locked || !trade.is_initialized {
                        Err(NftError::InvalidTrade)
                    } else if trade.amount == 0 {
                        Err(NftError::NoTokens)
                    } else if !item.is_initialized {
                        Err(NftError::InvalidToken)
                    } else if item.owner != accounts[1].key {
                        Err(NftError::InvalidInstruction)
                    } else if accounts.len() < 4 {
                        Err(NftError::NotEnoughAccountKeys)
                    } else if !accounts[3].is_writable {
                        Err(NftError::InvalidAccountData)
                    } else if accounts[3].lamports != price_of(trade) {
                        Err(NftError::NotEnoughLamports)
                    } else if accounts[1].lamports + accounts[3].lamports > u64::MAX {
                        Err(NftError::Overflow)
                    } else {
                        Ok(
                            accounts.update(
                                1,
                                AccountView {
                                    lamports: (accounts[1].lamports + accounts[3].lamports) as u64,
                                    data: after_sale(trade).bytes(),
                                    ..accounts[1]
                                },
                            ).update(
                                2,
                                with_data(accounts[2], sold_item(item, accounts[0].key).bytes()),
                            ).update(3, with_lamports(accounts[3], 0)),
                        )
                    },
                }
            },
        }
    }
}

/// What the instruction held in `data` makes of `accounts`, where
/// `trade_exempt` and `item_exempt` say what the rent witnesses show of the
/// two records: the accounts after it and what is pending, or the cause
/// for which it is rejected. `AddItem` leaves the accounts as they are and
/// is pending; the other two are done at once.
pub open spec fn process_outcome(
    accounts: Seq<AccountView>,
    data: Seq<u8>,
    trade_exempt: bool,
    item_exempt: bool,
) -> Result<(Seq<AccountView>, Option<PendingAddItemView>), NftError> {
    match decode_instruction(data) {
        Err(e) => Err(e),
        Ok(NftInstruction::CreateTrade { start_price }) => match create_trade_outcome(
            accounts,
            start_price,
            trade_exempt,
        ) {
            Ok(after) => Ok((after, None)),
            Err(e) => Err(e),
        },
        Ok(NftInstruction::AddItem { params }) => match add_item_outcome(
            accounts,
            params,
            trade_exempt,
            item_exempt,
        ) {
            Ok(pending) => Ok((accounts, Some(pending))),
            Err(e) => Err(e),
        },
        Ok(NftInstruction::BuyItem) => match buy_item_outcome(accounts) {
            Ok(after) => Ok((after, None)),
            Err(e) => Err(e),
        },
    }
}

/// The processor of the marketplace's instructions.
pub struct Processor;

impl Processor {
    /// Decodes an instruction and carries it out on `accounts`.
    /// `CreateTrade` and `BuyItem` are done when this returns, and the
    /// result is `None`. `AddItem` has then passed its tests and written
    /// nothing: the result holds what is pending, for
    /// [`Processor::complete_add_item`] once the token program has been
    /// asked. A rejected instruction leaves every account as it was.
    pub fn process(
        program_id: &Address,
        accounts: &mut Vec<Account>,
        instruction_data: &[u8],
    ) -> (res: Result<Option<PendingAddItem>, NftError>)
        ensures
            match process_outcome(
                views(old(accounts)@),
                instruction_data@,
                witnessed(views(old(accounts)@), 1, 2),
                witnessed(views(old(accounts)@), 3, 4),
            ) {
                Ok((after, pending)) => res matches Ok(staged) && pending_view(staged) == pending
                    && views(final(accounts)@) == after,
                Err(e) => res == Err::<Option<PendingAddItem>, NftError>(e),
            },
            !(res matches Ok(None)) ==> final(accounts)@ == old(accounts)@,
    {
        let instruction = match NftInstruction::unpack(instruction_data) {
            Ok(instruction) => instruction,
            Err(e) => {
                return Err(e);
            },
        };
        match instruction {
            NftInstruction::AddItem { params } => {
                match Self::process_add_item(accounts, params, program_id) {
                    Ok(pending) => Ok(Some(pending)),
                    Err(e) => Err(e),
                }
            },
            NftInstruction::CreateTrade { start_price } => {
                match Self::process_create_trade(accounts, start_price, program_id) {
                    Ok(()) => Ok(None),
                    Err(e) => Err(e),
                }
            },
            NftInstruction::BuyItem => {
                match Self::process_buy_item(accounts) {
                    Ok(()) => Ok(None),
                    Err(e) => Err(e),
                }
            },
        }
    }

    /// Carries out `CreateTrade`: the first account is the initializer,
    /// who must have signed; the second holds the trade's record, which
    /// must be writable, exempt from rent by the witness in the third and
    /// not yet initialized. Writes the new trade to the record and nothing
    /// else; a rejected instruction leaves every account as it was.
    pub fn process_create_trade(
        accounts: &mut Vec<Account>,
        price: u64,
        program_id: &Address,
    ) -> (res: Result<(), NftError>)
        ensures
            match create_trade_outcome(
                views(old(accounts)@),
                price,
                witnessed(views(old(accounts)@), 1, 2),
            ) {
                Ok(after) => res is Ok && views(final(accounts)@) == after,
                Err(e) => res == Err::<(), NftError>(e) && final(accounts)@ == old(accounts)@,
            },
    {
        let exempt = accounts.len() >= 3 && is_rent_exempt(
            &accounts[2],
            accounts[1].lamports,
            accounts[1].data.len(),
        );
        Self::create_trade(accounts, price, exempt)
    }

    /// `CreateTrade`, given what the rent witness shows: creates the trade
    /// in the second account for the signer in the first, where `exempt`
    /// says that the record is exempt from rent. A rejected instruction
    /// leaves every account as it was.
    pub fn create_trade(accounts: &mut Vec<Account>, price: u64, exempt: bool) -> (res: Result<
        (),
        NftError,
    >)
        ensures
            match create_trade_outcome(views(old(accounts)@), price, exempt) {
                Ok(after) => res is Ok && views(final(accounts)@) == after,
                Err(e) => res == Err::<(), NftError>(e) && final(accounts)@ == old(accounts)@,
            },
    {
        if accounts.len() < 1 {
            return Err(NftError::NotEnoughAccountKeys);
        }
        if !accounts[0].is_signer {
            return Err(NftError::MissingRequiredSignature);
        }
        if accounts.len() < 3 {
            return Err(NftError::NotEnoughAccountKeys);
        }
        if !accounts[1].is_writable {
            return Err(NftError::InvalidAccountData);
        }
        if !exempt {
            return Err(NftError::NotRentExempt);
        }
        let trade = match Trade::unpack_unchecked(accounts[1].data.as_slice()) {
            Ok(trade) => trade,
            Err(e) => {
                return Err(e);
            },
        };
        if trade.is_initialized() {
            return Err(NftError::AccountAlreadyInitialized);
        }
        let created = Trade {
            is_initialized: true,
            is_locked: false,
            initializer_pubkey: accounts[0].key,
            amount: 0,
            price,
        };
        created.pack_into_slice(accounts[1].data.as_mut_slice());
        proof {
            let before = views(old(accounts)@);
            assert(views(accounts@) =~= before.update(
                1,
                with_data(before[1], created@.bytes()),
            ));
        }
        Ok(())
    }

    /// Carries out the first step of `AddItem`: the first account is the
    /// trade's initializer, who must have signed; the second holds the
    /// trade's record and the fourth the item's, each writable and exempt
    /// from rent by the witness that follows it; the sixth is the token
    /// program. The trade must be initialized and the signer's, the item
    /// not yet initialized. Writes nothing: what is to be written comes
    /// back as pending, with the instruction that the token program must
    /// carry out first.
    pub fn process_add_item(
        accounts: &Vec<Account>,
        params: ItemParams,
        program_id: &Address,
    ) -> (res: Result<PendingAddItem, NftError>)
        ensures
            match add_item_outcome(
                views(accounts@),
                params,
                witnessed(views(accounts@), 1, 2),
                witnessed(views(accounts@), 3, 4),
            ) {
                Ok(pending) => res matches Ok(staged) && staged@ == pending,
                Err(e) => res == Err::<PendingAddItem, NftError>(e),
            },
    {
        let trade_exempt = accounts.len() >= 3 && is_rent_exempt(
            &accounts[2],
            accounts[1].lamports,
            accounts[1].data.len(),
        );
        let item_exempt = accounts.len() >= 5 && is_rent_exempt(
            &accounts[4],
            accounts[3].lamports,
            accounts[3].data.len(),
        );
        Self::add_item(accounts, params, trade_exempt, item_exempt)
    }

    /// The first step of `AddItem`, given what the rent witnesses show:
    /// tests the instruction and stages its writes. Writes nothing.
    pub fn add_item(
        accounts: &Vec<Account>,
        params: ItemParams,
        trade_exempt: bool,
        item_exempt: bool,
    ) -> (res: Result<PendingAddItem, NftError>)
        ensures
            match add_item_outcome(views(accounts@), params, trade_exempt, item_exempt) {
                Ok(pending) => res matches Ok(staged) && staged@ == pending,
                Err(e) => res == Err::<PendingAddItem, NftError>(e),
            },
    {
        if accounts.len() < 1 {
            return Err(NftError::NotEnoughAccountKeys);
        }
        if !accounts[0].is_signer {
            return Err(NftError::MissingRequiredSignature);
        }
        if accounts.len() < 5 {
            return Err(NftError::NotEnoughAccountKeys);
        }
        if !accounts[1].is_writable || !accounts[3].is_writable {
            return Err(NftError::InvalidAccountData);
        }
        if !trade_exempt || !item_exempt {
            return Err(NftError::NotRentExempt);
        }
        let item = match Item::unpack_unchecked(accounts[3].data.as_slice()) {
            Ok(item) => item,
            Err(e) => {
                return Err(e);
            },
        };
        let trade = match Trade::unpack_unchecked(accounts[1].data.as_slice()) {
            Ok(trade) => trade,
            Err(e) => {
                return Err(e);
            },
        };
        if !trade.is_initialized() {
            return Err(NftError::InvalidTrade);
        }
        if item.is_initialized() {
            return Err(NftError::AccountAlreadyInitialized);
        }
        if !same_address(&trade.initializer_pubkey, &accounts[0].key) {
            return Err(NftError::InvalidAccountData);
        }
        let amount = match trade.amount.checked_add(1) {
            Some(amount) => amount,
            None => {
                return Err(NftError::Overflow);
            },
        };
        if accounts.len() < 6 {
            return Err(NftError::NotEnoughAccountKeys);
        }
        let transfer = match transfer_ownership(
            &accounts[5].key,
            &accounts[3].key,
            &accounts[1].key,
            &accounts[0].key,
        ) {
            Ok(transfer) => transfer,
            Err(e) => {
                return Err(e);
            },
        };
        let listed = Item {
            is_initialized: true,
            body_r: params.body_r,
            body_g: params.body_g,
            body_b: params.body_b,
            stripe_r: params.stripe_r,
            stripe_g: params.stripe_g,
            stripe_b: params.stripe_b,
            hat: params.hat,
            emotion: params.emotion,
            eyes: params.eyes,
            owner: accounts[1].key,
        };
        let counted = Trade {
            is_initialized: trade.is_initialized,
            is_locked: trade.is_locked,
            initializer_pubkey: trade.initializer_pubkey,
            amount,
            price: trade.price,
        };
        Ok(PendingAddItem { trade: counted, item: listed, transfer })
    }

    /// Ends an `AddItem`: where the token program has carried the pending
    /// instruction out, writes the trade's record to the second account
    /// and the item's to the fourth; where it has not, or where the
    /// accounts cannot take the records, fails and leaves every account as
    /// it was.
    pub fn complete_add_item(
        accounts: &mut Vec<Account>,
        pending: &PendingAddItem,
        transferred: bool,
    ) -> (res: Result<(), NftError>)
        ensures
            match complete_add_item_outcome(views(old(accounts)@), pending@, transferred) {
                Ok(after) => res is Ok && views(final(accounts)@) == after,
                Err(e) => res == Err::<(), NftError>(e) && final(accounts)@ == old(accounts)@,
            },
            !transferred ==> res is Err && final(accounts)@ == old(accounts)@,
    {
        if !transferred {
            return Err(NftError::AuthorityTransferFailed);
        }
        if accounts.len() < 4 {
            return Err(NftError::NotEnoughAccountKeys);
        }
        if !accounts[1].is_writable || !accounts[3].is_writable {
            return Err(NftError::InvalidAccountData);
        }
        if accounts[1].data.len() != Trade::LEN || accounts[3].data.len() != Item::LEN {
            return Err(NftError::InvalidAccountData);
        }
        pending.trade.pack_into_slice(accounts[1].data.as_mut_slice());
        pending.item.pack_into_slice(accounts[3].data.as_mut_slice());
        proof {
            let before = views(old(accounts)@);
            assert(views(accounts@) =~= before.update(
                1,
                with_data(before[1], pending@.trade.bytes()),
            ).update(3, with_data(before[3], pending@.item.bytes())));
        }
        Ok(())
    }

    /// Carries out `BuyItem`: the first account is the buyer, who must
    /// have signed; the second holds the trade's record, the third the
    /// item's, the fourth the payment, all three writable. The trade must
    /// be initialized, locked and not sold out; the item initialized and
    /// held by the trade; the payment exactly the price. Hands the item to
    /// the buyer, counts it out of the trade and moves the whole payment
    /// to the trade's account. A rejected instruction leaves every account
    /// as it was.
    pub fn process_buy_item(accounts: &mut Vec<Account>) -> (res: Result<(), NftError>)
        ensures
            match buy_item_outcome(views(old(accounts)@)) {
                Ok(after) => res is Ok && views(final(accounts)@) == after,
                Err(e) => res == Err::<(), NftError>(e) && final(accounts)@ == old(accounts)@,
            },
    {
        if accounts.len() < 1 {
            return Err(NftError::NotEnoughAccountKeys);
        }
        if !accounts[0].is_signer {
            return Err(NftError::MissingRequiredSignature);
        }
        if accounts.len() < 2 {
            return Err(NftError::NotEnoughAccountKeys);
        }
        if !accounts[1].is_writable {
            return Err(NftError::InvalidAccountData);
        }
        let trade = match Trade::unpack_unchecked(accounts[1].data.as_slice()) {
            Ok(trade) => trade,
            Err(e) => {
                return Err(e);
            },
        };
        if accounts.len() < 3 {
            return Err(NftError::NotEnoughAccountKeys);
        }
        if !accounts[2].is_writable {
            return Err(NftError::InvalidAccountData);
        }
        let item = match Item::unpack_unchecked(accounts[2].data.as_slice()) {
            Ok(item) => item,
            Err(e) => {
                return Err(e);
            },
        };
        if !trade.is_locked() || !trade.is_initialized() {
            return Err(NftError::InvalidTrade);
        }
        if trade.amount == 0 {
            return Err(NftError::NoTokens);
        }
        if !item.is_initialized() {
            return Err(NftError::InvalidToken);
        }
        if !same_address(&item.owner, &accounts[1].key) {
            return Err(NftError::InvalidInstruction);
        }
        if accounts.len() < 4 {
            return Err(NftError::NotEnoughAccountKeys);
        }
        if !accounts[3].is_writable {
            return Err(NftError::InvalidAccountData);
        }
        let price: u64 = trade.price / trade.amount;
        if accounts[3].lamports != price {
            return Err(NftError::NotEnoughLamports);
        }
        let balance = match accounts[1].lamports.checked_add(accounts[3].lamports) {
            Some(balance) => balance,
            None => {
                return Err(NftError::Overflow);
            },
        };
        let sold = Item {
            is_initialized: item.is_initialized,
            body_r: item.body_r,
            body_g: item.body_g,
            body_b: item.body_b,
            stripe_r: item.stripe_r,
            stripe_g: item.stripe_g,
            stripe_b: item.stripe_b,
            hat: item.hat,
            emotion: item.emotion,
            eyes: item.eyes,
            owner: accounts[0].key,
        };
        let left = Trade {
            is_initialized: trade.is_initialized,
            is_locked: trade.is_locked,
            initializer_pubkey: trade.initializer_pubkey,
            amount: trade.amount - 1,
            price: trade.price,
        };
        sold.pack_into_slice(accounts[2].data.as_mut_slice());
        left.pack_into_slice(accounts[1].data.as_mut_slice());
        accounts[1].lamports = balance;
        accounts[3].lamports = 0;
        proof {
            let before = views(old(accounts)@);
            assert(views(accounts@) =~= before.update(
                1,
                AccountView { lamports: balance, data: left@.bytes(), ..before[1] },
            ).update(2, with_data(before[2], sold@.bytes())).update(
                3,
                with_lamports(before[3], 0),
            ));
        }
        Ok(())
    }
}

/// The views of real accounts are well formed.
pub proof fn lemma_views_well_formed(accounts: Seq<Account>)
    ensures
        well_formed(views(accounts)),
        views(accounts).len() == accounts.len(),
{
}

/// `CreateTrade` against a trade that is initialized already is rejected
/// as such, whatever the price; the signer, the record's account and the
/// rent witness being in order.
pub proof fn lemma_initialized_trade_not_created(accounts: Seq<AccountView>, price: u64)
    requires
        accounts.len() >= 3,
        accounts[0].is_signer,
        accounts[1].is_writable,
        TradeView::parse(accounts[1].data) matches Ok(trade) && trade.is_initialized,
    ensures
        create_trade_outcome(accounts, price, true) == Err::<Seq<AccountView>, NftError>(
            NftError::AccountAlreadyInitialized,
        ),
{
}

/// A trade is created once: after a `CreateTrade` that went through, no
/// second one does, whoever signs it and at whatever price, and one that
/// gets as far as the record is rejected because the record is
/// initialized.
pub proof fn lemma_create_trade_once(
    accounts: Seq<AccountView>,
    first_price: u64,
    first_exempt: bool,
    second_signer: AccountView,
    second_price: u64,
    second_exempt: bool,
)
    requires
        well_formed(accounts),
        create_trade_outcome(accounts, first_price, first_exempt) is Ok,
    ensures
        ({
            let created = create_trade_outcome(accounts, first_price, first_exempt).unwrap();
            let again = create_trade_outcome(
                created.update(0, second_signer),
                second_price,
                second_exempt,
            );
            &&& again is Err
            &&& second_signer.is_signer && second_exempt ==> again == Err::<
                Seq<AccountView>,
                NftError,
            >(NftError::AccountAlreadyInitialized)
        }),
{
    lemma_trade_round_trip(created_trade(accounts[0].key, first_price));
}

/// `AddItem` by a signer who is not the trade's initializer is rejected
/// with `InvalidAccountData`; the accounts, the rent witnesses and both
/// records being in order.
pub proof fn lemma_add_item_needs_initializer(accounts: Seq<AccountView>, params: ItemParams)
    requires
        accounts.len() >= 5,
        accounts[0].is_signer,
        accounts[1].is_writable,
        accounts[3].is_writable,
        TradeView::parse(accounts[1].data) matches Ok(trade) && trade.is_initialized
            && trade.initializer_pubkey != accounts[0].key,
        ItemView::parse(accounts[3].data) matches Ok(item) && !item.is_initialized,
    ensures
        add_item_outcome(accounts, params, true, true) == Err::<PendingAddItemView, NftError>(
            NftError::InvalidAccountData,
        ),
{
}

/// An `AddItem` that passed its tests on `accounts` can be completed on
/// them, and counts exactly one item in. The trade keeps its price, its
/// lock and its initializer; the item has the traits it came with and is
/// held by the trade.
pub proof fn lemma_add_item_completes(
    accounts: Seq<AccountView>,
    params: ItemParams,
    trade_exempt: bool,
    item_exempt: bool,
)
    requires
        well_formed(accounts),
        add_item_outcome(accounts, params, trade_exempt, item_exempt) is Ok,
    ensures
        ({
            let pending = add_item_outcome(accounts, params, trade_exempt, item_exempt).unwrap();
            let before = TradeView::parse(accounts[1].data).unwrap();
            &&& complete_add_item_outcome(accounts, pending, true) matches Ok(after)
            &&& TradeView::parse(after[1].data) == Ok::<TradeView, NftError>(after_listing(before))
            &&& after_listing(before).amount == before.amount + 1
            &&& ItemView::parse(after[3].data) == Ok::<ItemView, NftError>(
                listed_item(params, accounts[1].key),
            )
            &&& forall|i: int|
                0 <= i < accounts.len() && i != 1 && i != 3 ==> after[i] == accounts[i]
        }),
{
    let pending = add_item_outcome(accounts, params, trade_exempt, item_exempt).unwrap();
    lemma_trade_bytes_round_trip(accounts[1].data);
    lemma_trade_round_trip(pending.trade);
    lemma_item_round_trip(pending.item);
}

/// Where the token program does not carry the transfer out, the end of an
/// `AddItem` is its rejection, whatever the accounts and whatever was
/// pending: there is no outcome in which an account is written.
pub proof fn lemma_failed_transfer_writes_nothing(
    accounts: Seq<AccountView>,
    pending: PendingAddItemView,
)
    ensures
        complete_add_item_outcome(accounts, pending, false) == Err::<Seq<AccountView>, NftError>(
            NftError::AuthorityTransferFailed,
        ),
{
}

/// `BuyItem` against a trade that is not locked is rejected with
/// `InvalidTrade`, whatever the payment account holds and whether there is
/// one; the signer, the two accounts and both records being in order.
pub proof fn lemma_unlocked_trade_not_sold(accounts: Seq<AccountView>)
    requires
        accounts.len() >= 3,
        accounts[0].is_signer,
        accounts[1].is_writable,
        accounts[2].is_writable,
        TradeView::parse(accounts[1].data) matches Ok(trade) && !trade.is_locked,
        ItemView::parse(accounts[2].data) is Ok,
    ensures
        buy_item_outcome(accounts) == Err::<Seq<AccountView>, NftError>(NftError::InvalidTrade),
{
}

/// `BuyItem` against a trade without items is rejected with `NoTokens`;
/// the signer, the two accounts and both records being in order, the trade
/// initialized and locked.
pub proof fn lemma_empty_trade_not_sold(accounts: Seq<AccountView>)
    requires
        accounts.len() >= 3,
        accounts[0].is_signer,
        accounts[1].is_writable,
        accounts[2].is_writable,
        TradeView::parse(accounts[1].data) matches Ok(trade) && trade.is_initialized
            && trade.is_locked && trade.amount == 0,
        ItemView::parse(accounts[2].data) is Ok,
    ensures
        buy_item_outcome(accounts) == Err::<Seq<AccountView>, NftError>(NftError::NoTokens),
{
}

/// The count of items never passes below zero: whatever the accounts, a
/// `BuyItem` that goes through found at least one item and leaves exactly
/// one fewer, and one that finds none is rejected.
pub proof fn lemma_item_count_never_wraps(accounts: Seq<AccountView>)
    requires
        well_formed(accounts),
    ensures
        buy_item_outcome(accounts) matches Ok(after) ==> {
            &&& TradeView::parse(accounts[1].data) matches Ok(before)
            &&& before.amount > 0
            &&& TradeView::parse(after[1].data) == Ok::<TradeView, NftError>(after_sale(before))
            &&& after_sale(before).amount == before.amount - 1
        },
        (TradeView::parse(accounts[1].data) matches Ok(trade) && trade.amount == 0)
            ==> buy_item_outcome(accounts) is Err,
{
    if buy_item_outcome(accounts) is Ok {
        let before = TradeView::parse(accounts[1].data).unwrap();
        lemma_trade_bytes_round_trip(accounts[1].data);
        lemma_trade_round_trip(after_sale(before));
    }
}

/// What a `BuyItem` that goes through does: the payment was the price;
/// the item is the buyer's and otherwise as it was; the trade's account
/// holds what it held and the payment; the payment account holds nothing;
/// and the other accounts are as they were.
pub proof fn lemma_buy_item_settles(accounts: Seq<AccountView>)
    requires
        well_formed(accounts),
        buy_item_outcome(accounts) is Ok,
    ensures
        ({
            let after = buy_item_outcome(accounts).unwrap();
            let trade = TradeView::parse(accounts[1].data).unwrap();
            let item = ItemView::parse(accounts[2].data).unwrap();
            &&& after.len() == accounts.len()
            &&& accounts[3].lamports == price_of(trade)
            &&& ItemView::parse(after[2].data) == Ok::<ItemView, NftError>(
                sold_item(item, accounts[0].key),
            )
            &&& after[1].lamports == accounts[1].lamports + accounts[3].lamports
            &&& after[3].lamports == 0
            &&& after[3].data == accounts[3].data
            &&& after[2].lamports == accounts[2].lamports
            &&& forall|i: int|
                0 <= i < accounts.len() && !(1 <= i <= 3) ==> after[i] == accounts[i]
        }),
{
    let item = ItemView::parse(accounts[2].data).unwrap();
    lemma_item_bytes_round_trip(accounts[2].data);
    lemma_item_round_trip(sold_item(item, accounts[0].key));
}

/// Whether `after` differs from `before` only in the bytes and balances
/// of accounts that are writable: the same accounts stand at the same
/// places, with their addresses and their roles.
pub open spec fn only_writable_changed(before: Seq<AccountView>, after: Seq<AccountView>) -> bool {
    &&& after.len() == before.len()
    &&& forall|i: int|
        0 <= i < before.len() ==> {
            &&& (#[trigger] after[i]).key == before[i].key
            &&& after[i].is_signer == before[i].is_signer
            &&& after[i].is_writable == before[i].is_writable
            &&& after[i].data.len() == before[i].data.len()
            &&& after[i] != before[i] ==> before[i].is_writable
        }
}

/// No operation writes to an account that is not writable, moves an
/// account, or changes an address, a role or the length of an account's
/// bytes.
pub proof fn lemma_only_writable_accounts_change(
    accounts: Seq<AccountView>,
    price: u64,
    exempt: bool,
    pending: PendingAddItemView,
)
    requires
        well_formed(accounts),
        pending.trade.wf(),
        pending.item.wf(),
    ensures
        create_trade_outcome(accounts, price, exempt) matches Ok(after) ==> only_writable_changed(
            accounts,
            after,
        ),
        complete_add_item_outcome(accounts, pending, true) matches Ok(after)
            ==> only_writable_changed(accounts, after),
        buy_item_outcome(accounts) matches Ok(after) ==> only_writable_changed(accounts, after),
{
    if create_trade_outcome(accounts, price, exempt) is Ok {
        lemma_trade_round_trip(created_trade(accounts[0].key, price));
    }
    if complete_add_item_outcome(accounts, pending, true) is Ok {
        lemma_trade_round_trip(pending.trade);
        lemma_item_round_trip(pending.item);
    }
    if buy_item_outcome(accounts) is Ok {
        let trade = TradeView::parse(accounts[1].data).unwrap();
        let item = ItemView::parse(accounts[2].data).unwrap();
        lemma_trade_bytes_round_trip(accounts[1].data);
        lemma_item_bytes_round_trip(accounts[2].data);
        lemma_trade_round_trip(after_sale(trade));
        lemma_item_round_trip(sold_item(item, accounts[0].key));
    }
}

} // verus!
