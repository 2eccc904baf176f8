//! The two persistent records, trade and item, and their fixed byte
//! layouts.
//!
//! A trade takes 50 bytes: the initialized flag, the locked flag, the
//! initializer's address (32), the count of unsold items (8, little-endian)
//! and the base price (8, little-endian). An item takes 48 bytes: the
//! initialized flag, six colour channels of one byte each, the hat (4,
//! little-endian), the emotion (1), the eyes (4, little-endian) and the
//! owner's address (32). There is no padding and no version byte.

use crate::codec::{
    flag_byte, le_bytes, le_value, lemma_le_bytes_len, lemma_le_bytes_of_value,
    lemma_le_value_bound, lemma_le_value_of_bytes, lemma_radix_values, read_flag, read_le,
    write_flag, write_le,
};
use crate::error::NftError;
use vstd::prelude::*;

verus! {

/// The 32 bytes that name an account on the ledger.
pub type Address = [u8; 32];

/// One marketplace listing.
#[derive(Debug, Clone, Copy, PartialEq, Eq)]
pub struct Trade {
    /// Guards against a second initialization.
    pub is_initialized: bool,
    /// True once the listing is sealed for purchase.
    pub is_locked: bool,
    /// The account that created the trade and may add items to it.
    pub initializer_pubkey: Address,
    /// How many items are attached and unsold.
    pub amount: u64,
    /// The base price, in the ledger's native unit.
    pub price: u64,
}

/// What a trade is to a contract: its fields, the address as a sequence.
pub struct TradeView {
    pub is_initialized: bool,
    pub is_locked: bool,
    pub initializer_pubkey: Seq<u8>,
    pub amount: u64,
    pub price: u64,
}

impl View for Trade {
    type V = TradeView;

    open spec fn view(&self) -> TradeView {
        TradeView {
            is_initialized: self.is_initialized,
            is_locked: self.is_locked,
            initializer_pubkey: self.initializer_pubkey@,
            amount: self.amount,
            price: self.price,
        }
    }
}

/// One tokenized good.
#[derive(Debug, Clone, Copy, PartialEq, Eq)]
pub struct Item {
    pub is_initialized: bool,
    pub body_r: u8,
    pub body_g: u8,
    pub body_b: u8,
    pub stripe_r: u8,
    pub stripe_g: u8,
    pub stripe_b: u8,
    pub hat: u32,
    pub emotion: u8,
    pub eyes: u32,
    /// Who holds the item: its owner before it is listed, the trade's
    /// address while it is listed, the buyer once it is sold.
    pub owner: Address,
}

/// What an item is to a contract: its fields, the address as a sequence.
pub struct ItemView {
    pub is_initialized: bool,
    pub body_r: u8,
    pub body_g: u8,
    pub body_b: u8,
    pub stripe_r: u8,
    pub stripe_g: u8,
    pub stripe_b: u8,
    pub hat: u32,
    pub emotion: u8,
    pub eyes: u32,
    pub owner: Seq<u8>,
}

impl View for Item {
    type V = ItemView;

    open spec fn view(&self) -> ItemView {
        ItemView {
            is_initialized: self.is_initialized,
            body_r: self.body_r,
            body_g: self.body_g,
            body_b: self.body_b,
            stripe_r: self.stripe_r,
            stripe_g: self.stripe_g,
            stripe_b: self.stripe_b,
            hat: self.hat,
            emotion: self.emotion,
            eyes: self.eyes,
            owner: self.owner@,
        }
    }
}

impl TradeView {
    /// Length in bytes of a packed trade.
    pub open spec fn len() -> nat {
        50
    }

    /// The address has its 32 bytes; every view of a `Trade` is well formed.
    pub open spec fn wf(self) -> bool {
        self.initializer_pubkey.len() == 32
    }

    /// The bytes that hold this trade.
    pub open spec fn bytes(self) -> Seq<u8> {
        seq![flag_byte(self.is_initialized), flag_byte(self.is_locked)] + self.initializer_pubkey
            + le_bytes(self.amount as nat, 8) + le_bytes(self.price as nat, 8)
    }

    /// Whether `bytes` hold a trade: the length is right and both flag
    /// bytes are `0` or `1`.
    pub open spec fn admits(bytes: Seq<u8>) -> bool {
        bytes.len() == Self::len() && bytes[0] <= 1 && bytes[1] <= 1
    }

    /// The trade that `bytes` hold, or `InvalidAccountData`.
    pub open spec fn parse(bytes: Seq<u8>) -> Result<TradeView, NftError> {
        if Self::admits(bytes) {
            Ok(
                TradeView {
                    is_initialized: bytes[0] == 1,
                    is_locked: bytes[1] == 1,
                    initializer_pubkey: bytes.subrange(2, 34),
                    amount: le_value(bytes.subrange(34, 42)) as u64,
                    price: le_value(bytes.subrange(42, 50)) as u64,
                },
            )
        } else {
            Err(NftError::InvalidAccountData)
        }
    }
}

impl ItemView {
    /// Length in bytes of a packed item.
    pub open spec fn len() -> nat {
        48
    }

    /// The address has its 32 bytes; every view of an `Item` is well formed.
    pub open spec fn wf(self) -> bool {
        self.owner.len() == 32
    }

    /// The bytes that hold this item.
    pub open spec fn bytes(self) -> Seq<u8> {
        seq![
            flag_byte(self.is_initialized),
            self.body_r,
            self.body_g,
            self.body_b,
            self.stripe_r,
            self.stripe_g,
            self.stripe_b,
        ] + le_bytes(self.hat as nat, 4) + seq![self.emotion] + le_bytes(self.eyes as nat, 4)
            + self.owner
    }

    /// Whether `bytes` hold an item: the length is right and the flag byte
    /// is `0` or `1`.
    pub open spec fn admits(bytes: Seq<u8>) -> bool {
        bytes.len() == Self::len() && bytes[0] <= 1
    }

    /// The item that `bytes` hold, or `InvalidAccountData`.
    pub open spec fn parse(bytes: Seq<u8>) -> Result<ItemView, NftError> {
        if Self::admits(bytes) {
            Ok(
                ItemView {
                    is_initialized: bytes[0] == 1,
                    body_r: bytes[1],
                    body_g: bytes[2],
                    body_b: bytes[3],
                    stripe_r: bytes[4],
                    stripe_g: bytes[5],
                    stripe_b: bytes[6],
                    hat: le_value(bytes.subrange(7, 11)) as u32,
                    emotion: bytes[11],
                    eyes: le_value(bytes.subrange(12, 16)) as u32,
                    owner: bytes.subrange(16, 48),
                },
            )
        } else {
            Err(NftError::InvalidAccountData)
        }
    }
}

/// Packing a trade and parsing the bytes gives the trade again.
pub proof fn lemma_trade_round_trip(trade: TradeView)
    requires
        trade.wf(),
    ensures
        trade.bytes().len() == TradeView::len(),
        TradeView::parse(trade.bytes()) == Ok::<TradeView, NftError>(trade),
{
    let bytes = trade.bytes();
    let amount = le_bytes(trade.amount as nat, 8);
    let price = le_bytes(trade.price as nat, 8);
    lemma_le_bytes_len(trade.amount as nat, 8);
    lemma_le_bytes_len(trade.price as nat, 8);
    lemma_radix_values();
    lemma_le_value_of_bytes(trade.amount as nat, 8);
    lemma_le_value_of_bytes(trade.price as nat, 8);
    assert(bytes.subrange(2, 34) =~= trade.initializer_pubkey);
    assert(bytes.subrange(34, 42) =~= amount);
    assert(bytes.subrange(42, 50) =~= price);
}

/// Parsing bytes that hold a trade and packing the trade gives the bytes
/// again: no two buffers hold the same trade.
pub proof fn lemma_trade_bytes_round_trip(bytes: Seq<u8>)
    requires
        TradeView::admits(bytes),
    ensures
        TradeView::parse(bytes).unwrap().wf(),
        TradeView::parse(bytes).unwrap().bytes() == bytes,
{
    let trade = TradeView::parse(bytes).unwrap();
    let amount = bytes.subrange(34, 42);
    let price = bytes.subrange(42, 50);
    lemma_radix_values();
    lemma_le_value_bound(amount);
    lemma_le_value_bound(price);
    lemma_le_bytes_of_value(amount);
    lemma_le_bytes_of_value(price);
    assert(trade.bytes() =~= bytes);
}

/// Packing an item and parsing the bytes gives the item again.
pub proof fn lemma_item_round_trip(item: ItemView)
    requires
        item.wf(),
    ensures
        item.bytes().len() == ItemView::len(),
        ItemView::parse(item.bytes()) == Ok::<ItemView, NftError>(item),
{
    let bytes = item.bytes();
    let hat = le_bytes(item.hat as nat, 4);
    let eyes = le_bytes(item.eyes as nat, 4);
    lemma_le_bytes_len(item.hat as nat, 4);
    lemma_le_bytes_len(item.eyes as nat, 4);
    lemma_radix_values();
    lemma_le_value_of_bytes(item.hat as nat, 4);
    lemma_le_value_of_bytes(item.eyes as nat, 4);
    assert(bytes.subrange(7, 11) =~= hat);
    assert(bytes.subrange(12, 16) =~= eyes);
    assert(bytes.subrange(16, 48) =~= item.owner);
}

/// Parsing bytes that hold an item and packing the item gives the bytes
/// again: no two buffers hold the same item.
pub proof fn lemma_item_bytes_round_trip(bytes: Seq<u8>)
    requires
        ItemView::admits(bytes),
    ensures
        ItemView::parse(bytes).unwrap().wf(),
        ItemView::parse(bytes).unwrap().bytes() == bytes,
{
    let item = ItemView::parse(bytes).unwrap();
    let hat = bytes.subrange(7, 11);
    let eyes = bytes.subrange(12, 16);
    lemma_radix_values();
    lemma_le_value_bound(hat);
    lemma_le_value_bound(eyes);
    lemma_le_bytes_of_value(hat);
    lemma_le_bytes_of_value(eyes);
    assert(item.bytes() =~= bytes);
}

/// A buffer in which a flag byte is neither `0` nor `1` holds no trade.
pub proof fn lemma_trade_flag_rejected(bytes: Seq<u8>)
    requires
        bytes[0] > 1 || bytes[1] > 1,
    ensures
        TradeView::parse(bytes) == Err::<TradeView, NftError>(NftError::InvalidAccountData),
{
}

/// A buffer whose flag byte is neither `0` nor `1` holds no item.
pub proof fn lemma_item_flag_rejected(bytes: Seq<u8>)
    requires
        bytes[0] > 1,
    ensures
        ItemView::parse(bytes) == Err::<ItemView, NftError>(NftError::InvalidAccountData),
{
}

/// A zero-filled buffer holds the record that is not initialized and has
/// every field at zero.
pub proof fn lemma_zeroed_records()
    ensures
        TradeView::parse(Seq::new(50, |i: int| 0u8)) == Ok::<TradeView, NftError>(
            TradeView {
                is_initialized: false,
                is_locked: false,
                initializer_pubkey: Seq::new(32, |i: int| 0u8),
                amount: 0,
                price: 0,
            },
        ),
        ItemView::parse(Seq::new(48, |i: int| 0u8)) == Ok::<ItemView, NftError>(
            ItemView {
                is_initialized: false,
                body_r: 0,
                body_g: 0,
                body_b: 0,
                stripe_r: 0,
                stripe_g: 0,
                stripe_b: 0,
                hat: 0,
                emotion: 0,
                eyes: 0,
                owner: Seq::new(32, |i: int| 0u8),
            },
        ),
{
    let trade = Seq::new(50, |i: int| 0u8);
    let item = Seq::new(48, |i: int| 0u8);
    lemma_zeroes_spell_zero(trade.subrange(34, 42));
    lemma_zeroes_spell_zero(trade.subrange(42, 50));
    lemma_zeroes_spell_zero(item.subrange(7, 11));
    lemma_zeroes_spell_zero(item.subrange(12, 16));
    assert(trade.subrange(2, 34) =~= Seq::new(32, |i: int| 0u8));
    assert(item.subrange(16, 48) =~= Seq::new(32, |i: int| 0u8));
}

/// Bytes that are all zero spell zero.
proof fn lemma_zeroes_spell_zero(bytes: Seq<u8>)
    requires
        forall|i: int| 0 <= i < bytes.len() ==> bytes[i] == 0,
    ensures
        le_value(bytes) == 0,
    decreases bytes.len(),
{
    if bytes.len() > 0 {
        lemma_zeroes_spell_zero(bytes.drop_first());
    }
}

/// A trade is what its view says: two trades with one view are one trade.
pub proof fn lemma_trade_view_decides(a: Trade, b: Trade)
    requires
        a@ == b@,
    ensures
        a == b,
{
    assert(a.initializer_pubkey =~= b.initializer_pubkey);
}

/// An item is what its view says: two items with one view are one item.
pub proof fn lemma_item_view_decides(a: Item, b: Item)
    requires
        a@ == b@,
    ensures
        a == b,
{
    assert(a.owner =~= b.owner);
}

/// Whether two addresses are the same.
pub fn same_address(a: &Address, b: &Address) -> (same: bool)
    ensures
        same == (a@ == b@),
{
    let mut i: usize = 0;
    while i < 32
        invariant
            i <= 32,
            forall|j: int| 0 <= j < i ==> a@[j] == b@[j],
        decreases 32 - i,
    {
        if a[i] != b[i] {
            return false;
        }
        i = i + 1;
    }
    assert(a@ =~= b@);
    true
}

/// The address held in `src[start..start + 32]`.
fn read_address(src: &[u8], start: usize) -> (address: Address)
    requires
        start + 32 <= src@.len(),
    ensures
        address@ == src@.subrange(start as int, start + 32),
{
    let len: usize = src.len();
    let mut address: Address = [0u8; 32];
    let mut i: usize = 0;
    while i < 32
        invariant
            i <= 32,
            start + 32 <= src@.len() == len,
            forall|j: int| 0 <= j < i ==> address@[j] == src@[start + j],
        decreases 32 - i,
    {
        address[i] = src[start + i];
        i = i + 1;
    }
    assert(address@ =~= src@.subrange(start as int, start + 32));
    address
}

/// Copies `address` to `dst[start..start + 32]` and leaves the rest of
/// `dst` alone.
fn write_address(dst: &mut [u8], start: usize, address: &Address)
    requires
        start + 32 <= old(dst)@.len(),
    ensures
        final(dst)@.len() == old(dst)@.len(),
        final(dst)@.subrange(start as int, start + 32) == address@,
        forall|i: int|
            0 <= i < old(dst)@.len() && !(start <= i < start + 32) ==> final(dst)@[i] == old(
                dst,
            )@[i],
{
    let len: usize = dst.len();
    let mut i: usize = 0;
    while i < 32
        invariant
            i <= 32,
            start + 32 <= dst@.len() == len,
            dst@.len() == old(dst)@.len(),
            forall|j: int| 0 <= j < i ==> dst@[start + j] == address@[j],
            forall|k: int|
                0 <= k < dst@.len() && !(start <= k < start + 32) ==> dst@[k] == old(dst)@[k],
        decreases 32 - i,
    {
        dst[start + i] = address[i];
        i = i + 1;
    }
    assert(dst@.subrange(start as int, start + 32) =~= address@);
}

impl Trade {
    /// Length in bytes of a packed trade.
    pub const LEN: usize = 50;

    /// Whether the trade has been created.
    pub fn is_initialized(&self) -> (flag: bool)
        ensures
            flag == self.is_initialized,
    {
        self.is_initialized
    }

    /// Whether the trade is sealed for purchase.
    pub fn is_locked(&self) -> (flag: bool)
        ensures
            flag == self.is_locked,
    {
        self.is_locked
    }

    /// Reads a trade from a buffer of `Trade::LEN` bytes. Fails with
    /// `InvalidAccountData` exactly when a flag byte is neither `0` nor
    /// `1`; a zero-filled buffer is the trade that is not initialized.
    pub fn unpack_from_slice(src: &[u8]) -> (res: Result<Trade, NftError>)
        requires
            src@.len() == TradeView::len(),
        ensures
            match TradeView::parse(src@) {
                Ok(parsed) => res matches Ok(trade) && trade@ == parsed,
                Err(e) => res == Err::<Trade, NftError>(e),
            },
            res is Ok <==> src@[0] <= 1 && src@[1] <= 1,
            res matches Err(e) ==> e == NftError::InvalidAccountData,
    {
        let is_initialized = match read_flag(src[0]) {
            Some(flag) => flag,
            None => {
                return Err(NftError::InvalidAccountData);
            },
        };
        let is_locked = match read_flag(src[1]) {
            Some(flag) => flag,
            None => {
                return Err(NftError::InvalidAccountData);
            },
        };
        let initializer_pubkey = read_address(src, 2);
        let amount = read_le(src, 34, 42);
        let price = read_le(src, 42, 50);
        Ok(Trade { is_initialized, is_locked, initializer_pubkey, amount, price })
    }

    /// Writes the trade to a buffer of `Trade::LEN` bytes.
    pub fn pack_into_slice(&self, dst: &mut [u8])
        requires
            old(dst)@.len() == TradeView::len(),
        ensures
            final(dst)@ == self@.bytes(),
    {
        dst[0] = write_flag(self.is_initialized);
        dst[1] = write_flag(self.is_locked);
        write_address(dst, 2, &self.initializer_pubkey);
        write_le(dst, 34, 8, self.amount);
        write_le(dst, 42, 8, self.price);
        proof {
            let packed = self@.bytes();
            lemma_le_bytes_len(self.amount as nat, 8);
            lemma_le_bytes_len(self.price as nat, 8);
            assert forall|i: int| 0 <= i < 50 implies dst@[i] == packed[i] by {
                if 2 <= i < 34 {
                    assert(dst@[i] == dst@.subrange(2, 34)[i - 2]);
                } else if 34 <= i < 42 {
                    assert(dst@[i] == dst@.subrange(34, 42)[i - 34]);
                } else if 42 <= i {
                    assert(dst@[i] == dst@.subrange(42, 50)[i - 42]);
                }
            }
            assert(dst@ =~= packed);
        }
    }

    /// Reads a trade from `input`, which must be `Trade::LEN` bytes long
    /// and hold flag bytes of `0` or `1`; else `InvalidAccountData`.
    pub fn unpack_unchecked(input: &[u8]) -> (res: Result<Trade, NftError>)
        ensures
            match TradeView::parse(input@) {
                Ok(parsed) => res matches Ok(trade) && trade@ == parsed,
                Err(e) => res == Err::<Trade, NftError>(e),
            },
            res is Ok <==> TradeView::admits(input@),
            res matches Err(e) ==> e == NftError::InvalidAccountData,
    {
        if input.len() != Trade::LEN {
            return Err(NftError::InvalidAccountData);
        }
        Trade::unpack_from_slice(input)
    }

    /// Writes the trade to `dst`, which must be `Trade::LEN` bytes long;
    /// else fails with `InvalidAccountData` and leaves `dst` as it was.
    pub fn pack(src: Trade, dst: &mut [u8]) -> (res: Result<(), NftError>)
        ensures
            res is Ok <==> old(dst)@.len() == TradeView::len(),
            res is Ok ==> final(dst)@ == src@.bytes(),
            res matches Err(e) ==> e == NftError::InvalidAccountData && final(dst)@ == old(dst)@,
    {
        if dst.len() != Trade::LEN {
            return Err(NftError::InvalidAccountData);
        }
        src.pack_into_slice(dst);
        Ok(())
    }
}

impl Item {
    /// Length in bytes of a packed item.
    pub const LEN: usize = 48;

    /// Whether the item has been attached to a trade.
    pub fn is_initialized(&self) -> (flag: bool)
        ensures
            flag == self.is_initialized,
    {
        self.is_initialized
    }

    /// Reads an item from a buffer of `Item::LEN` bytes. Fails with
    /// `InvalidAccountData` exactly when the flag byte is neither `0` nor
    /// `1`; a zero-filled buffer is the item that is not initialized.
    pub fn unpack_from_slice(src: &[u8]) -> (res: Result<Item, NftError>)
        requires
            src@.len() == ItemView::len(),
        ensures
            match ItemView::parse(src@) {
                Ok(parsed) => res matches Ok(item) && item@ == parsed,
                Err(e) => res == Err::<Item, NftError>(e),
            },
            res is Ok <==> src@[0] <= 1,
            res matches Err(e) ==> e == NftError::InvalidAccountData,
    {
        let is_initialized = match read_flag(src[0]) {
            Some(flag) => flag,
            None => {
                return Err(NftError::InvalidAccountData);
            },
        };
        let hat = read_le(src, 7, 11);
        let eyes = read_le(src, 12, 16);
        proof {
            lemma_radix_values();
            lemma_le_value_bound(src@.subrange(7, 11));
            lemma_le_value_bound(src@.subrange(12, 16));
        }
        Ok(
            Item {
                is_initialized,
                body_r: src[1],
                body_g: src[2],
                body_b: src[3],
                stripe_r: src[4],
                stripe_g: src[5],
                stripe_b: src[6],
                hat: hat as u32,
                emotion: src[11],
                eyes: eyes as u32,
                owner: read_address(src, 16),
            },
        )
    }

    /// Writes the item to a buffer of `Item::LEN` bytes.
    pub fn pack_into_slice(&self, dst: &mut [u8])
        requires
            old(dst)@.len() == ItemView::len(),
        ensures
            final(dst)@ == self@.bytes(),
    {
        dst[0] = write_flag(self.is_initialized);
        dst[1] = self.body_r;
        dst[2] = self.body_g;
        dst[3] = self.body_b;
        dst[4] = self.stripe_r;
        dst[5] = self.stripe_g;
        dst[6] = self.stripe_b;
        write_le(dst, 7, 4, self.hat as u64);
        dst[11] = self.emotion;
        write_le(dst, 12, 4, self.eyes as u64);
        write_address(dst, 16, &self.owner);
        proof {
            let packed = self@.bytes();
            lemma_le_bytes_len(self.hat as nat, 4);
            lemma_le_bytes_len(self.eyes as nat, 4);
            assert forall|i: int| 0 <= i < 48 implies dst@[i] == packed[i] by {
                if 7 <= i < 11 {
                    assert(dst@[i] == dst@.subrange(7, 11)[i - 7]);
                } else if 12 <= i < 16 {
                    assert(dst@[i] == dst@.subrange(12, 16)[i - 12]);
                } else if 16 <= i {
                    assert(dst@[i] == dst@.subrange(16, 48)[i - 16]);
                }
            }
            assert(dst@ =~= packed);
        }
    }

    /// Reads an item from `input`, which must be `Item::LEN` bytes long and
    /// hold a flag byte of `0` or `1`; else `InvalidAccountData`.
    pub fn unpack_unchecked(input: &[u8]) -> (res: Result<Item, NftError>)
        ensures
            match ItemView::parse(input@) {
                Ok(parsed) => res matches Ok(item) && item@ == parsed,
                Err(e) => res == Err::<Item, NftError>(e),
            },
            res is Ok <==> ItemView::admits(input@),
            res matches Err(e) ==> e == NftError::InvalidAccountData,
    {
        if input.len() != Item::LEN {
            return Err(NftError::InvalidAccountData);
        }
        Item::unpack_from_slice(input)
    }

    /// Writes the item to `dst`, which must be `Item::LEN` bytes long; else
    /// fails with `InvalidAccountData` and leaves `dst` as it was.
    pub fn pack(src: Item, dst: &mut [u8]) -> (res: Result<(), NftError>)
        ensures
            res is Ok <==> old(dst)@.len() == ItemView::len(),
            res is Ok ==> final(dst)@ == src@.bytes(),
            res matches Err(e) ==> e == NftError::InvalidAccountData && final(dst)@ == old(dst)@,
    {
        if dst.len() != Item::LEN {
            return Err(NftError::InvalidAccountData);
        }
        src.pack_into_slice(dst);
        Ok(())
    }
}

} // verus!
