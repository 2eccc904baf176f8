//! The wire format of instructions.
//!
//! The first byte is a tag; the fields of the tagged operation follow at
//! fixed offsets, integers little-endian. Bytes beyond the last field are
//! ignored.
//!
//! | tag | operation     | fields after the tag                                   |
//! |-----|---------------|--------------------------------------------------------|
//! | `0` | `AddItem`     | nine traits in 16 bytes, see [`decode_item_params`]     |
//! | `1` | `CreateTrade` | the base price in bytes `0..8`                         |
//! | `2` | `BuyItem`     | none                                                   |
//!
//! Byte `4` of the `AddItem` fields is reserved: it belongs to no trait and
//! may hold anything.

use crate::codec::{
    le_value, lemma_le_value_bound, lemma_le_value_single, lemma_radix_values, read_le,
};
use crate::error::NftError;
use vstd::prelude::*;
use vstd::slice::slice_subrange;

verus! {

/// The appearance of an item. The processor copies the traits into the
/// item's record and reads nothing into them.
#[derive(Debug, Clone, Copy, PartialEq, Eq, Structural)]
pub struct ItemParams {
    pub body_r: u8,
    pub body_g: u8,
    pub body_b: u8,
    pub stripe_r: u8,
    pub stripe_g: u8,
    pub stripe_b: u8,
    pub hat: u32,
    pub emotion: u8,
    pub eyes: u32,
}

/// The three operations of the marketplace.
#[derive(Debug, Clone, Copy, PartialEq, Eq, Structural)]
pub enum NftInstruction {
    /// Creates a trade. Accounts, in order: the initializer, who signs;
    /// the trade's record, writable; the rent witness for that record.
    CreateTrade { start_price: u64 },
    /// Attaches an item to a trade. Accounts, in order: the trade's
    /// initializer, who signs; the trade's record, writable; its rent
    /// witness; the item's record, writable; its rent witness; the token
    /// program.
    AddItem { params: ItemParams },
    /// Buys an item. Accounts, in order: the buyer, who signs; the trade's
    /// record, the item's record and the account that holds the payment,
    /// all three writable.
    BuyItem,
}

/// Number of bytes that the fields of `AddItem` take.
pub const ITEM_PARAMS_LEN: usize = 16;

/// Number of bytes that the field of `CreateTrade` takes.
pub const PRICE_LEN: usize = 8;

/// The number held in `input[start..end]`, least significant byte first:
/// the range must lie within `input` and be at most eight bytes wide.
pub open spec fn decode_amount(input: Seq<u8>, start: int, end: int) -> Result<u64, NftError> {
    if 0 <= start <= end <= input.len() && end - start <= 8 {
        Ok(le_value(input.subrange(start, end)) as u64)
    } else {
        Err(NftError::InvalidInstruction)
    }
}

/// The traits that the first 16 of `fields` hold. Byte `4` is reserved.
pub open spec fn decode_item_params(fields: Seq<u8>) -> ItemParams {
    ItemParams {
        body_r: fields[0],
        body_g: fields[1],
        body_b: fields[2],
        stripe_r: fields[3],
        stripe_g: fields[5],
        stripe_b: fields[6],
        hat: le_value(fields.subrange(7, 11)) as u32,
        emotion: fields[11],
        eyes: le_value(fields.subrange(12, 16)) as u32,
    }
}

/// The instruction that `input` holds, or `InvalidInstruction` where it
/// is empty, its tag is unknown or its fields are cut short.
pub open spec fn decode_instruction(input: Seq<u8>) -> Result<NftInstruction, NftError> {
    if input.len() == 0 {
        Err(NftError::InvalidInstruction)
    } else {
        let fields = input.drop_first();
        if input[0] == 0 && fields.len() >= 16 {
            Ok(NftInstruction::AddItem { params: decode_item_params(fields) })
        } else if input[0] == 1 && fields.len() >= 8 {
            Ok(NftInstruction::CreateTrade { start_price: le_value(fields.subrange(0, 8)) as u64 })
        } else if input[0] == 2 {
            Ok(NftInstruction::BuyItem)
        } else {
            Err(NftError::InvalidInstruction)
        }
    }
}

/// An instruction's tag alone decides which operation it is, and an
/// instruction with a tag above `2` is none.
pub proof fn lemma_tag_decides(input: Seq<u8>)
    ensures
        decode_instruction(input) matches Ok(NftInstruction::AddItem { .. }) ==> input[0] == 0,
        decode_instruction(input) matches Ok(NftInstruction::CreateTrade { .. }) ==> input[0] == 1,
        decode_instruction(input) matches Ok(NftInstruction::BuyItem) ==> input[0] == 2,
        input.len() > 0 && input[0] > 2 ==> decode_instruction(input) == Err::<
            NftInstruction,
            NftError,
        >(NftError::InvalidInstruction),
{
}

/// Narrows a decoded number to one byte; a number that does not fit is
/// rejected, never cut.
fn narrow_u8(value: u64) -> (res: Result<u8, NftError>)
    ensures
        value <= u8::MAX ==> res == Ok::<u8, NftError>(value as u8),
        value > u8::MAX ==> res == Err::<u8, NftError>(NftError::InvalidInstruction),
{
    if value <= 0xff {
        Ok(value as u8)
    } else {
        Err(NftError::InvalidInstruction)
    }
}

/// Narrows a decoded number to four bytes; a number that does not fit is
/// rejected, never cut.
fn narrow_u32(value: u64) -> (res: Result<u32, NftError>)
    ensures
        value <= u32::MAX ==> res == Ok::<u32, NftError>(value as u32),
        value > u32::MAX ==> res == Err::<u32, NftError>(NftError::InvalidInstruction),
{
    if value <= 0xffff_ffff {
        Ok(value as u32)
    } else {
        Err(NftError::InvalidInstruction)
    }
}

impl NftInstruction {
    /// Decodes an instruction from its wire format.
    pub fn unpack(input: &[u8]) -> (res: Result<NftInstruction, NftError>)
        ensures
            res == decode_instruction(input@),
            res matches Err(e) ==> e == NftError::InvalidInstruction,
    {
        if input.len() == 0 {
            return Err(NftError::InvalidInstruction);
        }
        let tag = input[0];
        let rest = slice_subrange(input, 1, input.len());
        assert(rest@ =~= input@.drop_first());
        if tag == 0 {
            if rest.len() < ITEM_PARAMS_LEN {
                return Err(NftError::InvalidInstruction);
            }
            proof {
                lemma_radix_values();
                lemma_le_value_single(rest@.subrange(0, 1));
                lemma_le_value_single(rest@.subrange(1, 2));
                lemma_le_value_single(rest@.subrange(2, 3));
                lemma_le_value_single(rest@.subrange(3, 4));
                lemma_le_value_single(rest@.subrange(5, 6));
                lemma_le_value_single(rest@.subrange(6, 7));
                lemma_le_value_single(rest@.subrange(11, 12));
                lemma_le_value_bound(rest@.subrange(7, 11));
                lemma_le_value_bound(rest@.subrange(12, 16));
            }
            let body_r = narrow_u8(Self::unpack_amount(rest, 0, 1)?)?;
            let body_g = narrow_u8(Self::unpack_amount(rest, 1, 2)?)?;
            let body_b = narrow_u8(Self::unpack_amount(rest, 2, 3)?)?;
            let stripe_r = narrow_u8(Self::unpack_amount(rest, 3, 4)?)?;
            let stripe_g = narrow_u8(Self::unpack_amount(rest, 5, 6)?)?;
            let stripe_b = narrow_u8(Self::unpack_amount(rest, 6, 7)?)?;
            let hat = narrow_u32(Self::unpack_amount(rest, 7, 11)?)?;
            let emotion = narrow_u8(Self::unpack_amount(rest, 11, 12)?)?;
            let eyes = narrow_u32(Self::unpack_amount(rest, 12, 16)?)?;
            Ok(
                NftInstruction::AddItem {
                    params: ItemParams {
                        body_r,
                        body_g,
                        body_b,
                        stripe_r,
                        stripe_g,
                        stripe_b,
                        hat,
                        emotion,
                        eyes,
                    },
                },
            )
        } else if tag == 1 {
            let start_price = Self::unpack_amount(rest, 0, PRICE_LEN)?;
            Ok(NftInstruction::CreateTrade { start_price })
        } else if tag == 2 {
            Ok(NftInstruction::BuyItem)
        } else {
            Err(NftError::InvalidInstruction)
        }
    }

    /// Reads `input[start..end]` as a little-endian number. Fails with
    /// `InvalidInstruction` where the range does not lie within `input`
    /// or is wider than the eight bytes of the result.
    pub fn unpack_amount(input: &[u8], start: usize, end: usize) -> (res: Result<u64, NftError>)
        ensures
            res == decode_amount(input@, start as int, end as int),
            res is Ok <==> start <= end <= input@.len() && end - start <= 8,
    {
        if start > end || end > input.len() || end - start > 8 {
            return Err(NftError::InvalidInstruction);
        }
        Ok(read_le(input, start, end))
    }
}

} // verus!
