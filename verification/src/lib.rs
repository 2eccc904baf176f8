//! Transaction-processing core of an on-ledger NFT marketplace.
//!
//! A trade is a listing with a base price and a count of attached, unsold
//! items; an item is one tokenized good with opaque appearance traits and an
//! owner. The crate decodes instructions from their wire format, packs and
//! unpacks the two fixed-layout records, and carries out the three
//! operations (`CreateTrade`, `AddItem`, `BuyItem`) on the accounts handed to
//! an instruction. Every operation is all-or-nothing: a failure leaves each
//! account as it was.
//!
//! Contracts are stated over byte sequences and over the views of the data
//! types; the modules hold the laws that relate their functions next to them.

pub mod account;
pub mod codec;
pub mod error;
pub mod instruction;
pub mod processor;
pub mod rent;
pub mod state;
pub mod token;
