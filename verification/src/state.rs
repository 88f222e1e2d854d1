//! Persistent records of the escrow protocol and its error kinds.
//!
//! Identities (parties, token accounts, mints, offer records) are plain `u64`
//! addresses. Addresses with the low bit set are set aside as "off-curve":
//! no signing key exists for them (see `crate::authority`), which is what
//! lets the protocol hold custody of a vault that no human party controls.

use vstd::prelude::*;

verus! {

/// One outstanding escrow: who opened it, what it wants in return, and the
/// nonce with which the vault's custody authority is re-derived. All fields
/// are immutable after creation; the record's existence is the state test
/// (it is destroyed, never flagged, on settlement or cancellation).
#[derive(Clone, Copy, PartialEq, Eq, Structural, Debug)]
pub struct Offer {
    /// The party who opened the offer: the only one allowed to cancel it,
    /// and the recipient of the storage-deposit refunds at destruction.
    pub maker: u64,
    /// The asset type the maker wants in return.
    pub taker_mint: u64,
    /// How much of `taker_mint` a taker must pay to fulfill the offer.
    pub taker_amount: u64,
    /// The nonce under which the vault's address and custody authority were
    /// derived from this offer's address. Stored so that callers never need
    /// to search for it.
    pub escrowed_maker_tokens_bump: u8,
}

/// A balance-holding account of the token ledger: its asset type, the
/// identity that may authorize debits, and its current balance.
///
/// An escrow vault is such an account whose `owner` is its own (off-curve)
/// address, so only the re-derived custody authority can move its funds.
#[derive(Clone, Copy, PartialEq, Eq, Structural, Debug)]
pub struct TokenAccount {
    /// The asset type this account holds.
    pub mint: u64,
    /// The identity whose authorization debits this account.
    pub owner: u64,
    /// The current balance.
    pub amount: u64,
}

/// Every failure of a transition. A transition that fails leaves the whole
/// state exactly as it was: the system is never observed mid-transition.
#[derive(Clone, Copy, PartialEq, Eq, Structural, Debug)]
pub enum EscrowError {
    /// A signer or account owner does not match the required party.
    Unauthorized,
    /// A supplied account's asset type does not match the declared one.
    AssetMismatch,
    /// A source account cannot cover the required amount.
    InsufficientBalance,
    /// The referenced offer does not resolve to a live record. Settlement
    /// destroys the record, so this is also what a replayed transition sees.
    OfferNotFound,
    /// The supplied nonce does not reproduce the vault address and custody
    /// authority recorded for the offer.
    DerivationMismatch,
    /// A record would be allocated at an address that is already occupied.
    AddressOccupied,
}

} // verus!
