//! The account sets each transition takes.
//!
//! A transition names every record it reads or writes by address, plus the
//! identity that signed the request. The surrounding runtime is what
//! verifies the signature itself; a transition takes the signer's identity
//! as given and checks that it is the party the protocol requires.

use vstd::prelude::*;

verus! {

/// Accounts for [`crate::make`]: open an offer and escrow the deposit.
#[derive(Clone, Copy, PartialEq, Eq, Structural, Debug)]
pub struct Make {
    /// Address at which the new offer record is allocated.
    pub offer: u64,
    /// The prospective maker; must have signed the request, and pays for
    /// the two new records' storage.
    pub offer_maker: u64,
    /// The maker's account holding the asset to be deposited.
    pub offer_makers_maker_tokens: u64,
    /// Address at which the escrow vault is allocated; must equal the
    /// address derived from (`offer`, the supplied nonce).
    pub escrowed_maker_tokens: u64,
    /// The asset type being deposited.
    pub maker_mint: u64,
    /// The asset type wanted in return.
    pub taker_mint: u64,
}

/// Accounts for [`crate::accept`]: fulfill an offer and settle both legs.
#[derive(Clone, Copy, PartialEq, Eq, Structural, Debug)]
pub struct Accept {
    /// The offer being accepted.
    pub offer: u64,
    /// The offer's escrow vault; must equal the address re-derived from
    /// (`offer`, the stored nonce).
    pub escrowed_maker_tokens: u64,
    /// The offer's maker: receives the wanted asset and the storage-deposit
    /// refunds. Must equal the maker recorded in the offer.
    pub offer_maker: u64,
    /// The taker; must have signed the request.
    pub offer_taker: u64,
    /// The maker's account for the wanted asset: owned by `offer_maker`, of
    /// type `taker_mint`.
    pub offer_makers_taker_tokens: u64,
    /// The taker's account the wanted asset is paid from; its type must be
    /// the one the offer declares.
    pub offer_takers_taker_tokens: u64,
    /// The taker's account the escrowed deposit is released to.
    pub offer_takers_maker_tokens: u64,
    /// The wanted asset type; must equal the one recorded in the offer.
    pub taker_mint: u64,
}

/// Accounts for [`crate::cancel`]: reclaim the deposit and destroy the offer.
#[derive(Clone, Copy, PartialEq, Eq, Structural, Debug)]
pub struct Cancel {
    /// The offer being cancelled.
    pub offer: u64,
    /// The signer; must equal the maker recorded in the offer.
    pub offer_maker: u64,
    /// The maker's account the escrowed deposit is returned to.
    pub offer_makers_maker_tokens: u64,
    /// The offer's escrow vault; must equal the address re-derived from
    /// (`offer`, the stored nonce).
    pub escrowed_maker_tokens: u64,
}

} // verus!
