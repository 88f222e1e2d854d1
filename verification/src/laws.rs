//! The protocol's laws, proved once and for all from the transitions'
//! contracts: exactly-once settlement, authorization, and the balance
//! movements of a settled offer.

use vstd::prelude::*;

use crate::accept_ok_state;
use crate::accept_validate;
use crate::cancel_validate;
use crate::instructions::{Accept, Cancel};
use crate::ledger::{spec_offer_backed, spec_vault_of, wf, EscrowView};
use crate::state::EscrowError;

verus! {

/// Replay protection: once an offer's record is gone — and a successful
/// [`crate::accept`] or [`crate::cancel`] ensures it is — any further
/// accept or cancel naming that offer fails with `OfferNotFound`, and by
/// those transitions' contracts an offer that fails changes nothing.
pub proof fn lemma_settled_offer_rejects_replay(
    w: EscrowView,
    offer_id: u64,
    a: Accept,
    c: Cancel,
)
    requires
        !w.offers.contains_key(offer_id),
        a.offer == offer_id,
        c.offer == offer_id,
    ensures
        accept_validate(w, a) == Err::<(), EscrowError>(EscrowError::OfferNotFound),
        cancel_validate(w, c) == Err::<(), EscrowError>(EscrowError::OfferNotFound),
{
}

/// Only the maker may cancel: a cancel whose signer is not the recorded
/// maker fails with `Unauthorized`, and by [`crate::cancel`]'s contract a
/// cancel that fails leaves every balance unchanged.
pub proof fn lemma_unauthorized_cancel_rejected(v: EscrowView, c: Cancel)
    requires
        v.offers.contains_key(c.offer),
        c.offer_maker != v.offers[c.offer].maker,
    ensures
        cancel_validate(v, c) == Err::<(), EscrowError>(EscrowError::Unauthorized),
{
}

/// A taker paying with the wrong asset type is turned away: when every
/// account reference is otherwise in order but the taker's send account
/// does not hold the offer's wanted asset, accept fails with
/// `AssetMismatch`, and by [`crate::accept`]'s contract an accept that
/// fails changes nothing — in particular the taker is never debited.
pub proof fn lemma_wrong_asset_accept_rejected(v: EscrowView, a: Accept)
    requires
        wf(v),
        v.offers.contains_key(a.offer),
        a.offer_maker == v.offers[a.offer].maker,
        a.taker_mint == v.offers[a.offer].taker_mint,
        v.accounts.contains_key(a.offer_makers_taker_tokens),
        v.accounts[a.offer_makers_taker_tokens].owner == a.offer_maker,
        v.accounts[a.offer_makers_taker_tokens].mint == a.taker_mint,
        a.escrowed_maker_tokens == spec_vault_of(v, a.offer),
        v.accounts.contains_key(a.offer_takers_taker_tokens),
        v.accounts[a.offer_takers_taker_tokens].mint != v.offers[a.offer].taker_mint,
    ensures
        accept_validate(v, a) == Err::<(), EscrowError>(EscrowError::AssetMismatch),
{
    assert(spec_offer_backed(v, a.offer));
}

/// What a settled offer moved, exactly, when the four accounts involved
/// are distinct: the maker gained the wanted amount of the wanted asset,
/// the taker paid it and gained the vault's whole pre-settlement balance,
/// and offer record and vault are gone.
pub proof fn lemma_accept_settles_balances(v: EscrowView, w: EscrowView, a: Accept)
    requires
        wf(v),
        v.accounts.contains_key(a.offer_makers_taker_tokens),
        v.accounts.contains_key(a.offer_takers_taker_tokens),
        v.accounts.contains_key(a.offer_takers_maker_tokens),
        accept_validate(v, a) is Ok,
        crate::accept_fits(v, a),
        w == accept_ok_state(v, a),
        a.offer_makers_taker_tokens != a.offer_takers_taker_tokens,
        a.offer_makers_taker_tokens != a.offer_takers_maker_tokens,
        a.offer_takers_taker_tokens != a.offer_takers_maker_tokens,
    ensures
        !w.offers.contains_key(a.offer),
        !w.accounts.contains_key(a.escrowed_maker_tokens),
        w.accounts[a.offer_makers_taker_tokens].amount
            == v.accounts[a.offer_makers_taker_tokens].amount + v.offers[a.offer].taker_amount,
        w.accounts[a.offer_takers_taker_tokens].amount
            == v.accounts[a.offer_takers_taker_tokens].amount - v.offers[a.offer].taker_amount,
        w.accounts[a.offer_takers_maker_tokens].amount
            == v.accounts[a.offer_takers_maker_tokens].amount
            + v.accounts[a.escrowed_maker_tokens].amount,
{
    let o = v.offers[a.offer];
    let vault = a.escrowed_maker_tokens;
    assert(spec_offer_backed(v, a.offer));
    // The paying and receiving party accounts are signable identities'
    // accounts, so none of them is the self-owned, off-curve vault.
    assert(v.accounts[vault].owner == vault);
    assert(crate::authority::spec_is_custody_address(vault));
    assert(v.accounts[a.offer_takers_taker_tokens].owner == a.offer_taker);
    assert(a.offer_takers_taker_tokens != vault);
    assert(v.accounts[a.offer_makers_taker_tokens].owner == o.maker);
    assert(a.offer_makers_taker_tokens != vault);
    assert(a.offer_takers_maker_tokens != vault);
}

} // verus!
