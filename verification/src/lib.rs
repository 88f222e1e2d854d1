//! A trustless two-party atomic swap (escrow).
//!
//! A maker deposits a quantity of one asset into a vault held by a custody
//! authority that no human party controls, and declares the quantity of
//! another asset wanted in return; any taker may later pay that price to
//! receive the deposit atomically, or the maker may reclaim it. The three
//! transitions — [`make`], [`accept`], [`cancel`] — are the only ones, each
//! all-or-nothing, and settlement destroys the offer record and its vault so
//! that a second settlement is impossible.

use vstd::prelude::*;

pub mod authority;
pub mod instructions;
pub mod laws;
pub mod ledger;
pub mod state;

use crate::authority::{
    spec_authorizes, spec_derive_vault_address, Authorization,
};
use crate::instructions::{Accept, Cancel, Make};
use crate::ledger::{
    spec_move_balance, spec_move_fits, wf, Escrow, EscrowView,
};
use crate::state::{EscrowError, Offer, TokenAccount};

verus! {

broadcast use vstd::std_specs::btree::group_btree_axioms;

/// What [`make`] returns, exactly, for every well-formed state: the first
/// failing check names the error; an input passing every check succeeds.
pub open spec fn make_validate(
    v: EscrowView,
    a: Make,
    escrowed_maker_tokens_bump: u8,
    offer_maker_amount: u64,
) -> Result<(), EscrowError>
    recommends
        v.accounts.contains_key(a.offer_makers_maker_tokens),
{
    let derived = spec_derive_vault_address(a.offer, escrowed_maker_tokens_bump);
    let m = v.accounts[a.offer_makers_maker_tokens];
    if v.offers.contains_key(a.offer) {
        Err(EscrowError::AddressOccupied)
    } else if derived is None {
        Err(EscrowError::DerivationMismatch)
    } else if derived->0 != a.escrowed_maker_tokens {
        Err(EscrowError::DerivationMismatch)
    } else if v.accounts.contains_key(derived->0) {
        Err(EscrowError::AddressOccupied)
    } else if m.mint != a.maker_mint {
        Err(EscrowError::AssetMismatch)
    } else if !spec_authorizes(Authorization::Signature(a.offer_maker), m.owner) {
        Err(EscrowError::Unauthorized)
    } else if m.amount < offer_maker_amount {
        Err(EscrowError::InsufficientBalance)
    } else {
        Ok(())
    }
}

/// The state a successful [`make`] leaves behind: the new offer record, the
/// new vault (self-owned, at the derived address), and the deposit moved
/// from the maker's account into the vault.
pub open spec fn make_ok_state(
    v: EscrowView,
    a: Make,
    escrowed_maker_tokens_bump: u8,
    offer_maker_amount: u64,
    offer_taker_amount: u64,
) -> EscrowView {
    let vault = spec_derive_vault_address(a.offer, escrowed_maker_tokens_bump)->0;
    let with_vault = v.accounts.insert(
        vault,
        TokenAccount { mint: a.maker_mint, owner: vault, amount: 0 },
    );
    EscrowView {
        accounts: spec_move_balance(
            with_vault,
            a.offer_makers_maker_tokens,
            vault,
            offer_maker_amount,
        ),
        offers: v.offers.insert(
            a.offer,
            Offer {
                maker: a.offer_maker,
                taker_mint: a.taker_mint,
                taker_amount: offer_taker_amount,
                escrowed_maker_tokens_bump,
            },
        ),
    }
}

/// Make a binding offer: allocate the offer record and its vault, then move
/// `offer_maker_amount` of the maker's asset into the vault under the
/// maker's own signature. All-or-nothing: on any failure nothing changes.
///
/// On success the maker's balance has decreased by exactly the deposit, the
/// vault holds exactly the deposit, and the offer is recorded with the
/// maker, the wanted asset type and amount, and the nonce for later
/// re-derivation of the custody authority.
pub fn make(
    state: &mut Escrow,
    accounts: Make,
    escrowed_maker_tokens_bump: u8,
    offer_maker_amount: u64,
    offer_taker_amount: u64,
) -> (result: Result<(), EscrowError>)
    requires
        wf(old(state)@),
        old(state)@.accounts.contains_key(accounts.offer_makers_maker_tokens),
    ensures
        result == make_validate(
            old(state)@,
            accounts,
            escrowed_maker_tokens_bump,
            offer_maker_amount,
        ),
        result is Ok ==> final(state)@ == make_ok_state(
            old(state)@,
            accounts,
            escrowed_maker_tokens_bump,
            offer_maker_amount,
            offer_taker_amount,
        ),
        result is Err ==> final(state)@ == old(state)@,
        wf(final(state)@),
        result is Ok ==> final(state)@.accounts[accounts.escrowed_maker_tokens].amount
            == offer_maker_amount,
        result is Ok ==> final(state)@.accounts[accounts.offer_makers_maker_tokens].amount
            == old(state)@.accounts[accounts.offer_makers_maker_tokens].amount
            - offer_maker_amount,
        result is Ok ==> final(state)@.offers == old(state)@.offers.insert(
            accounts.offer,
            Offer {
                maker: accounts.offer_maker,
                taker_mint: accounts.taker_mint,
                taker_amount: offer_taker_amount,
                escrowed_maker_tokens_bump,
            },
        ),
{
    if state.offers.contains_key(&accounts.offer) {
        return Err(EscrowError::AddressOccupied);
    }
    let vault: u64 = match crate::authority::derive_vault_address(
        accounts.offer,
        escrowed_maker_tokens_bump,
    ) {
        None => {
            return Err(EscrowError::DerivationMismatch);
        },
        Some(v) => v,
    };
    if vault != accounts.escrowed_maker_tokens {
        return Err(EscrowError::DerivationMismatch);
    }
    if state.accounts.contains_key(&vault) {
        return Err(EscrowError::AddressOccupied);
    }
    let m: TokenAccount = *state.accounts.get(&accounts.offer_makers_maker_tokens).unwrap();
    if m.mint != accounts.maker_mint {
        return Err(EscrowError::AssetMismatch);
    }
    if !crate::authority::authorizes(Authorization::Signature(accounts.offer_maker), m.owner) {
        return Err(EscrowError::Unauthorized);
    }
    if m.amount < offer_maker_amount {
        return Err(EscrowError::InsufficientBalance);
    }
    // Every check has passed: allocate the vault as its own authority,
    // record the offer, and move the deposit under the maker's signature.
    state.accounts.insert(
        vault,
        TokenAccount { mint: accounts.maker_mint, owner: vault, amount: 0 },
    );
    state.offers.insert(
        accounts.offer,
        Offer {
            maker: accounts.offer_maker,
            taker_mint: accounts.taker_mint,
            taker_amount: offer_taker_amount,
            escrowed_maker_tokens_bump,
        },
    );
    let moved = state.transfer(
        accounts.offer_makers_maker_tokens,
        vault,
        offer_maker_amount,
        Authorization::Signature(accounts.offer_maker),
    );
    proof {
        lemma_make_commit_wf(
            old(state)@,
            state@,
            accounts,
            escrowed_maker_tokens_bump,
            offer_maker_amount,
            offer_taker_amount,
        );
    }
    moved
}

/// After a successful commit of [`make`], the state equals
/// [`make_ok_state`] and is well formed again: the new offer is backed by
/// the fresh vault, every old offer keeps its own vault untouched, and the
/// fresh vault collides with no existing one.
proof fn lemma_make_commit_wf(
    v: EscrowView,
    w: EscrowView,
    a: Make,
    escrowed_maker_tokens_bump: u8,
    offer_maker_amount: u64,
    offer_taker_amount: u64,
)
    requires
        wf(v),
        v.accounts.contains_key(a.offer_makers_maker_tokens),
        make_validate(v, a, escrowed_maker_tokens_bump, offer_maker_amount) is Ok,
        w == make_ok_state(v, a, escrowed_maker_tokens_bump, offer_maker_amount,
            offer_taker_amount,
        ),
    ensures
        wf(w),
        w.accounts[a.escrowed_maker_tokens].amount == offer_maker_amount,
        w.accounts[a.offer_makers_maker_tokens].amount == v.accounts[a.offer_makers_maker_tokens].amount
            - offer_maker_amount,
{
    let vault = spec_derive_vault_address(a.offer, escrowed_maker_tokens_bump)->0;
    let src = a.offer_makers_maker_tokens;
    assert(!v.accounts.contains_key(vault));
    assert(src != vault);
    assert(w.accounts[vault].owner == vault);
    assert(w.accounts[vault].amount == offer_maker_amount);
    assert forall|oid: u64| #[trigger] w.offers.contains_key(oid) implies
        crate::ledger::spec_offer_backed(w, oid) by {
        if oid == a.offer {
            assert(!crate::authority::spec_is_custody_address(a.offer_maker));
        } else {
            assert(v.offers.contains_key(oid));
            assert(crate::ledger::spec_offer_backed(v, oid));
            let v2 = spec_derive_vault_address(
                oid,
                v.offers[oid].escrowed_maker_tokens_bump,
            )->0;
            assert(v.accounts.contains_key(v2));
            assert(v2 != vault);
            // The maker's source account is no vault: its owner signed, and
            // a vault's owner is its own off-curve address.
            assert(v.accounts[v2].owner == v2);
            assert(crate::authority::spec_is_custody_address(v2));
            assert(src != v2);
            assert(w.accounts[v2] == v.accounts[v2]);
        }
    }
    assert forall|o1: u64, o2: u64|
        #[trigger] w.offers.contains_key(o1) && #[trigger] w.offers.contains_key(o2) && o1
            != o2 implies crate::ledger::spec_vault_of(w, o1) != crate::ledger::spec_vault_of(
        w,
        o2,
    ) by {
        if o1 != a.offer && o2 != a.offer {
            assert(v.offers.contains_key(o1) && v.offers.contains_key(o2));
            assert(crate::ledger::spec_vault_of(w, o1) == crate::ledger::spec_vault_of(v, o1));
            assert(crate::ledger::spec_vault_of(w, o2) == crate::ledger::spec_vault_of(v, o2));
        } else if o1 == a.offer {
            assert(v.offers.contains_key(o2));
            assert(crate::ledger::spec_offer_backed(v, o2));
            assert(v.accounts.contains_key(crate::ledger::spec_vault_of(v, o2)));
            assert(crate::ledger::spec_vault_of(w, o2) == crate::ledger::spec_vault_of(v, o2));
            assert(crate::ledger::spec_vault_of(w, o1) == vault);
        } else {
            assert(v.offers.contains_key(o1));
            assert(crate::ledger::spec_offer_backed(v, o1));
            assert(v.accounts.contains_key(crate::ledger::spec_vault_of(v, o1)));
            assert(crate::ledger::spec_vault_of(w, o1) == crate::ledger::spec_vault_of(v, o1));
            assert(crate::ledger::spec_vault_of(w, o2) == vault);
        }
    }
}

/// What [`accept`] returns, exactly, for every input: the first failing
/// check names the error; an input passing every check succeeds. In a
/// well-formed state the stored nonce always re-derives the live vault and
/// its custody authority, so of the derivation checks only a wrong
/// `escrowed_maker_tokens` address can actually fail.
pub open spec fn accept_validate(v: EscrowView, a: Accept) -> Result<(), EscrowError>
    recommends
        v.accounts.contains_key(a.offer_makers_taker_tokens),
        v.accounts.contains_key(a.offer_takers_taker_tokens),
        v.accounts.contains_key(a.offer_takers_maker_tokens),
{
    let o = v.offers[a.offer];
    let derived = spec_derive_vault_address(a.offer, o.escrowed_maker_tokens_bump);
    let vault = derived->0;
    let mr = v.accounts[a.offer_makers_taker_tokens];
    let st = v.accounts[a.offer_takers_taker_tokens];
    let tr = v.accounts[a.offer_takers_maker_tokens];
    if !v.offers.contains_key(a.offer) {
        Err(EscrowError::OfferNotFound)
    } else if o.maker != a.offer_maker {
        Err(EscrowError::Unauthorized)
    } else if a.taker_mint != o.taker_mint {
        Err(EscrowError::AssetMismatch)
    } else if mr.owner != a.offer_maker {
        Err(EscrowError::Unauthorized)
    } else if mr.mint != a.taker_mint {
        Err(EscrowError::AssetMismatch)
    } else if derived is None {
        Err(EscrowError::DerivationMismatch)
    } else if vault != a.escrowed_maker_tokens {
        Err(EscrowError::DerivationMismatch)
    } else if !v.accounts.contains_key(vault) {
        Err(EscrowError::DerivationMismatch)
    } else if st.mint != o.taker_mint {
        Err(EscrowError::AssetMismatch)
    } else if !spec_authorizes(Authorization::Signature(a.offer_taker), st.owner) {
        Err(EscrowError::Unauthorized)
    } else if st.amount < o.taker_amount {
        Err(EscrowError::InsufficientBalance)
    } else if !spec_authorizes(
        Authorization::Custody(a.offer, o.escrowed_maker_tokens_bump),
        v.accounts[vault].owner,
    ) {
        Err(EscrowError::Unauthorized)
    } else if v.accounts[vault].mint != tr.mint {
        Err(EscrowError::AssetMismatch)
    } else {
        Ok(())
    }
}

/// The state a successful [`accept`] leaves behind: the wanted amount moved
/// from the taker to the maker, then the vault's whole balance moved to the
/// taker, then the vault closed and the offer record destroyed.
pub open spec fn accept_ok_state(v: EscrowView, a: Accept) -> EscrowView {
    let o = v.offers[a.offer];
    let vault = spec_derive_vault_address(a.offer, o.escrowed_maker_tokens_bump)->0;
    let paid = spec_move_balance(
        v.accounts,
        a.offer_takers_taker_tokens,
        a.offer_makers_taker_tokens,
        o.taker_amount,
    );
    let released = spec_move_balance(paid, vault, a.offer_takers_maker_tokens, paid[vault].amount);
    EscrowView { accounts: released.remove(vault), offers: v.offers.remove(a.offer) }
}

/// The caller-side bounds [`accept`] needs when it would succeed: the
/// taker's release destination is not the vault itself (the vault must be
/// empty at close time), and neither credited balance overflows.
pub open spec fn accept_fits(v: EscrowView, a: Accept) -> bool {
    accept_validate(v, a) is Ok ==> {
        let o = v.offers[a.offer];
        let vault = spec_derive_vault_address(a.offer, o.escrowed_maker_tokens_bump)->0;
        let paid = spec_move_balance(
            v.accounts,
            a.offer_takers_taker_tokens,
            a.offer_makers_taker_tokens,
            o.taker_amount,
        );
        &&& a.offer_takers_maker_tokens != vault
        &&& spec_move_fits(
            v.accounts,
            a.offer_takers_taker_tokens,
            a.offer_makers_taker_tokens,
            o.taker_amount,
        )
        &&& spec_move_fits(paid, vault, a.offer_takers_maker_tokens, paid[vault].amount)
    }
}

/// Accept an open offer: pay the maker the wanted amount of the wanted
/// asset under the taker's signature, receive the vault's whole balance
/// under the re-derived custody authority, then destroy vault and offer
/// record, refunding their storage deposits to the maker. Both legs happen
/// or neither: every check precedes the first movement, so on any failure
/// nothing changes — in particular the taker is never debited without the
/// escrow being released. Once settled the record is gone, so a second
/// accept or a cancel fails with `OfferNotFound`.
pub fn accept(state: &mut Escrow, accounts: Accept) -> (result: Result<(), EscrowError>)
    requires
        wf(old(state)@),
        old(state)@.accounts.contains_key(accounts.offer_makers_taker_tokens),
        old(state)@.accounts.contains_key(accounts.offer_takers_taker_tokens),
        old(state)@.accounts.contains_key(accounts.offer_takers_maker_tokens),
        accept_fits(old(state)@, accounts),
    ensures
        result == accept_validate(old(state)@, accounts),
        result is Ok ==> final(state)@ == accept_ok_state(old(state)@, accounts),
        result is Err ==> final(state)@ == old(state)@,
        wf(final(state)@),
        result is Ok ==> !final(state)@.offers.contains_key(accounts.offer)
            && !final(state)@.accounts.contains_key(accounts.escrowed_maker_tokens),
{
    let o: Offer = match state.offers.get(&accounts.offer) {
        None => {
            return Err(EscrowError::OfferNotFound);
        },
        Some(o) => *o,
    };
    if o.maker != accounts.offer_maker {
        return Err(EscrowError::Unauthorized);
    }
    if accounts.taker_mint != o.taker_mint {
        return Err(EscrowError::AssetMismatch);
    }
    let mr: TokenAccount = *state.accounts.get(&accounts.offer_makers_taker_tokens).unwrap();
    if mr.owner != accounts.offer_maker {
        return Err(EscrowError::Unauthorized);
    }
    if mr.mint != accounts.taker_mint {
        return Err(EscrowError::AssetMismatch);
    }
    let vault: u64 = match crate::authority::derive_vault_address(
        accounts.offer,
        o.escrowed_maker_tokens_bump,
    ) {
        None => {
            return Err(EscrowError::DerivationMismatch);
        },
        Some(v) => v,
    };
    if vault != accounts.escrowed_maker_tokens {
        return Err(EscrowError::DerivationMismatch);
    }
    let vault_acct: TokenAccount = match state.accounts.get(&vault) {
        None => {
            return Err(EscrowError::DerivationMismatch);
        },
        Some(x) => *x,
    };
    let st: TokenAccount = *state.accounts.get(&accounts.offer_takers_taker_tokens).unwrap();
    if st.mint != o.taker_mint {
        return Err(EscrowError::AssetMismatch);
    }
    if !crate::authority::authorizes(Authorization::Signature(accounts.offer_taker), st.owner) {
        return Err(EscrowError::Unauthorized);
    }
    if st.amount < o.taker_amount {
        return Err(EscrowError::InsufficientBalance);
    }
    let custody = Authorization::Custody(accounts.offer, o.escrowed_maker_tokens_bump);
    if !crate::authority::authorizes(custody, vault_acct.owner) {
        return Err(EscrowError::Unauthorized);
    }
    let tr: TokenAccount = *state.accounts.get(&accounts.offer_takers_maker_tokens).unwrap();
    if vault_acct.mint != tr.mint {
        return Err(EscrowError::AssetMismatch);
    }
    // Every check has passed: pay the maker under the taker's signature,
    // release the whole escrowed balance to the taker under the re-derived
    // custody authority, close the vault, and destroy the offer.
    state.transfer(
        accounts.offer_takers_taker_tokens,
        accounts.offer_makers_taker_tokens,
        o.taker_amount,
        Authorization::Signature(accounts.offer_taker),
    )?;
    let escrowed: TokenAccount = *state.accounts.get(&vault).unwrap();
    state.transfer(vault, accounts.offer_takers_maker_tokens, escrowed.amount, custody)?;
    state.close_account(vault, accounts.offer_maker, custody)?;
    state.offers.remove(&accounts.offer);
    proof {
        assert(state@.accounts.dom() =~= old(state)@.accounts.dom().remove(vault));
        lemma_settle_wf(old(state)@, state@, accounts.offer, vault);
    }
    Ok(())
}

/// What [`cancel`] returns, exactly, for every input: the first failing
/// check names the error; an input passing every check succeeds. In a
/// well-formed state the stored nonce always re-derives the live vault and
/// its custody authority, so of the derivation checks only a wrong
/// `escrowed_maker_tokens` address can actually fail.
pub open spec fn cancel_validate(v: EscrowView, a: Cancel) -> Result<(), EscrowError>
    recommends
        v.accounts.contains_key(a.offer_makers_maker_tokens),
{
    let o = v.offers[a.offer];
    let derived = spec_derive_vault_address(a.offer, o.escrowed_maker_tokens_bump);
    let vault = derived->0;
    if !v.offers.contains_key(a.offer) {
        Err(EscrowError::OfferNotFound)
    } else if o.maker != a.offer_maker {
        Err(EscrowError::Unauthorized)
    } else if derived is None {
        Err(EscrowError::DerivationMismatch)
    } else if vault != a.escrowed_maker_tokens {
        Err(EscrowError::DerivationMismatch)
    } else if !v.accounts.contains_key(vault) {
        Err(EscrowError::DerivationMismatch)
    } else if !spec_authorizes(
        Authorization::Custody(a.offer, o.escrowed_maker_tokens_bump),
        v.accounts[vault].owner,
    ) {
        Err(EscrowError::Unauthorized)
    } else if v.accounts[vault].mint != v.accounts[a.offer_makers_maker_tokens].mint {
        Err(EscrowError::AssetMismatch)
    } else {
        Ok(())
    }
}

/// The state a successful [`cancel`] leaves behind: the vault's whole
/// balance back in the maker's account, the vault closed, the offer record
/// destroyed.
pub open spec fn cancel_ok_state(v: EscrowView, a: Cancel) -> EscrowView {
    let o = v.offers[a.offer];
    let vault = spec_derive_vault_address(a.offer, o.escrowed_maker_tokens_bump)->0;
    EscrowView {
        accounts: spec_move_balance(
            v.accounts,
            vault,
            a.offer_makers_maker_tokens,
            v.accounts[vault].amount,
        ).remove(vault),
        offers: v.offers.remove(a.offer),
    }
}

/// The caller-side bounds [`cancel`] needs when it would succeed: the
/// refund destination is a real account and not the vault itself (the vault
/// must be empty at close time), and crediting it with the vault's whole
/// balance fits.
pub open spec fn cancel_fits(v: EscrowView, a: Cancel) -> bool {
    cancel_validate(v, a) is Ok ==> {
        let o = v.offers[a.offer];
        let vault = spec_derive_vault_address(a.offer, o.escrowed_maker_tokens_bump)->0;
        &&& a.offer_makers_maker_tokens != vault
        &&& spec_move_fits(v.accounts, vault, a.offer_makers_maker_tokens, v.accounts[vault].amount)
    }
}

/// Cancel an open offer: only its maker may, and only while it is open.
/// The vault's whole balance returns to the maker under the re-derived
/// custody authority — no human signature can move it — then vault and
/// offer record are destroyed and their storage deposits refunded to the
/// maker. All-or-nothing: on any failure nothing changes. Once settled or
/// cancelled the record is gone, so a replay fails with `OfferNotFound`.
pub fn cancel(state: &mut Escrow, accounts: Cancel) -> (result: Result<(), EscrowError>)
    requires
        wf(old(state)@),
        old(state)@.accounts.contains_key(accounts.offer_makers_maker_tokens),
        cancel_fits(old(state)@, accounts),
    ensures
        result == cancel_validate(old(state)@, accounts),
        result is Ok ==> final(state)@ == cancel_ok_state(old(state)@, accounts),
        result is Err ==> final(state)@ == old(state)@,
        wf(final(state)@),
        result is Ok ==> !final(state)@.offers.contains_key(accounts.offer)
            && !final(state)@.accounts.contains_key(accounts.escrowed_maker_tokens),
        result is Ok ==> final(state)@.accounts[accounts.offer_makers_maker_tokens].amount
            == old(state)@.accounts[accounts.offer_makers_maker_tokens].amount
            + old(state)@.accounts[accounts.escrowed_maker_tokens].amount,
{
    let o: Offer = match state.offers.get(&accounts.offer) {
        None => {
            return Err(EscrowError::OfferNotFound);
        },
        Some(o) => *o,
    };
    if o.maker != accounts.offer_maker {
        return Err(EscrowError::Unauthorized);
    }
    let vault: u64 = match crate::authority::derive_vault_address(
        accounts.offer,
        o.escrowed_maker_tokens_bump,
    ) {
        None => {
            return Err(EscrowError::DerivationMismatch);
        },
        Some(v) => v,
    };
    if vault != accounts.escrowed_maker_tokens {
        return Err(EscrowError::DerivationMismatch);
    }
    let vault_acct: TokenAccount = match state.accounts.get(&vault) {
        None => {
            return Err(EscrowError::DerivationMismatch);
        },
        Some(x) => *x,
    };
    let custody = Authorization::Custody(accounts.offer, o.escrowed_maker_tokens_bump);
    if !crate::authority::authorizes(custody, vault_acct.owner) {
        return Err(EscrowError::Unauthorized);
    }
    let rd: TokenAccount = *state.accounts.get(&accounts.offer_makers_maker_tokens).unwrap();
    if vault_acct.mint != rd.mint {
        return Err(EscrowError::AssetMismatch);
    }
    // Every check has passed: drain the vault back to the maker under the
    // re-derived custody authority, close it, and destroy the offer.
    state.transfer(vault, accounts.offer_makers_maker_tokens, vault_acct.amount, custody)?;
    state.close_account(vault, accounts.offer_maker, custody)?;
    state.offers.remove(&accounts.offer);
    proof {
        assert(state@.accounts.dom() =~= old(state)@.accounts.dom().remove(vault));
        lemma_settle_wf(old(state)@, state@, accounts.offer, vault);
    }
    Ok(())
}

/// Settlement keeps the state well formed: after the one offer and its own
/// vault are destroyed and balances rearranged, every other offer is still
/// backed by its own distinct vault, because no two offers share a vault
/// and no step changes an account's owner.
proof fn lemma_settle_wf(v: EscrowView, w: EscrowView, offer_id: u64, vault: u64)
    requires
        wf(v),
        v.offers.contains_key(offer_id),
        vault == crate::ledger::spec_vault_of(v, offer_id),
        w.offers == v.offers.remove(offer_id),
        w.accounts.dom() == v.accounts.dom().remove(vault),
        forall|k: u64| #[trigger]
            w.accounts.contains_key(k) ==> w.accounts[k].owner == v.accounts[k].owner,
    ensures
        wf(w),
{
    assert forall|oid: u64| #[trigger] w.offers.contains_key(oid) implies
        crate::ledger::spec_offer_backed(w, oid) by {
        assert(v.offers.contains_key(oid) && oid != offer_id);
        assert(crate::ledger::spec_offer_backed(v, oid));
        let v2 = crate::ledger::spec_vault_of(v, oid);
        assert(v2 != vault);
        assert(v.accounts.contains_key(v2));
        assert(w.accounts.dom().contains(v2));
    }
    assert forall|o1: u64, o2: u64|
        #[trigger] w.offers.contains_key(o1) && #[trigger] w.offers.contains_key(o2) && o1
            != o2 implies crate::ledger::spec_vault_of(w, o1) != crate::ledger::spec_vault_of(
        w,
        o2,
    ) by {
        assert(v.offers.contains_key(o1) && v.offers.contains_key(o2));
    }
}

} // verus!
