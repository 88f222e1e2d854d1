//! The world state and the token-ledger operations.
//!
//! [`Escrow`] holds the two persistent stores: the token accounts (keyed by
//! address) and the open offer records (keyed by the offer's address), each
//! paired 1:1 with the vault account at its derived address. The ledger
//! operations — create an account, transfer a balance under an
//! authorization, close an emptied account — are the primitives the three
//! transitions are built from.

use std::collections::BTreeMap;
use vstd::prelude::*;

use crate::authority::{
    authorizes, spec_authorizes, spec_derive_vault_address, spec_is_custody_address,
};
use crate::state::{EscrowError, Offer, TokenAccount};

verus! {

broadcast use vstd::std_specs::btree::group_btree_axioms;

/// The mathematical model of the world state: two finite maps.
#[verifier::ext_equal]
pub ghost struct EscrowView {
    /// Every live token account, by address. Vaults live here too, at their
    /// derived off-curve addresses.
    pub accounts: Map<u64, TokenAccount>,
    /// Every open offer, by the address of its record.
    pub offers: Map<u64, Offer>,
}

/// The world state: token accounts and open offers.
pub struct Escrow {
    /// Every live token account, by address.
    pub accounts: BTreeMap<u64, TokenAccount>,
    /// Every open offer, by the address of its record.
    pub offers: BTreeMap<u64, Offer>,
}

impl View for Escrow {
    type V = EscrowView;

    open spec fn view(&self) -> EscrowView {
        EscrowView { accounts: self.accounts@, offers: self.offers@ }
    }
}

/// The vault address an offer's record points at, re-derived from the
/// offer's own address and its stored nonce.
pub open spec fn spec_vault_of(v: EscrowView, offer_id: u64) -> u64
    recommends
        v.offers.contains_key(offer_id),
{
    spec_derive_vault_address(offer_id, v.offers[offer_id].escrowed_maker_tokens_bump)->0
}

/// One offer's record is backed as the protocol requires: its maker is a
/// signable identity, its stored nonce re-derives a vault address, and the
/// vault account exists and is its own authority.
pub open spec fn spec_offer_backed(v: EscrowView, offer_id: u64) -> bool
    recommends
        v.offers.contains_key(offer_id),
{
    let o = v.offers[offer_id];
    let derived = spec_derive_vault_address(offer_id, o.escrowed_maker_tokens_bump);
    &&& !spec_is_custody_address(o.maker)
    &&& derived is Some
    &&& v.accounts.contains_key(derived->0)
    &&& v.accounts[derived->0].owner == derived->0
}

/// Well-formedness of the world state: every open offer is backed by its own
/// vault, and no two offers share a vault — an offer and its vault are
/// created together and destroyed together, so their lifetimes coincide.
pub open spec fn wf(v: EscrowView) -> bool {
    &&& forall|oid: u64| #[trigger] v.offers.contains_key(oid) ==> spec_offer_backed(v, oid)
    &&& forall|o1: u64, o2: u64|
        #[trigger] v.offers.contains_key(o1) && #[trigger] v.offers.contains_key(o2) && o1 != o2
            ==> spec_vault_of(v, o1) != spec_vault_of(v, o2)
}

/// The accounts map after a balance of `amount` moves from `from` to `to`.
/// Written as a debit followed by a credit of the debited map, so it is also
/// exact when `from == to` (the move then changes nothing).
pub open spec fn spec_move_balance(
    m: Map<u64, TokenAccount>,
    from: u64,
    to: u64,
    amount: u64,
) -> Map<u64, TokenAccount>
    recommends
        m.contains_key(from),
        m.contains_key(to),
{
    let debited = m.insert(
        from,
        TokenAccount { amount: (m[from].amount - amount) as u64, ..m[from] },
    );
    debited.insert(to, TokenAccount { amount: (debited[to].amount + amount) as u64, ..debited[to] })
}

/// Whether the credit side of a move fits in a balance. When `from == to`
/// the balance is unchanged, so nothing can overflow.
pub open spec fn spec_move_fits(m: Map<u64, TokenAccount>, from: u64, to: u64, amount: u64) -> bool {
    from == to || m[to].amount + amount <= u64::MAX
}

/// What a transfer returns, exactly, for every input: the first failing
/// check names the error, and only an input passing all three succeeds.
pub open spec fn spec_transfer_check(
    v: EscrowView,
    from: u64,
    to: u64,
    amount: u64,
    auth: crate::authority::Authorization,
) -> Result<(), EscrowError>
    recommends
        v.accounts.contains_key(from),
        v.accounts.contains_key(to),
{
    if !spec_authorizes(auth, v.accounts[from].owner) {
        Err(EscrowError::Unauthorized)
    } else if v.accounts[from].mint != v.accounts[to].mint {
        Err(EscrowError::AssetMismatch)
    } else if v.accounts[from].amount < amount {
        Err(EscrowError::InsufficientBalance)
    } else {
        Ok(())
    }
}

/// Well-formedness depends only on which accounts exist and who owns them,
/// never on balances or mints: a state whose offers are the same and whose
/// accounts keep their keys and owners is as well formed as the one it
/// came from.
pub proof fn lemma_wf_owners_only(v: EscrowView, w: EscrowView)
    requires
        wf(v),
        w.offers == v.offers,
        w.accounts.dom() == v.accounts.dom(),
        forall|k: u64| #[trigger]
            v.accounts.contains_key(k) ==> w.accounts[k].owner == v.accounts[k].owner,
    ensures
        wf(w),
{
    assert forall|oid: u64| #[trigger] w.offers.contains_key(oid) implies spec_offer_backed(
        w,
        oid,
    ) by {
        assert(v.offers.contains_key(oid));
        assert(spec_offer_backed(v, oid));
        let derived = spec_derive_vault_address(
            oid,
            v.offers[oid].escrowed_maker_tokens_bump,
        );
        assert(v.accounts.contains_key(derived->0));
        assert(w.accounts.dom().contains(derived->0));
    }
    assert forall|o1: u64, o2: u64|
        #[trigger] w.offers.contains_key(o1) && #[trigger] w.offers.contains_key(o2) && o1
            != o2 implies spec_vault_of(w, o1) != spec_vault_of(w, o2) by {
        assert(v.offers.contains_key(o1) && v.offers.contains_key(o2));
    }
}

impl Escrow {
    /// An empty world: no accounts, no offers.
    pub fn new() -> (s: Escrow)
        ensures
            s@.accounts == Map::<u64, TokenAccount>::empty(),
            s@.offers == Map::<u64, Offer>::empty(),
            wf(s@),
    {
        let s = Escrow { accounts: BTreeMap::new(), offers: BTreeMap::new() };
        proof {
            assert(wf(s@));
        }
        s
    }

    /// The token account at `id`, if one exists.
    pub fn account(&self, id: u64) -> (r: Option<TokenAccount>)
        ensures
            match r {
                Some(a) => self@.accounts.contains_key(id) && a == self@.accounts[id],
                None => !self@.accounts.contains_key(id),
            },
    {
        match self.accounts.get(&id) {
            Some(a) => Some(*a),
            None => None,
        }
    }

    /// The open offer recorded at `id`, if one exists.
    pub fn offer(&self, id: u64) -> (r: Option<Offer>)
        ensures
            match r {
                Some(o) => self@.offers.contains_key(id) && o == self@.offers[id],
                None => !self@.offers.contains_key(id),
            },
    {
        match self.offers.get(&id) {
            Some(o) => Some(*o),
            None => None,
        }
    }

    /// Allocate a token account at `id` with the given asset type, owner and
    /// starting balance. Fails, changing nothing, exactly when the address
    /// is already occupied.
    pub fn open_account(&mut self, id: u64, mint: u64, owner: u64, amount: u64) -> (result: Result<
        (),
        EscrowError,
    >)
        requires
            wf(old(self)@),
        ensures
            wf(final(self)@),
            result is Ok <==> !old(self)@.accounts.contains_key(id),
            result is Ok ==> final(self)@ == (EscrowView {
                accounts: old(self)@.accounts.insert(id, TokenAccount { mint, owner, amount }),
                offers: old(self)@.offers,
            }),
            result is Err ==> result == Err::<(), EscrowError>(EscrowError::AddressOccupied)
                && final(self)@ == old(self)@,
    {
        if self.accounts.contains_key(&id) {
            return Err(EscrowError::AddressOccupied);
        }
        self.accounts.insert(id, TokenAccount { mint, owner, amount });
        proof {
            let v = old(self)@;
            let w = self@;
            assert forall|oid: u64| #[trigger] w.offers.contains_key(oid) implies spec_offer_backed(
                w,
                oid,
            ) by {
                assert(spec_offer_backed(v, oid));
                let derived = spec_derive_vault_address(
                    oid,
                    v.offers[oid].escrowed_maker_tokens_bump,
                );
                assert(v.accounts.contains_key(derived->0));
                assert(derived->0 != id);
            }
            assert forall|o1: u64, o2: u64|
                #[trigger] w.offers.contains_key(o1) && #[trigger] w.offers.contains_key(o2) && o1
                    != o2 implies spec_vault_of(w, o1) != spec_vault_of(w, o2) by {
                assert(v.offers.contains_key(o1) && v.offers.contains_key(o2));
            }
        }
        Ok(())
    }

    /// Transfer `amount` from `from` to `to`, if `auth` proves control of
    /// `from`'s owner, the two accounts hold the same asset type, and the
    /// balance covers it — else fail with the first violated check's error
    /// and change nothing. Never touches any other account, and never
    /// changes an owner or an asset type, so well-formedness is kept.
    pub fn transfer(
        &mut self,
        from: u64,
        to: u64,
        amount: u64,
        auth: crate::authority::Authorization,
    ) -> (result: Result<(), EscrowError>)
        requires
            old(self)@.accounts.contains_key(from),
            old(self)@.accounts.contains_key(to),
            spec_move_fits(old(self)@.accounts, from, to, amount),
        ensures
            result == spec_transfer_check(old(self)@, from, to, amount, auth),
            result is Ok ==> final(self)@ == (EscrowView {
                accounts: spec_move_balance(old(self)@.accounts, from, to, amount),
                offers: old(self)@.offers,
            }),
            result is Err ==> final(self)@ == old(self)@,
            wf(old(self)@) ==> wf(final(self)@),
    {
        let f: TokenAccount = *self.accounts.get(&from).unwrap();
        let t: TokenAccount = *self.accounts.get(&to).unwrap();
        if !authorizes(auth, f.owner) {
            return Err(EscrowError::Unauthorized);
        }
        if f.mint != t.mint {
            return Err(EscrowError::AssetMismatch);
        }
        if f.amount < amount {
            return Err(EscrowError::InsufficientBalance);
        }
        self.accounts.insert(from, TokenAccount { amount: f.amount - amount, ..f });
        let t2: TokenAccount = *self.accounts.get(&to).unwrap();
        self.accounts.insert(to, TokenAccount { amount: t2.amount + amount, ..t2 });
        proof {
            let v = old(self)@;
            let w = self@;
            assert(w.accounts =~= spec_move_balance(v.accounts, from, to, amount));
            if wf(v) {
                assert(w.accounts.dom() =~= v.accounts.dom());
                lemma_wf_owners_only(v, w);
            }
        }
        Ok(())
    }

    /// Close the emptied account at `account`, returning the storage deposit
    /// it held to `refund_to` — the deposit's amount is the storage engine's
    /// concern, not part of this model. Fails, changing nothing, exactly
    /// when `auth` does not prove control of the account's owner. The
    /// balance must already be zero: a transition drains a vault before
    /// closing it.
    pub fn close_account(
        &mut self,
        account: u64,
        refund_to: u64,
        auth: crate::authority::Authorization,
    ) -> (result: Result<(), EscrowError>)
        requires
            old(self)@.accounts.contains_key(account),
            old(self)@.accounts[account].amount == 0,
        ensures
            result is Ok <==> spec_authorizes(auth, old(self)@.accounts[account].owner),
            result is Ok ==> final(self)@ == (EscrowView {
                accounts: old(self)@.accounts.remove(account),
                offers: old(self)@.offers,
            }),
            result is Err ==> result == Err::<(), EscrowError>(EscrowError::Unauthorized)
                && final(self)@ == old(self)@,
    {
        let a: TokenAccount = *self.accounts.get(&account).unwrap();
        if !authorizes(auth, a.owner) {
            return Err(EscrowError::Unauthorized);
        }
        let _ = refund_to;
        self.accounts.remove(&account);
        Ok(())
    }
}

} // verus!
