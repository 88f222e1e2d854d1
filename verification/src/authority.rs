//! The custody-authority deriver and the two kinds of authorization.
//!
//! The address space is split in two: an address with the low bit clear may
//! belong to a human party holding a signing key, while an address with the
//! low bit set is "off-curve" — no signing key for it can exist. The deriver
//! maps an offer's address and a caller-supplied nonce to an off-curve
//! candidate; when the candidate falls on the signable half it fails and the
//! caller must retry with another nonce. Because the derivation is a pure
//! function, whoever holds the offer address and the stored nonce — that is,
//! the program — can re-derive the same authority at redemption time.

use vstd::prelude::*;

verus! {

/// Whether `a` is a custody address: one for which no signing key exists.
pub open spec fn spec_is_custody_address(a: u64) -> bool {
    a % 2 == 1
}

/// Exec mirror of [`spec_is_custody_address`].
pub fn is_custody_address(a: u64) -> (r: bool)
    ensures
        r == spec_is_custody_address(a),
{
    a % 2 == 1
}

/// The vault address derived from an offer's address and a nonce: the
/// candidate is accepted only when it is off-curve, so the vault can be its
/// own authority without any party holding a key for it. `None` means the
/// nonce yields no valid candidate and the caller must pick another.
pub open spec fn spec_derive_vault_address(offer: u64, nonce: u8) -> Option<u64> {
    let candidate = offer ^ (nonce as u64);
    if spec_is_custody_address(candidate) {
        Some(candidate)
    } else {
        None
    }
}

/// Exec mirror of [`spec_derive_vault_address`]: the custody-authority
/// deriver. Deterministic: the same (offer, nonce) pair always re-derives
/// the same address.
pub fn derive_vault_address(offer: u64, nonce: u8) -> (r: Option<u64>)
    ensures
        r == spec_derive_vault_address(offer, nonce),
{
    let candidate: u64 = offer ^ (nonce as u64);
    if is_custody_address(candidate) {
        Some(candidate)
    } else {
        None
    }
}

/// Proof that a debit of an account is allowed. The two kinds are kept as a
/// tagged union so a transition can never pass a human signature where a
/// derived custody proof is required, or the reverse.
#[derive(Clone, Copy, PartialEq, Eq, Structural, Debug)]
pub enum Authorization {
    /// An externally verified signature of the named identity's key.
    Signature(u64),
    /// The custody proof the program reconstructs from an offer's address
    /// and the nonce stored in its record.
    Custody(u64, u8),
}

/// Whether `auth` proves control of the identity `authority` (the `owner`
/// field of the account being debited). A signature proves only the signer's
/// own signable identity; a custody proof proves exactly the identity that
/// the derivation re-computes.
pub open spec fn spec_authorizes(auth: Authorization, authority: u64) -> bool {
    match auth {
        Authorization::Signature(k) => k == authority && !spec_is_custody_address(k),
        Authorization::Custody(offer, nonce) => spec_derive_vault_address(offer, nonce)
            == Some(authority),
    }
}

/// Exec mirror of [`spec_authorizes`].
pub fn authorizes(auth: Authorization, authority: u64) -> (r: bool)
    ensures
        r == spec_authorizes(auth, authority),
{
    match auth {
        Authorization::Signature(k) => k == authority && !is_custody_address(k),
        Authorization::Custody(offer, nonce) => match derive_vault_address(offer, nonce) {
            Some(a) => a == authority,
            None => false,
        },
    }
}

/// Whatever the deriver returns is a custody address: a successful
/// derivation never lands on the signable half of the address space.
pub proof fn lemma_derived_address_is_custody(offer: u64, nonce: u8)
    ensures
        spec_derive_vault_address(offer, nonce) is Some ==> spec_is_custody_address(
            spec_derive_vault_address(offer, nonce)->0,
        ),
{
}

/// No signature ever authorizes a custody address: no key exists for the
/// off-curve half of the address space, so escrowed funds can only move
/// under the program's own re-derived custody proof.
pub proof fn lemma_custody_has_no_signer(auth: Authorization, a: u64)
    requires
        spec_is_custody_address(a),
        auth is Signature,
    ensures
        !spec_authorizes(auth, a),
{
}

} // verus!
