use escrow::authority::{authorizes, derive_vault_address, is_custody_address, Authorization};
use escrow::instructions::{Accept, Cancel, Make};
use escrow::ledger::Escrow;
use escrow::state::{EscrowError, Offer, TokenAccount};
use escrow::{accept, cancel, make};

// Identities used throughout: even addresses are signable parties and their
// accounts; `MAKER` deposits asset `MINT_X` and wants `MINT_Y`.
const MAKER: u64 = 2;
const TAKER: u64 = 4;
const MINT_X: u64 = 100;
const MINT_Y: u64 = 102;
const MAKER_X: u64 = 10;
const MAKER_Y: u64 = 12;
const TAKER_Y: u64 = 14;
const TAKER_X: u64 = 16;
const OFFER: u64 = 50;
const BUMP: u8 = 1;
const VAULT: u64 = 51; // 50 ^ 1, the odd (off-curve) candidate

fn world() -> Escrow {
    let mut s = Escrow::new();
    s.open_account(MAKER_X, MINT_X, MAKER, 250).unwrap();
    s.open_account(MAKER_Y, MINT_Y, MAKER, 0).unwrap();
    s.open_account(TAKER_Y, MINT_Y, TAKER, 75).unwrap();
    s.open_account(TAKER_X, MINT_X, TAKER, 0).unwrap();
    s
}

fn make_accounts() -> Make {
    Make {
        offer: OFFER,
        offer_maker: MAKER,
        offer_makers_maker_tokens: MAKER_X,
        escrowed_maker_tokens: VAULT,
        maker_mint: MINT_X,
        taker_mint: MINT_Y,
    }
}

fn accept_accounts() -> Accept {
    Accept {
        offer: OFFER,
        escrowed_maker_tokens: VAULT,
        offer_maker: MAKER,
        offer_taker: TAKER,
        offer_makers_taker_tokens: MAKER_Y,
        offer_takers_taker_tokens: TAKER_Y,
        offer_takers_maker_tokens: TAKER_X,
        taker_mint: MINT_Y,
    }
}

fn cancel_accounts() -> Cancel {
    Cancel {
        offer: OFFER,
        offer_maker: MAKER,
        offer_makers_maker_tokens: MAKER_X,
        escrowed_maker_tokens: VAULT,
    }
}

fn opened() -> Escrow {
    let mut s = world();
    make(&mut s, make_accounts(), BUMP, 100, 50).unwrap();
    s
}

#[test]
fn derivation_is_deterministic_and_off_curve() {
    assert_eq!(derive_vault_address(OFFER, BUMP), Some(VAULT));
    assert_eq!(derive_vault_address(OFFER, BUMP), Some(VAULT));
    assert!(is_custody_address(VAULT));
    // An even nonce lands the candidate on the signable half: no vault.
    assert_eq!(derive_vault_address(OFFER, 2), None);
}

#[test]
fn no_signature_authorizes_a_custody_address() {
    assert!(!authorizes(Authorization::Signature(VAULT), VAULT));
    assert!(authorizes(Authorization::Custody(OFFER, BUMP), VAULT));
    assert!(!authorizes(Authorization::Custody(OFFER, 5), VAULT));
    assert!(authorizes(Authorization::Signature(MAKER), MAKER));
}

#[test]
fn make_moves_deposit_into_vault() {
    let s = opened();
    assert_eq!(s.account(MAKER_X).unwrap().amount, 150);
    assert_eq!(
        s.account(VAULT),
        Some(TokenAccount { mint: MINT_X, owner: VAULT, amount: 100 })
    );
    assert_eq!(
        s.offer(OFFER),
        Some(Offer {
            maker: MAKER,
            taker_mint: MINT_Y,
            taker_amount: 50,
            escrowed_maker_tokens_bump: BUMP,
        })
    );
}

#[test]
fn make_with_insufficient_balance_changes_nothing() {
    let mut s = world();
    let r = make(&mut s, make_accounts(), BUMP, 300, 50);
    assert_eq!(r, Err(EscrowError::InsufficientBalance));
    assert_eq!(s.account(MAKER_X).unwrap().amount, 250);
    assert_eq!(s.account(VAULT), None);
    assert_eq!(s.offer(OFFER), None);
}

#[test]
fn make_with_bad_nonce_is_rejected() {
    let mut s = world();
    // Nonce 2 derives no off-curve candidate for this offer address.
    let mut a = make_accounts();
    a.escrowed_maker_tokens = OFFER ^ 2;
    assert_eq!(make(&mut s, a, 2, 100, 50), Err(EscrowError::DerivationMismatch));
    // A right nonce but a wrong declared vault address is rejected too.
    let mut b = make_accounts();
    b.escrowed_maker_tokens = VAULT + 2;
    assert_eq!(make(&mut s, b, BUMP, 100, 50), Err(EscrowError::DerivationMismatch));
    assert_eq!(s.offer(OFFER), None);
}

#[test]
fn make_at_occupied_offer_address_is_rejected() {
    let mut s = opened();
    assert_eq!(
        make(&mut s, make_accounts(), BUMP, 10, 5),
        Err(EscrowError::AddressOccupied)
    );
    // The first offer is untouched.
    assert_eq!(s.offer(OFFER).unwrap().taker_amount, 50);
    assert_eq!(s.account(VAULT).unwrap().amount, 100);
}

#[test]
fn make_without_the_owners_signature_is_rejected() {
    let mut s = world();
    let mut a = make_accounts();
    a.offer_maker = TAKER; // signer does not own the deposit account
    assert_eq!(make(&mut s, a, BUMP, 100, 50), Err(EscrowError::Unauthorized));
    assert_eq!(s.account(MAKER_X).unwrap().amount, 250);
}

#[test]
fn make_with_wrong_mint_is_rejected() {
    let mut s = world();
    let mut a = make_accounts();
    a.maker_mint = MINT_Y; // the deposit account holds MINT_X
    assert_eq!(make(&mut s, a, BUMP, 100, 50), Err(EscrowError::AssetMismatch));
}

#[test]
fn accept_settles_both_legs_and_destroys_the_offer() {
    let mut s = opened();
    assert_eq!(accept(&mut s, accept_accounts()), Ok(()));
    assert_eq!(s.account(MAKER_Y).unwrap().amount, 50);
    assert_eq!(s.account(TAKER_Y).unwrap().amount, 25);
    assert_eq!(s.account(TAKER_X).unwrap().amount, 100);
    assert_eq!(s.account(MAKER_X).unwrap().amount, 150);
    assert_eq!(s.offer(OFFER), None);
    assert_eq!(s.account(VAULT), None);
}

#[test]
fn accept_with_wrong_asset_send_account_is_rejected() {
    let mut s = opened();
    // The taker tries to pay out of an account holding the wrong asset.
    let mut a = accept_accounts();
    a.offer_takers_taker_tokens = TAKER_X;
    assert_eq!(accept(&mut s, a), Err(EscrowError::AssetMismatch));
    // Nothing moved: the taker was never debited.
    assert_eq!(s.account(TAKER_X).unwrap().amount, 0);
    assert_eq!(s.account(TAKER_Y).unwrap().amount, 75);
    assert_eq!(s.account(MAKER_Y).unwrap().amount, 0);
    assert_eq!(s.account(VAULT).unwrap().amount, 100);
    assert!(s.offer(OFFER).is_some());
}

#[test]
fn accept_with_underfunded_taker_is_rejected() {
    let mut s = world();
    make(&mut s, make_accounts(), BUMP, 100, 80).unwrap(); // wants 80, taker has 75
    assert_eq!(accept(&mut s, accept_accounts()), Err(EscrowError::InsufficientBalance));
    assert_eq!(s.account(TAKER_Y).unwrap().amount, 75);
    assert_eq!(s.account(VAULT).unwrap().amount, 100);
}

#[test]
fn accept_with_wrong_maker_receive_account_is_rejected() {
    let mut s = opened();
    let mut a = accept_accounts();
    a.offer_makers_taker_tokens = TAKER_Y; // owned by the taker, not the maker
    assert_eq!(accept(&mut s, a), Err(EscrowError::Unauthorized));
    assert!(s.offer(OFFER).is_some());
}

#[test]
fn accept_with_wrong_declared_mint_is_rejected() {
    let mut s = opened();
    let mut a = accept_accounts();
    a.taker_mint = MINT_X; // the offer wants MINT_Y
    assert_eq!(accept(&mut s, a), Err(EscrowError::AssetMismatch));
    assert!(s.offer(OFFER).is_some());
}

#[test]
fn accept_with_wrong_vault_address_is_rejected() {
    let mut s = opened();
    let mut a = accept_accounts();
    a.escrowed_maker_tokens = VAULT + 2;
    assert_eq!(accept(&mut s, a), Err(EscrowError::DerivationMismatch));
    assert_eq!(s.account(VAULT).unwrap().amount, 100);
}

#[test]
fn cancel_with_wrong_vault_address_is_rejected() {
    let mut s = opened();
    let mut c = cancel_accounts();
    c.escrowed_maker_tokens = VAULT + 2;
    assert_eq!(cancel(&mut s, c), Err(EscrowError::DerivationMismatch));
    assert_eq!(s.account(VAULT).unwrap().amount, 100);
    assert!(s.offer(OFFER).is_some());
}

#[test]
fn cancel_returns_deposit_and_destroys_the_offer() {
    let mut s = opened();
    assert_eq!(cancel(&mut s, cancel_accounts()), Ok(()));
    assert_eq!(s.account(MAKER_X).unwrap().amount, 250);
    assert_eq!(s.offer(OFFER), None);
    assert_eq!(s.account(VAULT), None);
    // No movement of the wanted asset.
    assert_eq!(s.account(MAKER_Y).unwrap().amount, 0);
    assert_eq!(s.account(TAKER_Y).unwrap().amount, 75);
}

#[test]
fn cancel_by_anyone_but_the_maker_is_rejected() {
    let mut s = opened();
    let mut c = cancel_accounts();
    c.offer_maker = TAKER;
    assert_eq!(cancel(&mut s, c), Err(EscrowError::Unauthorized));
    // Every balance is as it was.
    assert_eq!(s.account(MAKER_X).unwrap().amount, 150);
    assert_eq!(s.account(VAULT).unwrap().amount, 100);
    assert!(s.offer(OFFER).is_some());
}

#[test]
fn settled_offer_rejects_any_replay() {
    let mut s = opened();
    accept(&mut s, accept_accounts()).unwrap();
    assert_eq!(accept(&mut s, accept_accounts()), Err(EscrowError::OfferNotFound));
    assert_eq!(cancel(&mut s, cancel_accounts()), Err(EscrowError::OfferNotFound));

    let mut t = opened();
    cancel(&mut t, cancel_accounts()).unwrap();
    assert_eq!(cancel(&mut t, cancel_accounts()), Err(EscrowError::OfferNotFound));
    assert_eq!(accept(&mut t, accept_accounts()), Err(EscrowError::OfferNotFound));
}

#[test]
fn open_account_refuses_an_occupied_address() {
    let mut s = world();
    assert_eq!(
        s.open_account(MAKER_X, MINT_X, MAKER, 1),
        Err(EscrowError::AddressOccupied)
    );
    assert_eq!(s.account(MAKER_X).unwrap().amount, 250);
}

#[test]
fn transfer_checks_authority_asset_and_balance() {
    let mut s = world();
    assert_eq!(
        s.transfer(MAKER_X, TAKER_X, 10, Authorization::Signature(TAKER)),
        Err(EscrowError::Unauthorized)
    );
    assert_eq!(
        s.transfer(MAKER_X, TAKER_Y, 10, Authorization::Signature(MAKER)),
        Err(EscrowError::AssetMismatch)
    );
    assert_eq!(
        s.transfer(MAKER_X, TAKER_X, 1000, Authorization::Signature(MAKER)),
        Err(EscrowError::InsufficientBalance)
    );
    assert_eq!(s.account(MAKER_X).unwrap().amount, 250);
    assert_eq!(
        s.transfer(MAKER_X, TAKER_X, 10, Authorization::Signature(MAKER)),
        Ok(())
    );
    assert_eq!(s.account(MAKER_X).unwrap().amount, 240);
    assert_eq!(s.account(TAKER_X).unwrap().amount, 10);
}

#[test]
fn vault_funds_cannot_move_under_any_signature() {
    let mut s = opened();
    // Even a "signature" naming the vault's own address proves nothing:
    // no key exists for the off-curve half of the address space.
    assert_eq!(
        s.transfer(VAULT, MAKER_X, 100, Authorization::Signature(VAULT)),
        Err(EscrowError::Unauthorized)
    );
    assert_eq!(
        s.transfer(VAULT, MAKER_X, 100, Authorization::Signature(MAKER)),
        Err(EscrowError::Unauthorized)
    );
    assert_eq!(s.account(VAULT).unwrap().amount, 100);
    // The re-derived custody authority is what moves them.
    assert_eq!(
        s.transfer(VAULT, MAKER_X, 100, Authorization::Custody(OFFER, BUMP)),
        Ok(())
    );
    assert_eq!(s.account(MAKER_X).unwrap().amount, 250);
}
