use token_ledger::errors::Error;
use token_ledger::ledger::NonFungibleTokenBasic;
use token_ledger::{GUEST_MINT_LIMIT, MINT_FEE};

fn alice() -> String {
    "alice.testnet".to_string()
}

fn bob() -> String {
    "bob.testnet".to_string()
}

fn carol() -> String {
    "carol.testnet".to_string()
}

fn metadata() -> String {
    "blah".to_string()
}

fn signer_pk() -> Vec<u8> {
    vec![0, 1, 2]
}

fn new_contract(owner: String) -> NonFungibleTokenBasic {
    NonFungibleTokenBasic::new(owner, true, false).unwrap()
}

#[test]
fn mint_token_get_token_owner() {
    let mut contract = new_contract(bob());
    let token_id = contract.mint_token(carol(), metadata(), MINT_FEE).unwrap();
    let token_data = contract.get_token_data(token_id).unwrap();
    assert_eq!(carol(), token_data.owner_id, "Unexpected token owner.");
}

#[test]
fn transfer_with_your_own_token() {
    let mut contract = new_contract(bob());
    let token_id = contract.mint_token(bob(), metadata(), MINT_FEE).unwrap();

    // bob transfers the token to alice
    contract
        .transfer(&bob(), &signer_pk(), alice(), token_id)
        .unwrap();

    // Check new owner
    let token_data = contract.get_token_data(token_id).unwrap();
    assert_eq!(alice(), token_data.owner_id, "Unexpected token owner.");
}

#[test]
fn mint_purchase_withdraw() {
    let mut contract = new_contract(bob());
    let token_id = contract.mint_token(carol(), metadata(), MINT_FEE).unwrap();
    let token_data = contract.get_token_data(token_id).unwrap();
    assert_eq!(carol(), token_data.owner_id, "Unexpected token owner.");

    contract
        .set_price(&carol(), &signer_pk(), token_id, MINT_FEE)
        .unwrap();

    contract.purchase(alice(), token_id, MINT_FEE).unwrap();

    let token_data = contract.get_token_data(token_id).unwrap();
    assert_eq!(alice(), token_data.owner_id, "Unexpected token owner.");
}

#[test]
fn mint_list_purchase_credits_seller() {
    let mut contract = new_contract(bob());
    let token_id = contract.mint_token(carol(), metadata(), MINT_FEE).unwrap();
    assert_eq!(token_id, 1);
    let token_data = contract.get_token_data(1).unwrap();
    assert_eq!(token_data.owner_id, carol());
    assert_eq!(token_data.price, 0);

    contract.set_price(&carol(), &signer_pk(), 1, 1000).unwrap();
    assert_eq!(contract.get_token_data(1).unwrap().price, 1000);

    contract.purchase(alice(), 1, 1000).unwrap();
    let token_data = contract.get_token_data(1).unwrap();
    assert_eq!(token_data.owner_id, alice());
    assert_eq!(token_data.price, 0);
    assert_eq!(contract.get_proceeds(&carol()), 1000);
}

#[test]
fn purchase_with_wrong_deposit_changes_nothing() {
    let mut contract = new_contract(bob());
    contract.mint_token(carol(), metadata(), MINT_FEE).unwrap();
    contract.set_price(&carol(), &signer_pk(), 1, 1000).unwrap();

    let r = contract.purchase(alice(), 1, 999);
    assert_eq!(r, Err(Error::PriceMismatch));
    let token_data = contract.get_token_data(1).unwrap();
    assert_eq!(token_data.owner_id, carol());
    assert_eq!(token_data.price, 1000);
    assert_eq!(contract.get_proceeds(&carol()), 0);
}

#[test]
fn guest_mint_quota_is_exhausted_by_the_fourth_call() {
    let mut contract = new_contract(bob());
    let pk = signer_pk();
    assert_eq!(contract.guest_mint(&bob(), &pk, alice(), metadata()), Ok(1));
    assert_eq!(contract.guest_mint(&bob(), &pk, alice(), metadata()), Ok(2));
    assert_eq!(contract.guest_mint(&bob(), &pk, carol(), metadata()), Ok(3));
    assert_eq!(
        contract.guest_mint(&bob(), &pk, carol(), metadata()),
        Err(Error::QuotaExceeded)
    );
    assert_eq!(contract.get_pubkey_minted(&pk), GUEST_MINT_LIMIT);
    assert_eq!(contract.get_num_tokens(), 3);
}

#[test]
fn withdraw_with_empty_balance_fails() {
    let mut contract = new_contract(bob());
    let dave = "dave.testnet".to_string();
    let r = contract.withdraw(&dave, &signer_pk(), &dave);
    assert_eq!(r, Err(Error::NothingToWithdraw));
}

#[test]
fn transfer_by_stranger_is_unauthorized() {
    let mut contract = new_contract(bob());
    contract.mint_token(carol(), metadata(), MINT_FEE).unwrap();

    let r = contract.transfer(&bob(), &signer_pk(), alice(), 1);
    assert_eq!(r, Err(Error::Unauthorized));
    assert_eq!(contract.get_token_data(1).unwrap().owner_id, carol());
}

#[test]
fn set_price_zero_is_idempotent() {
    let mut contract = new_contract(bob());
    contract.mint_token(carol(), metadata(), MINT_FEE).unwrap();
    contract.set_price(&carol(), &signer_pk(), 1, 500).unwrap();

    assert_eq!(contract.set_price(&carol(), &signer_pk(), 1, 0), Ok(()));
    assert_eq!(contract.get_token_data(1).unwrap().price, 0);
    assert_eq!(contract.set_price(&carol(), &signer_pk(), 1, 0), Ok(()));
    assert_eq!(contract.get_token_data(1).unwrap().price, 0);
}

#[test]
fn transfer_through_implicit_account() {
    // The owner is the implicit account of a key: the lower-case hex of the
    // key bytes with the leading type tag dropped.
    let key: Vec<u8> = vec![9, 0x00, 0xff, 0x10];
    let implicit_owner = "00ff10".to_string();

    let mut contract = new_contract(bob());
    contract
        .mint_token(implicit_owner.clone(), metadata(), MINT_FEE)
        .unwrap();

    // The signer account does not match, but the key-derived account does.
    let r = contract.transfer(&"someone.else".to_string(), &key, alice(), 1);
    assert_eq!(r, Ok(()));
    assert_eq!(contract.get_token_data(1).unwrap().owner_id, alice());
}

#[test]
fn withdraw_zeroes_the_balance_once() {
    let mut contract = new_contract(bob());
    contract.mint_token(carol(), metadata(), MINT_FEE).unwrap();
    contract.set_price(&carol(), &signer_pk(), 1, 750).unwrap();
    contract.purchase(alice(), 1, 750).unwrap();
    assert_eq!(contract.get_proceeds(&carol()), 750);

    let r = contract.withdraw(&carol(), &signer_pk(), &carol());
    assert_eq!(r, Ok(750));
    assert_eq!(contract.get_proceeds(&carol()), 0);

    let again = contract.withdraw(&carol(), &signer_pk(), &carol());
    assert_eq!(again, Err(Error::NothingToWithdraw));
}

#[test]
fn escrow_accumulates_over_sales() {
    let mut contract = new_contract(bob());
    contract.mint_token(carol(), metadata(), MINT_FEE).unwrap();
    contract.mint_token(carol(), metadata(), MINT_FEE).unwrap();

    contract.set_price(&carol(), &signer_pk(), 1, 100).unwrap();
    contract.set_price(&carol(), &signer_pk(), 2, 250).unwrap();
    contract.purchase(alice(), 1, 100).unwrap();
    contract.purchase(alice(), 2, 250).unwrap();

    assert_eq!(contract.get_proceeds(&carol()), 350);
}

#[test]
fn mint_ids_strictly_increase() {
    let mut contract = new_contract(bob());
    let first = contract.mint_token(carol(), metadata(), MINT_FEE).unwrap();
    let second = contract.guest_mint(&bob(), &signer_pk(), alice(), metadata()).unwrap();
    let third = contract.mint_token(alice(), metadata(), MINT_FEE).unwrap();
    assert_eq!(first, 1);
    assert_eq!(second, 2);
    assert_eq!(third, 3);
    assert_eq!(contract.get_num_tokens(), 3);
}

#[test]
fn mint_token_requires_the_exact_fee() {
    let mut contract = new_contract(bob());
    let r = contract.mint_token(carol(), metadata(), MINT_FEE - 1);
    assert_eq!(r, Err(Error::PriceMismatch));
    assert_eq!(contract.get_num_tokens(), 0);
}

#[test]
fn guest_mint_by_stranger_is_unauthorized() {
    let mut contract = new_contract(bob());
    let r = contract.guest_mint(&alice(), &signer_pk(), alice(), metadata());
    assert_eq!(r, Err(Error::Unauthorized));
    assert_eq!(contract.get_num_tokens(), 0);
    assert_eq!(contract.get_pubkey_minted(&signer_pk()), 0);
}

#[test]
fn unknown_token_is_not_found() {
    let mut contract = new_contract(bob());
    assert_eq!(contract.get_token_data(1).unwrap_err(), Error::NotFound);
    assert_eq!(
        contract.transfer(&bob(), &signer_pk(), alice(), 7),
        Err(Error::NotFound)
    );
    assert_eq!(
        contract.set_price(&bob(), &signer_pk(), 7, 10),
        Err(Error::NotFound)
    );
    assert_eq!(contract.purchase(alice(), 7, 10), Err(Error::NotFound));
}

#[test]
fn unlisted_token_is_not_for_sale() {
    let mut contract = new_contract(bob());
    contract.mint_token(carol(), metadata(), MINT_FEE).unwrap();
    let r = contract.purchase(alice(), 1, 1000);
    assert_eq!(r, Err(Error::NotForSale));
}

#[test]
fn initialization_is_guarded() {
    let r = NonFungibleTokenBasic::new(bob(), true, true);
    assert_eq!(r.unwrap_err(), Error::AlreadyInitialized);
    let r = NonFungibleTokenBasic::new(bob(), false, false);
    assert_eq!(r.unwrap_err(), Error::InvalidIdentity);
}

#[test]
fn fresh_lookups_default_to_zero() {
    let contract = new_contract(bob());
    assert_eq!(contract.get_proceeds(&alice()), 0);
    assert_eq!(contract.get_pubkey_minted(&signer_pk()), 0);
    assert_eq!(contract.get_num_tokens(), 0);
}

#[test]
fn price_and_owner_views() {
    let mut contract = new_contract(bob());
    assert_eq!(contract.get_price(1).unwrap_err(), Error::NotFound);
    assert_eq!(contract.get_token_owner(1).unwrap_err(), Error::NotFound);
    contract.mint_token(carol(), metadata(), MINT_FEE).unwrap();
    assert_eq!(contract.get_price(1), Ok(0));
    assert_eq!(contract.get_token_owner(1), Ok(carol()));
    contract.set_price(&carol(), &signer_pk(), 1, 77).unwrap();
    assert_eq!(contract.get_price(1), Ok(77));
    assert_eq!(contract.get_token_owner(1), Ok(carol()));
}

#[test]
fn transfer_keeps_the_listing_price() {
    let mut contract = new_contract(bob());
    contract.mint_token(carol(), metadata(), MINT_FEE).unwrap();
    contract.set_price(&carol(), &signer_pk(), 1, 42).unwrap();
    contract.transfer(&carol(), &signer_pk(), alice(), 1).unwrap();
    let token_data = contract.get_token_data(1).unwrap();
    assert_eq!(token_data.owner_id, alice());
    assert_eq!(token_data.price, 42);
    assert_eq!(token_data.metadata, metadata());
}
