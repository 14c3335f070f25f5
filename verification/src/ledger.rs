//! The token registry, the contract facade, and its operations.
//!
//! The whole contract state is one aggregate, passed by reference into each
//! operation; the hosting platform loads it before a call and commits it
//! after. Every operation is atomic: it either applies all its mutations
//! and returns a value, or returns an error and leaves the state untouched.
use vstd::prelude::*;

use crate::account::{authorize_contract_owner, authorize_owner, is_authorized};
use crate::errors::Error;
use crate::escrow;
use crate::escrow::{
    accounts_distinct, lemma_escrow_total_push, lemma_escrow_total_update, lemma_proceeds_absent,
    lemma_proceeds_found, lemma_proceeds_push, lemma_proceeds_update, proceeds_find, ProceedsEntry,
};
use crate::quota;
use crate::quota::{
    lemma_quota_count_absent, lemma_quota_count_found, lemma_quota_count_push,
    lemma_quota_count_update, quota_counts_bounded, quota_find, quota_keys_distinct, QuotaEntry,
};
use crate::{GUEST_MINT_LIMIT, MINT_FEE};

verus! {

/// One token: its current owner, its opaque metadata, and its listing
/// price. A price of zero means the token is not for sale.
#[derive(Debug)]
pub struct TokenData {
    pub owner_id: String,
    pub metadata: String,
    pub price: u128,
}

/// The ledger state: mint quotas by public key, tokens by id, escrowed sale
/// proceeds by account, the contract owner, and the id counter.
///
/// Token ids are assigned consecutively starting at 1 and never reused, so
/// the token with id `i` is stored at index `i - 1`.
#[derive(Debug)]
pub struct NonFungibleTokenBasic {
    pub pubkey_minted: Vec<QuotaEntry>,
    pub token_to_data: Vec<TokenData>,
    pub account_to_proceeds: Vec<ProceedsEntry>,
    pub owner_id: String,
    pub token_id: u64,
}

impl NonFungibleTokenBasic {
    /// The state invariant: the id counter equals the number of stored
    /// tokens, quota keys and escrow accounts are free of duplicates, and
    /// no quota counter exceeds the guest-mint limit.
    pub open spec fn wf(self) -> bool {
        &&& self.token_id as int == self.token_to_data@.len()
        &&& quota_keys_distinct(self.pubkey_minted@)
        &&& quota_counts_bounded(self.pubkey_minted@, GUEST_MINT_LIMIT)
        &&& accounts_distinct(self.account_to_proceeds@)
    }

    /// Whether a token with this id has been minted.
    pub open spec fn has_token(self, token_id: u64) -> bool {
        1 <= token_id <= self.token_to_data@.len()
    }

    /// The stored record of the token with this id.
    pub open spec fn token_at(self, token_id: u64) -> TokenData
        recommends
            self.has_token(token_id),
    {
        self.token_to_data@[token_id - 1]
    }

    /// The consumed guest-mint count of a public key (zero if unknown).
    pub open spec fn minted_of(self, key: Seq<u8>) -> u8 {
        quota::quota_count(self.pubkey_minted@, key)
    }

    /// The escrowed balance of an account (zero if unknown).
    pub open spec fn proceeds_of(self, account: Seq<char>) -> u128 {
        escrow::proceeds_of(self.account_to_proceeds@, account)
    }

    /// The sum of all escrowed balances.
    pub open spec fn escrow_total(self) -> int {
        escrow::escrow_total(self.account_to_proceeds@)
    }

    /// `post` is `pre` with the token record at `token_id` replaced by
    /// `entry` and everything else untouched.
    pub open spec fn tokens_updated(
        pre: NonFungibleTokenBasic,
        post: NonFungibleTokenBasic,
        token_id: u64,
        entry: TokenData,
    ) -> bool {
        &&& post.token_to_data@ == pre.token_to_data@.update(token_id - 1, entry)
        &&& post.pubkey_minted == pre.pubkey_minted
        &&& post.account_to_proceeds == pre.account_to_proceeds
        &&& post.owner_id == pre.owner_id
        &&& post.token_id == pre.token_id
    }

    /// `post` is `pre` with the listing price of the token at `token_id`
    /// set to `amount` and everything else untouched.
    pub open spec fn set_price_applied(
        pre: NonFungibleTokenBasic,
        post: NonFungibleTokenBasic,
        token_id: u64,
        amount: u128,
    ) -> bool {
        Self::tokens_updated(
            pre,
            post,
            token_id,
            (TokenData {
                owner_id: pre.token_at(token_id).owner_id,
                metadata: pre.token_at(token_id).metadata,
                price: amount,
            }),
        )
    }

    /// `post` is `pre` with a fresh unlisted token appended under the next
    /// id; the quota tracker is not constrained here, since a quota-gated
    /// mint changes it alongside.
    pub open spec fn mint_applied(
        pre: NonFungibleTokenBasic,
        post: NonFungibleTokenBasic,
        owner_id: String,
        metadata: String,
        new_id: u64,
    ) -> bool {
        &&& new_id == pre.token_id + 1
        &&& post.token_id == new_id
        &&& post.token_to_data@ == pre.token_to_data@.push(
            (TokenData { owner_id, metadata, price: 0 }),
        )
        &&& post.account_to_proceeds == pre.account_to_proceeds
        &&& post.owner_id == pre.owner_id
    }

    /// Sets up a fresh ledger owned by `owner_id`. The platform supplies
    /// whether the identity passed its format validation and whether a
    /// ledger state already exists; initialization is refused in either
    /// abnormal case.
    pub fn new(owner_id: String, owner_id_is_valid: bool, state_exists: bool) -> (r: Result<
        NonFungibleTokenBasic,
        Error,
    >)
        ensures
            state_exists ==> r == Err::<NonFungibleTokenBasic, Error>(Error::AlreadyInitialized),
            !state_exists && !owner_id_is_valid ==> r == Err::<NonFungibleTokenBasic, Error>(
                Error::InvalidIdentity,
            ),
            r is Ok <==> !state_exists && owner_id_is_valid,
            r matches Ok(s) ==> s.wf() && s.owner_id == owner_id && s.token_id == 0
                && s.pubkey_minted@ =~= Seq::<QuotaEntry>::empty()
                && s.token_to_data@ =~= Seq::<TokenData>::empty()
                && s.account_to_proceeds@ =~= Seq::<ProceedsEntry>::empty(),
    {
        if state_exists {
            return Err(Error::AlreadyInitialized);
        }
        if !owner_id_is_valid {
            return Err(Error::InvalidIdentity);
        }
        Ok(
            NonFungibleTokenBasic {
                pubkey_minted: Vec::new(),
                token_to_data: Vec::new(),
                account_to_proceeds: Vec::new(),
                owner_id,
                token_id: 0,
            },
        )
    }

    /// The index at which the token with this id is stored, if it exists.
    fn token_index(&self, token_id: u64) -> (r: Option<usize>)
        ensures
            r matches Some(i) ==> self.has_token(token_id) && i as int == token_id - 1,
            r is None ==> !self.has_token(token_id),
    {
        if 1 <= token_id && token_id <= (self.token_to_data.len() as u64) {
            Some((token_id - 1) as usize)
        } else {
            None
        }
    }

    /// Moves the token to a new owner. Only the current owner (directly or
    /// through its key-derived implicit account) may transfer; the listing
    /// price is left unchanged.
    pub fn transfer(
        &mut self,
        signer_id: &String,
        signer_pk: &Vec<u8>,
        new_owner_id: String,
        token_id: u64,
    ) -> (r: Result<(), Error>)
        requires
            old(self).wf(),
            signer_pk@.len() >= 1,
        ensures
            final(self).wf(),
            r is Err ==> *final(self) == *old(self),
            !old(self).has_token(token_id) ==> r == Err::<(), Error>(Error::NotFound),
            old(self).has_token(token_id) && !is_authorized(
                signer_id@,
                signer_pk@,
                old(self).token_at(token_id).owner_id@,
            ) ==> r == Err::<(), Error>(Error::Unauthorized),
            r is Ok <==> old(self).has_token(token_id) && is_authorized(
                signer_id@,
                signer_pk@,
                old(self).token_at(token_id).owner_id@,
            ),
            r is Ok ==> Self::tokens_updated(
                *old(self),
                *final(self),
                token_id,
                (TokenData {
                    owner_id: new_owner_id,
                    metadata: old(self).token_at(token_id).metadata,
                    price: old(self).token_at(token_id).price,
                }),
            ),
    {
        let i = match self.token_index(token_id) {
            Some(i) => i,
            None => { return Err(Error::NotFound) },
        };
        match authorize_owner(signer_id, signer_pk, &self.token_to_data[i].owner_id) {
            Ok(()) => {},
            Err(e) => { return Err(e) },
        }
        let metadata = self.token_to_data[i].metadata.clone();
        let price = self.token_to_data[i].price;
        self.token_to_data[i] = TokenData { owner_id: new_owner_id, metadata, price };
        Ok(())
    }

    /// Lists the token at the given price, or delists it when the price is
    /// zero. Only the current owner (directly or through its key-derived
    /// implicit account) may change the price.
    pub fn set_price(
        &mut self,
        signer_id: &String,
        signer_pk: &Vec<u8>,
        token_id: u64,
        amount: u128,
    ) -> (r: Result<(), Error>)
        requires
            old(self).wf(),
            signer_pk@.len() >= 1,
        ensures
            final(self).wf(),
            r is Err ==> *final(self) == *old(self),
            !old(self).has_token(token_id) ==> r == Err::<(), Error>(Error::NotFound),
            old(self).has_token(token_id) && !is_authorized(
                signer_id@,
                signer_pk@,
                old(self).token_at(token_id).owner_id@,
            ) ==> r == Err::<(), Error>(Error::Unauthorized),
            r is Ok <==> old(self).has_token(token_id) && is_authorized(
                signer_id@,
                signer_pk@,
                old(self).token_at(token_id).owner_id@,
            ),
            r is Ok ==> Self::set_price_applied(*old(self), *final(self), token_id, amount),
    {
        let i = match self.token_index(token_id) {
            Some(i) => i,
            None => { return Err(Error::NotFound) },
        };
        match authorize_owner(signer_id, signer_pk, &self.token_to_data[i].owner_id) {
            Ok(()) => {},
            Err(e) => { return Err(e) },
        }
        let owner = self.token_to_data[i].owner_id.clone();
        let metadata = self.token_to_data[i].metadata.clone();
        self.token_to_data[i] = TokenData { owner_id: owner, metadata, price: amount };
        Ok(())
    }

    /// Buys a listed token: the attached amount must equal the listing
    /// price exactly; the price is credited to the seller's escrow balance
    /// and the token moves, delisted, to the new owner. Both effects happen
    /// together or not at all.
    pub fn purchase(&mut self, new_owner_id: String, token_id: u64, attached_deposit: u128) -> (r:
        Result<(), Error>)
        requires
            old(self).wf(),
            old(self).has_token(token_id) ==> old(self).proceeds_of(
                old(self).token_at(token_id).owner_id@,
            ) + attached_deposit <= u128::MAX,
        ensures
            final(self).wf(),
            r is Err ==> *final(self) == *old(self),
            !old(self).has_token(token_id) ==> r == Err::<(), Error>(Error::NotFound),
            old(self).has_token(token_id) && old(self).token_at(token_id).price == 0 ==> r == Err::<
                (),
                Error,
            >(Error::NotForSale),
            old(self).has_token(token_id) && old(self).token_at(token_id).price > 0
                && attached_deposit != old(self).token_at(token_id).price ==> r == Err::<(), Error>(
                Error::PriceMismatch,
            ),
            r is Ok <==> old(self).has_token(token_id) && old(self).token_at(token_id).price > 0
                && attached_deposit == old(self).token_at(token_id).price,
            r is Ok ==> ({
                let seller = old(self).token_at(token_id).owner_id@;
                &&& final(self).token_to_data@ == old(self).token_to_data@.update(
                    token_id - 1,
                    (TokenData {
                        owner_id: new_owner_id,
                        metadata: old(self).token_at(token_id).metadata,
                        price: 0,
                    }),
                )
                &&& final(self).proceeds_of(seller) == old(self).proceeds_of(seller)
                    + attached_deposit
                &&& forall|a: Seq<char>|
                    a != seller ==> final(self).proceeds_of(a) == old(self).proceeds_of(a)
                &&& final(self).escrow_total() == old(self).escrow_total() + attached_deposit
                &&& final(self).pubkey_minted == old(self).pubkey_minted
                &&& final(self).owner_id == old(self).owner_id
                &&& final(self).token_id == old(self).token_id
            }),
    {
        let i = match self.token_index(token_id) {
            Some(i) => i,
            None => { return Err(Error::NotFound) },
        };
        let price = self.token_to_data[i].price;
        if price == 0 {
            return Err(Error::NotForSale);
        }
        if attached_deposit != price {
            return Err(Error::PriceMismatch);
        }
        // Credit the sale proceeds to the seller's escrow balance.
        let seller = self.token_to_data[i].owner_id.clone();
        let ghost pre_entries = self.account_to_proceeds@;
        match proceeds_find(&self.account_to_proceeds, &seller) {
            Some(j) => {
                proof {
                    lemma_proceeds_found(pre_entries, seller@, j as int);
                }
                let updated = ProceedsEntry {
                    account: seller,
                    amount: self.account_to_proceeds[j].amount + attached_deposit,
                };
                self.account_to_proceeds[j] = updated;
                proof {
                    assert forall|a: Seq<char>|
                        escrow::proceeds_of(self.account_to_proceeds@, a) == (if a
                            == pre_entries[j as int].account@ {
                            updated.amount
                        } else {
                            escrow::proceeds_of(pre_entries, a)
                        }) by {
                        lemma_proceeds_update(pre_entries, j as int, updated, a);
                    }
                    lemma_escrow_total_update(pre_entries, j as int, updated);
                    assert forall|p: int, q: int|
                        0 <= p < q < self.account_to_proceeds@.len() implies self.account_to_proceeds@[p].account@
                        != self.account_to_proceeds@[q].account@ by {
                        assert(pre_entries[p].account@ != pre_entries[q].account@);
                    }
                }
            },
            None => {
                proof {
                    lemma_proceeds_absent(pre_entries, seller@);
                }
                let appended = ProceedsEntry { account: seller, amount: attached_deposit };
                self.account_to_proceeds.push(appended);
                proof {
                    assert forall|a: Seq<char>|
                        escrow::proceeds_of(self.account_to_proceeds@, a) == (if a
                            == appended.account@ {
                            appended.amount
                        } else {
                            escrow::proceeds_of(pre_entries, a)
                        }) by {
                        lemma_proceeds_push(pre_entries, appended, a);
                    }
                    lemma_escrow_total_push(pre_entries, appended);
                    assert forall|p: int, q: int|
                        0 <= p < q < self.account_to_proceeds@.len() implies self.account_to_proceeds@[p].account@
                        != self.account_to_proceeds@[q].account@ by {
                        if q < pre_entries.len() {
                            assert(pre_entries[p].account@ != pre_entries[q].account@);
                        }
                    }
                }
            },
        }
        // Move the token, delisted, to the buyer.
        let metadata = self.token_to_data[i].metadata.clone();
        self.token_to_data[i] = TokenData { owner_id: new_owner_id, metadata, price: 0 };
        Ok(())
    }

    /// Pays out an account's escrowed proceeds: the balance is captured and
    /// zeroed first, and the captured amount is returned for the caller to
    /// hand to the platform's payment channel, so that a later withdrawal
    /// can never observe a stale nonzero balance. Only the account's owner
    /// (directly or through its key-derived implicit account) may withdraw.
    pub fn withdraw(&mut self, signer_id: &String, signer_pk: &Vec<u8>, account_id: &String) -> (r:
        Result<u128, Error>)
        requires
            old(self).wf(),
            signer_pk@.len() >= 1,
        ensures
            final(self).wf(),
            r is Err ==> *final(self) == *old(self),
            !is_authorized(signer_id@, signer_pk@, account_id@) ==> r == Err::<u128, Error>(
                Error::Unauthorized,
            ),
            is_authorized(signer_id@, signer_pk@, account_id@) && old(self).proceeds_of(account_id@)
                == 0 ==> r == Err::<u128, Error>(Error::NothingToWithdraw),
            r is Ok <==> is_authorized(signer_id@, signer_pk@, account_id@) && old(self).proceeds_of(
                account_id@,
            ) > 0,
            r is Ok ==> ({
                &&& r == Ok::<u128, Error>(old(self).proceeds_of(account_id@))
                &&& final(self).proceeds_of(account_id@) == 0
                &&& forall|a: Seq<char>|
                    a != account_id@ ==> final(self).proceeds_of(a) == old(self).proceeds_of(a)
                &&& final(self).escrow_total() == old(self).escrow_total() - old(self).proceeds_of(
                    account_id@,
                )
                &&& final(self).pubkey_minted == old(self).pubkey_minted
                &&& final(self).token_to_data == old(self).token_to_data
                &&& final(self).owner_id == old(self).owner_id
                &&& final(self).token_id == old(self).token_id
            }),
    {
        match authorize_owner(signer_id, signer_pk, account_id) {
            Ok(()) => {},
            Err(e) => { return Err(e) },
        }
        let ghost pre_entries = self.account_to_proceeds@;
        let j = match proceeds_find(&self.account_to_proceeds, account_id) {
            Some(j) => j,
            None => {
                proof {
                    lemma_proceeds_absent(pre_entries, account_id@);
                }
                return Err(Error::NothingToWithdraw);
            },
        };
        proof {
            lemma_proceeds_found(pre_entries, account_id@, j as int);
        }
        let proceeds = self.account_to_proceeds[j].amount;
        if proceeds == 0 {
            return Err(Error::NothingToWithdraw);
        }
        // Zero the balance before the payment is dispatched.
        let zeroed = ProceedsEntry { account: self.account_to_proceeds[j].account.clone(), amount: 0 };
        self.account_to_proceeds[j] = zeroed;
        proof {
            assert forall|a: Seq<char>|
                escrow::proceeds_of(self.account_to_proceeds@, a) == (if a
                    == pre_entries[j as int].account@ {
                    0u128
                } else {
                    escrow::proceeds_of(pre_entries, a)
                }) by {
                lemma_proceeds_update(pre_entries, j as int, zeroed, a);
            }
            lemma_escrow_total_update(pre_entries, j as int, zeroed);
            assert forall|p: int, q: int|
                0 <= p < q < self.account_to_proceeds@.len() implies self.account_to_proceeds@[p].account@
                != self.account_to_proceeds@[q].account@ by {
                assert(pre_entries[p].account@ != pre_entries[q].account@);
            }
        }
        Ok(proceeds)
    }

    /// A quota-gated mint performed by the contract owner as a relay: the
    /// quota is consumed by the relaying caller's signing key, and the
    /// fresh token is owned by `owner_id`.
    pub fn guest_mint(
        &mut self,
        signer_id: &String,
        signer_pk: &Vec<u8>,
        owner_id: String,
        metadata: String,
    ) -> (r: Result<u64, Error>)
        requires
            old(self).wf(),
            old(self).token_id < u64::MAX,
        ensures
            final(self).wf(),
            r is Err ==> *final(self) == *old(self),
            signer_id@ != old(self).owner_id@ ==> r == Err::<u64, Error>(Error::Unauthorized),
            signer_id@ == old(self).owner_id@ && old(self).minted_of(signer_pk@)
                >= GUEST_MINT_LIMIT ==> r == Err::<u64, Error>(Error::QuotaExceeded),
            r is Ok <==> signer_id@ == old(self).owner_id@ && old(self).minted_of(signer_pk@)
                < GUEST_MINT_LIMIT,
            r matches Ok(id) ==> ({
                &&& id == old(self).token_id + 1
                &&& Self::mint_applied(*old(self), *final(self), owner_id, metadata, id)
                &&& final(self).minted_of(signer_pk@) == old(self).minted_of(signer_pk@) + 1
                &&& forall|k: Seq<u8>|
                    k != signer_pk@ ==> final(self).minted_of(k) == old(self).minted_of(k)
            }),
    {
        match authorize_contract_owner(signer_id, &self.owner_id) {
            Ok(()) => {},
            Err(e) => { return Err(e) },
        }
        let ghost pre_quota = self.pubkey_minted@;
        let found = quota_find(&self.pubkey_minted, signer_pk);
        let current: u8 = match found {
            Some(j) => self.pubkey_minted[j].count,
            None => 0,
        };
        proof {
            match found {
                Some(j) => lemma_quota_count_found(pre_quota, signer_pk@, j as int),
                None => lemma_quota_count_absent(pre_quota, signer_pk@),
            }
        }
        if current >= GUEST_MINT_LIMIT {
            return Err(Error::QuotaExceeded);
        }
        let num_minted = current + 1;
        match found {
            Some(j) => {
                let consumed = QuotaEntry { key: copy_key(signer_pk), count: num_minted };
                self.pubkey_minted[j] = consumed;
                proof {
                    assert forall|k: Seq<u8>|
                        quota::quota_count(self.pubkey_minted@, k) == (if k
                            == pre_quota[j as int].key@ {
                            num_minted
                        } else {
                            quota::quota_count(pre_quota, k)
                        }) by {
                        lemma_quota_count_update(pre_quota, j as int, consumed, k);
                    }
                    assert forall|p: int, q: int|
                        0 <= p < q < self.pubkey_minted@.len() implies self.pubkey_minted@[p].key@
                        != self.pubkey_minted@[q].key@ by {
                        assert(pre_quota[p].key@ != pre_quota[q].key@);
                    }
                }
            },
            None => {
                let consumed = QuotaEntry { key: copy_key(signer_pk), count: num_minted };
                self.pubkey_minted.push(consumed);
                proof {
                    assert forall|k: Seq<u8>|
                        quota::quota_count(self.pubkey_minted@, k) == (if k == consumed.key@ {
                            num_minted
                        } else {
                            quota::quota_count(pre_quota, k)
                        }) by {
                        lemma_quota_count_push(pre_quota, consumed, k);
                    }
                    assert forall|p: int, q: int|
                        0 <= p < q < self.pubkey_minted@.len() implies self.pubkey_minted@[p].key@
                        != self.pubkey_minted@[q].key@ by {
                        if q < pre_quota.len() {
                            assert(pre_quota[p].key@ != pre_quota[q].key@);
                        }
                    }
                }
            },
        }
        match self.mint(owner_id, metadata) {
            Ok(id) => Ok(id),
            Err(e) => Err(e),
        }
    }

    /// A paid mint: the attached amount must equal the fixed mint fee
    /// exactly; the fresh token is owned by `owner_id`.
    pub fn mint_token(&mut self, owner_id: String, metadata: String, attached_deposit: u128) -> (r:
        Result<u64, Error>)
        requires
            old(self).wf(),
            old(self).token_id < u64::MAX,
        ensures
            final(self).wf(),
            r is Err ==> *final(self) == *old(self),
            attached_deposit != MINT_FEE ==> r == Err::<u64, Error>(Error::PriceMismatch),
            r is Ok <==> attached_deposit == MINT_FEE,
            r matches Ok(id) ==> id == old(self).token_id + 1 && Self::mint_applied(
                *old(self),
                *final(self),
                owner_id,
                metadata,
                id,
            ) && final(self).pubkey_minted == old(self).pubkey_minted,
    {
        if attached_deposit != MINT_FEE {
            return Err(Error::PriceMismatch);
        }
        match self.mint(owner_id, metadata) {
            Ok(id) => Ok(id),
            Err(e) => Err(e),
        }
    }

    /// Assigns the next id and stores a fresh unlisted token. The collision
    /// check is defensive: the ensures show it can never fire while the id
    /// counter equals the number of stored tokens.
    fn mint(&mut self, owner_id: String, metadata: String) -> (r: Result<u64, Error>)
        requires
            old(self).wf(),
            old(self).token_id < u64::MAX,
        ensures
            final(self).wf(),
            r is Ok,
            r matches Ok(id) ==> id == old(self).token_id + 1 && Self::mint_applied(
                *old(self),
                *final(self),
                owner_id,
                metadata,
                id,
            ) && final(self).pubkey_minted == old(self).pubkey_minted,
    {
        let next = self.token_id + 1;
        if next <= (self.token_to_data.len() as u64) {
            return Err(Error::Collision);
        }
        self.token_id = next;
        self.token_to_data.push(TokenData { owner_id, metadata, price: 0 });
        Ok(next)
    }

    /// The consumed guest-mint count of a public key; zero for a key that
    /// never minted.
    pub fn get_pubkey_minted(&self, pubkey: &Vec<u8>) -> (r: u8)
        ensures
            r == self.minted_of(pubkey@),
    {
        match quota_find(&self.pubkey_minted, pubkey) {
            Some(j) => {
                proof {
                    lemma_quota_count_found(self.pubkey_minted@, pubkey@, j as int);
                }
                self.pubkey_minted[j].count
            },
            None => {
                proof {
                    lemma_quota_count_absent(self.pubkey_minted@, pubkey@);
                }
                0
            },
        }
    }

    /// The escrowed balance of an account; zero for an account that never
    /// sold.
    pub fn get_proceeds(&self, owner_id: &String) -> (r: u128)
        ensures
            r == self.proceeds_of(owner_id@),
    {
        match proceeds_find(&self.account_to_proceeds, owner_id) {
            Some(j) => {
                proof {
                    lemma_proceeds_found(self.account_to_proceeds@, owner_id@, j as int);
                }
                self.account_to_proceeds[j].amount
            },
            None => {
                proof {
                    lemma_proceeds_absent(self.account_to_proceeds@, owner_id@);
                }
                0
            },
        }
    }

    /// A copy of the record of the token with this id; fails `NotFound` for
    /// an id that was never assigned.
    pub fn get_token_data(&self, token_id: u64) -> (r: Result<TokenData, Error>)
        ensures
            !self.has_token(token_id) ==> r == Err::<TokenData, Error>(Error::NotFound),
            r is Ok <==> self.has_token(token_id),
            r matches Ok(t) ==> t == self.token_at(token_id),
    {
        match self.token_index(token_id) {
            Some(i) => {
                let entry = &self.token_to_data[i];
                Ok(
                    TokenData {
                        owner_id: entry.owner_id.clone(),
                        metadata: entry.metadata.clone(),
                        price: entry.price,
                    },
                )
            },
            None => Err(Error::NotFound),
        }
    }

    /// The listing price of the token with this id (zero when unlisted);
    /// fails `NotFound` for an id that was never assigned.
    pub fn get_price(&self, token_id: u64) -> (r: Result<u128, Error>)
        ensures
            !self.has_token(token_id) ==> r == Err::<u128, Error>(Error::NotFound),
            r is Ok <==> self.has_token(token_id),
            r matches Ok(p) ==> p == self.token_at(token_id).price,
    {
        match self.token_index(token_id) {
            Some(i) => Ok(self.token_to_data[i].price),
            None => Err(Error::NotFound),
        }
    }

    /// The current owner of the token with this id; fails `NotFound` for an
    /// id that was never assigned.
    pub fn get_token_owner(&self, token_id: u64) -> (r: Result<String, Error>)
        ensures
            !self.has_token(token_id) ==> r == Err::<String, Error>(Error::NotFound),
            r is Ok <==> self.has_token(token_id),
            r matches Ok(owner) ==> owner == self.token_at(token_id).owner_id,
    {
        match self.token_index(token_id) {
            Some(i) => Ok(self.token_to_data[i].owner_id.clone()),
            None => Err(Error::NotFound),
        }
    }

    /// The value of the id counter: the id most recently assigned, and the
    /// number of tokens minted so far.
    pub fn get_num_tokens(&self) -> (r: u64)
        ensures
            r == self.token_id,
    {
        self.token_id
    }
}

/// A fresh copy of a public key's bytes.
fn copy_key(key: &Vec<u8>) -> (r: Vec<u8>)
    ensures
        r@ == key@,
{
    let mut out: Vec<u8> = Vec::new();
    let mut i: usize = 0;
    while i < key.len()
        invariant
            0 <= i <= key@.len(),
            out@ == key@.subrange(0, i as int),
        decreases key@.len() - i,
    {
        out.push(key[i]);
        proof {
            assert(out@ =~= key@.subrange(0, i + 1 as int));
        }
        i = i + 1;
    }
    proof {
        assert(out@ =~= key@);
    }
    out
}

} // verus!
