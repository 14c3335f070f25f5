//! Ledger-wide laws, stated over the same spec functions that the
//! operations' contracts use.
use vstd::prelude::*;

use crate::account::is_authorized;
use crate::ledger::{NonFungibleTokenBasic, TokenData};
use crate::quota;
use crate::GUEST_MINT_LIMIT;

verus! {

/// A freshly minted token carries an id strictly greater than every id
/// already assigned, is owned by the supplied owner, is unlisted, and
/// leaves every existing token untouched.
pub proof fn lemma_minted_token_fresh(
    pre: NonFungibleTokenBasic,
    post: NonFungibleTokenBasic,
    owner_id: String,
    metadata: String,
    new_id: u64,
)
    requires
        pre.wf(),
        NonFungibleTokenBasic::mint_applied(pre, post, owner_id, metadata, new_id),
    ensures
        post.has_token(new_id),
        post.token_at(new_id).owner_id == owner_id,
        post.token_at(new_id).price == 0,
        forall|id: u64| pre.has_token(id) ==> new_id > id,
        forall|id: u64| pre.has_token(id) ==> post.token_at(id) == pre.token_at(id),
{
}

/// Across two successive mints the returned ids strictly increase.
pub proof fn lemma_mint_ids_strictly_increase(
    s0: NonFungibleTokenBasic,
    s1: NonFungibleTokenBasic,
    s2: NonFungibleTokenBasic,
    owner1: String,
    metadata1: String,
    id1: u64,
    owner2: String,
    metadata2: String,
    id2: u64,
)
    requires
        NonFungibleTokenBasic::mint_applied(s0, s1, owner1, metadata1, id1),
        NonFungibleTokenBasic::mint_applied(s1, s2, owner2, metadata2, id2),
    ensures
        id2 > id1,
{
}

/// Delisting is idempotent: after a price was set to zero, a further
/// authorized zero-price call is again permitted and leaves the token
/// store exactly as it is.
pub proof fn lemma_set_price_zero_idempotent(
    pre: NonFungibleTokenBasic,
    mid: NonFungibleTokenBasic,
    signer_id: Seq<char>,
    signer_pk: Seq<u8>,
    token_id: u64,
)
    requires
        pre.wf(),
        pre.has_token(token_id),
        is_authorized(signer_id, signer_pk, pre.token_at(token_id).owner_id@),
        NonFungibleTokenBasic::set_price_applied(pre, mid, token_id, 0),
    ensures
        mid.has_token(token_id),
        mid.token_at(token_id).price == 0,
        is_authorized(signer_id, signer_pk, mid.token_at(token_id).owner_id@),
        forall|post: NonFungibleTokenBasic|
            NonFungibleTokenBasic::set_price_applied(mid, post, token_id, 0)
                ==> post.token_to_data@ == mid.token_to_data@,
{
    assert forall|post: NonFungibleTokenBasic|
        NonFungibleTokenBasic::set_price_applied(mid, post, token_id, 0) implies post.token_to_data@
        == mid.token_to_data@ by {
        let again = TokenData {
            owner_id: mid.token_at(token_id).owner_id,
            metadata: mid.token_at(token_id).metadata,
            price: 0,
        };
        assert(again == mid.token_at(token_id));
        assert(post.token_to_data@ =~= mid.token_to_data@);
    }
}

/// A registry update — a transfer or a price change — moves no escrow
/// balance: every account's balance, and the sum of all balances, is
/// exactly what it was.
pub proof fn lemma_registry_update_preserves_escrow(
    pre: NonFungibleTokenBasic,
    post: NonFungibleTokenBasic,
    token_id: u64,
    entry: TokenData,
)
    requires
        NonFungibleTokenBasic::tokens_updated(pre, post, token_id, entry),
    ensures
        post.escrow_total() == pre.escrow_total(),
        forall|a: Seq<char>| post.proceeds_of(a) == pre.proceeds_of(a),
{
}

/// A mint moves no escrow balance: every account's balance, and the sum of
/// all balances, is exactly what it was.
pub proof fn lemma_mint_preserves_escrow(
    pre: NonFungibleTokenBasic,
    post: NonFungibleTokenBasic,
    owner_id: String,
    metadata: String,
    new_id: u64,
)
    requires
        NonFungibleTokenBasic::mint_applied(pre, post, owner_id, metadata, new_id),
    ensures
        post.escrow_total() == pre.escrow_total(),
        forall|a: Seq<char>| post.proceeds_of(a) == pre.proceeds_of(a),
{
}

/// The stored guest-mint count of a key never exceeds the limit.
pub proof fn lemma_quota_within_limit(s: NonFungibleTokenBasic, key: Seq<u8>)
    requires
        s.wf(),
    ensures
        s.minted_of(key) <= GUEST_MINT_LIMIT,
{
    quota::lemma_quota_count_bounded(s.pubkey_minted@, key, GUEST_MINT_LIMIT);
}

} // verus!
