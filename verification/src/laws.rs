//! The supply and cap laws of the contract, stated and proved once over
//! the state model that every operation's contract speaks of.

use vstd::prelude::*;

use crate::builder::spec_attributes;
use crate::builder::spec_gateway_uri;
use crate::builder::spec_scheme_uri;
use crate::minting::coerced_count;
use crate::minting::giveaway_refusal;
use crate::minting::mint_refusal;
use crate::minting::requested_mint_count;
use crate::state::ContractState;

verus! {

/// Every wallet's mint counter is within the per-address limit.
///
/// Public minting preserves this (see `lemma_mint_preserves_address_limit`);
/// the owner giveaway, which skips the per-address check by design, can
/// break it for the owner's own wallet.
pub open spec fn counters_within_limit(s: ContractState) -> bool {
    forall|w: u64|
        s.minted_per_address@.contains_key(w) ==> #[trigger] s.minted_per_address@[w]
            <= s.tokens_limit_per_address
}

/// Global supply accounting: while the minted set has not outgrown the
/// configured total — which holds in every state reachable without a drop
/// capped beyond the remaining global supply — the tokens still mintable
/// and the minted indexes sum exactly to the total token amount.
pub proof fn lemma_total_supply_accounting(s: ContractState)
    requires
        s.wf(),
        s.minted_indexes@.len() <= s.amount_of_tokens,
    ensures
        s.spec_total_left() + s.minted_indexes@.len() == s.amount_of_tokens,
        s.spec_total_left() >= 0,
{
}

/// Drop supply accounting: while a drop is active, the tokens still
/// mintable within it and the indexes minted within it sum exactly to the
/// drop cap.
pub proof fn lemma_drop_supply_accounting(s: ContractState)
    requires
        s.wf(),
        s.drop_active(),
    ensures
        s.spec_drop_left() + s.minted_indexes_by_drop@.len() == s.amount_of_tokens_per_drop,
        s.spec_drop_left() >= 0,
{
}

/// No index is ever present twice in the global minted set: allocation is
/// strictly sequential from one, and the set is never cleared, so in every
/// well-formed state the recorded indexes are pairwise distinct.
pub proof fn lemma_minted_indexes_unique(s: ContractState)
    requires
        s.wf(),
    ensures
        forall|i: int, j: int|
            0 <= i < j < s.minted_indexes@.len() ==> #[trigger] s.minted_indexes@[i]
                != #[trigger] s.minted_indexes@[j],
{
    assert forall|i: int, j: int| 0 <= i < j < s.minted_indexes@.len() implies #[trigger] s
        .minted_indexes@[i] != #[trigger] s.minted_indexes@[j] by {
        assert(s.minted_indexes@[i] as int == i + 1);
        assert(s.minted_indexes@[j] as int == j + 1);
    }
}

/// A settled public mint keeps every wallet's counter within the
/// per-address limit: the caller's counter grows by the settled count,
/// which the per-address check bounded, and no other counter moves.
pub proof fn lemma_mint_preserves_address_limit(
    pre: ContractState,
    post: ContractState,
    caller: u64,
    count: u32,
)
    requires
        counters_within_limit(pre),
        pre.counter_of(caller) + count <= pre.tokens_limit_per_address,
        post.minted_per_address@ == pre.minted_per_address@.insert(
            caller,
            (pre.counter_of(caller) + count) as u64,
        ),
        post.tokens_limit_per_address == pre.tokens_limit_per_address,
    ensures
        counters_within_limit(post),
{
    assert forall|w: u64| post.minted_per_address@.contains_key(w) implies #[trigger] post
        .minted_per_address@[w] <= post.tokens_limit_per_address by {
        if w != caller {
            assert(pre.minted_per_address@.contains_key(w));
        }
    }
}

/// Once the supply of the current scope is exhausted, every further mint
/// and every further giveaway is refused, whatever its arguments.
pub proof fn lemma_exhausted_supply_rejects(
    s: ContractState,
    caller: u64,
    payment_amount: u128,
    token_amount: Option<u32>,
    amount_of_tokens: u32,
    has_create_role: bool,
)
    requires
        s.spec_remaining() <= 0,
    ensures
        mint_refusal(s, caller, payment_amount, token_amount, has_create_role) is Some,
        giveaway_refusal(s, amount_of_tokens, has_create_role) is Some,
{
    assert(requested_mint_count(token_amount) >= 1);
    assert(coerced_count(amount_of_tokens) >= 1);
}

/// The reference builder is a pure function of the stored configuration
/// and the index: two states agreeing on the configuration derive
/// byte-identical attribute buffers and image references for every index.
pub proof fn lemma_reference_builder_deterministic(a: ContractState, b: ContractState, index: nat)
    requires
        a.tags@ == b.tags@,
        a.metadata_base_cid@ == b.metadata_base_cid@,
        a.image_base_cid@ == b.image_base_cid@,
        a.file_extension@ == b.file_extension@,
    ensures
        spec_attributes(a.tags@, a.metadata_base_cid@, index) == spec_attributes(
            b.tags@,
            b.metadata_base_cid@,
            index,
        ),
        spec_gateway_uri(a.image_base_cid@, a.file_extension@, index) == spec_gateway_uri(
            b.image_base_cid@,
            b.file_extension@,
            index,
        ),
        spec_scheme_uri(a.image_base_cid@, a.file_extension@, index) == spec_scheme_uri(
            b.image_base_cid@,
            b.file_extension@,
            index,
        ),
{
}

} // verus!
