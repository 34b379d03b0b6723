//! The minting engine and the index allocator: eligibility checks, payment
//! validation, sequential index allocation, reference construction, and the
//! per-unit settlement description handed back to the runtime.
//!
//! Minting validates every precondition before it touches the state, so a
//! refused call leaves the contract exactly as it was; a settled call
//! allocates its indexes, updates the caller's counter, and re-evaluates the
//! supply so the contract pauses itself the moment the current scope is
//! exhausted.

use vstd::prelude::*;

use crate::builder::spec_attributes;
use crate::builder::spec_gateway_uri;
use crate::builder::spec_scheme_uri;
use crate::errors::ContractError;
use crate::contract::ElvenTools;
use crate::state::ContractState;
use crate::state::IssuanceStatus;

verus! {

broadcast use vstd::std_specs::hash::group_hash_axioms;

/// One freshly minted unit, described as plain values: everything the
/// runtime needs to create the unit on chain (royalties, attribute buffer
/// to hash, image references), transfer it to `receiver`, and forward
/// `payment_to_owner` of native currency to the contract owner (nothing is
/// forwarded when it is zero).
#[derive(Debug)]
pub struct MintedUnit {
    /// The allocated sequence index of the unit.
    pub index: u64,
    /// The serialized attribute buffer; its digest becomes the on-chain attribute hash.
    pub attributes: Vec<u8>,
    /// The gateway-resolvable image URI.
    pub gateway_uri: Vec<u8>,
    /// The content-addressed scheme image URI.
    pub scheme_uri: Vec<u8>,
    /// The wallet the unit is transferred to.
    pub receiver: u64,
    /// Royalties of the collection, in basis points.
    pub royalties: u32,
    /// Native currency owed to the contract owner for this unit.
    pub payment_to_owner: u128,
}

/// A requested count below one is coerced up to one: a request for zero
/// units still mints exactly one.
pub open spec fn coerced_count(requested: u32) -> u32 {
    if requested < 1 {
        1
    } else {
        requested
    }
}

/// The count a mint call works with: the requested count coerced up to one,
/// or one when no count was requested.
pub open spec fn requested_mint_count(token_amount: Option<u32>) -> u32 {
    match token_amount {
        Option::Some(c) => coerced_count(c),
        Option::None => 1,
    }
}

/// The wallet a minted unit goes to: the explicit giveaway target when one
/// is given and nonzero, the caller otherwise.
pub open spec fn receiver_of(caller: u64, giveaway_address: Option<u64>) -> u64 {
    match giveaway_address {
        Option::Some(a) => if a == 0 {
            caller
        } else {
            a
        },
        Option::None => caller,
    }
}

/// The `count` indexes a settled call allocates, in order: the next index
/// and its successors.
pub open spec fn allocated(next: u64, count: int) -> Seq<u64> {
    Seq::new(count as nat, |k: int| (next + k) as u64)
}

/// Why `mint` refuses on state `s` with these arguments, or `None` when it
/// settles. The checks apply in this order, each seeing the untouched state.
///
/// An allocation that would run the index counter past its machine bound is
/// refused as exhausted supply; it is unreachable while the configured caps
/// are respected.
pub open spec fn mint_refusal(
    s: ContractState,
    caller: u64,
    payment_amount: u128,
    token_amount: Option<u32>,
    has_create_role: bool,
) -> Option<ContractError> {
    let count = requested_mint_count(token_amount) as int;
    if s.paused {
        Some(ContractError::MintingPaused)
    } else if s.issuance_status != IssuanceStatus::Issued {
        Some(ContractError::TokenNotIssued)
    } else if !has_create_role {
        Some(ContractError::RoleMissing)
    } else if s.spec_remaining() < count || s.next_index_to_mint + count > u64::MAX {
        Some(ContractError::SupplyExhausted)
    } else if s.counter_of(caller) + count > s.tokens_limit_per_address {
        Some(ContractError::PerAddressLimitExceeded)
    } else if payment_amount != count * s.selling_price {
        Some(ContractError::InvalidPayment)
    } else {
        None
    }
}

/// Why `giveaway` refuses on state `s`, or `None` when it settles. The
/// owner-only gate is the runtime's; the pause flag, the payment, and the
/// per-address cap are not consulted.
pub open spec fn giveaway_refusal(
    s: ContractState,
    amount_of_tokens: u32,
    has_create_role: bool,
) -> Option<ContractError> {
    let count = coerced_count(amount_of_tokens) as int;
    if s.issuance_status != IssuanceStatus::Issued {
        Some(ContractError::TokenNotIssued)
    } else if !has_create_role {
        Some(ContractError::RoleMissing)
    } else if s.spec_remaining() < count || s.next_index_to_mint + count > u64::MAX {
        Some(ContractError::SupplyExhausted)
    } else {
        None
    }
}

/// One minted unit is exactly what the state `pre` owes the `k`-th unit of
/// a settled call: the `k`-th fresh index, the references derived from the
/// stored configuration and that index, the agreed receiver and payment.
pub open spec fn unit_matches(
    u: MintedUnit,
    pre: ContractState,
    k: int,
    receiver: u64,
    payment: u128,
) -> bool {
    &&& u.index as int == pre.next_index_to_mint + k
    &&& u.attributes@ == spec_attributes(
        pre.tags@,
        pre.metadata_base_cid@,
        (pre.next_index_to_mint + k) as nat,
    )
    &&& u.gateway_uri@ == spec_gateway_uri(
        pre.image_base_cid@,
        pre.file_extension@,
        (pre.next_index_to_mint + k) as nat,
    )
    &&& u.scheme_uri@ == spec_scheme_uri(
        pre.image_base_cid@,
        pre.file_extension@,
        (pre.next_index_to_mint + k) as nat,
    )
    &&& u.receiver == receiver
    &&& u.royalties == pre.royalties
    &&& u.payment_to_owner == payment
}

/// Everything a settled mint or giveaway of `count` units does to the
/// state, and everything its returned units hold: the fresh indexes enter
/// the global set (and the drop set while a drop is active), the counter of
/// `counter_wallet` grows by `count`, the supply is re-evaluated so the
/// contract is paused afterwards exactly if it was paused before or the
/// current scope is now exhausted, and nothing else changes.
pub open spec fn mint_effects(
    pre: ContractState,
    post: ContractState,
    units: Seq<MintedUnit>,
    counter_wallet: u64,
    receiver: u64,
    per_unit_payment: u128,
    count: int,
) -> bool {
    &&& post.minted_indexes@ == pre.minted_indexes@ + allocated(pre.next_index_to_mint, count)
    &&& post.minted_indexes_by_drop@ == (if pre.drop_active() {
        pre.minted_indexes_by_drop@ + allocated(pre.next_index_to_mint, count)
    } else {
        pre.minted_indexes_by_drop@
    })
    &&& post.next_index_to_mint == pre.next_index_to_mint + count
    &&& post.minted_per_address@ == pre.minted_per_address@.insert(
        counter_wallet,
        (pre.counter_of(counter_wallet) + count) as u64,
    )
    &&& post.paused == (pre.paused || post.spec_remaining() == 0)
    &&& ContractState::same_config(pre, post)
    &&& ContractState::same_identity(pre, post)
    &&& post.selling_price == pre.selling_price
    &&& post.amount_of_tokens_per_drop == pre.amount_of_tokens_per_drop
    &&& units.len() == count
    &&& forall|k: int|
        0 <= k < count ==> unit_matches(#[trigger] units[k], pre, k, receiver, per_unit_payment)
}

impl ContractState {
    /// The shared per-unit loop of minting and giveaway: mints `count`
    /// units in index order, all alike but for their indexes.
    pub(crate) fn mint_loop(
        &mut self,
        caller: u64,
        payment_amount: u128,
        giveaway_address: Option<u64>,
        count: u32,
    ) -> (units: Vec<MintedUnit>)
        requires
            old(self).wf(),
            count >= 1,
            old(self).next_index_to_mint + count <= u64::MAX,
            old(self).spec_remaining() >= count,
        ensures
            final(self).wf(),
            final(self).minted_indexes@ == old(self).minted_indexes@ + allocated(
                old(self).next_index_to_mint,
                count as int,
            ),
            final(self).minted_indexes_by_drop@ == (if old(self).drop_active() {
                old(self).minted_indexes_by_drop@ + allocated(
                    old(self).next_index_to_mint,
                    count as int,
                )
            } else {
                old(self).minted_indexes_by_drop@
            }),
            final(self).next_index_to_mint == old(self).next_index_to_mint + count,
            final(self).minted_per_address@ == old(self).minted_per_address@.insert(
                caller,
                (old(self).counter_of(caller) + count) as u64,
            ),
            ContractState::same_config(*old(self), *final(self)),
            ContractState::same_identity(*old(self), *final(self)),
            final(self).paused == old(self).paused,
            final(self).selling_price == old(self).selling_price,
            final(self).amount_of_tokens_per_drop == old(self).amount_of_tokens_per_drop,
            final(self).spec_remaining() == old(self).spec_remaining() - count,
            units@.len() == count,
            forall|k: int|
                0 <= k < count ==> unit_matches(
                    #[trigger] units@[k],
                    *old(self),
                    k,
                    receiver_of(caller, giveaway_address),
                    payment_amount,
                ),
    {
        let ghost pre = *self;
        let mut units: Vec<MintedUnit> = Vec::new();
        let mut k: u32 = 0;
        while k < count
            invariant
                pre.wf(),
                self.wf(),
                k <= count,
                count >= 1,
                pre.next_index_to_mint + count <= u64::MAX,
                pre.spec_remaining() >= count,
                self.next_index_to_mint == pre.next_index_to_mint + k,
                self.minted_indexes@ == pre.minted_indexes@ + allocated(
                    pre.next_index_to_mint,
                    k as int,
                ),
                self.minted_indexes_by_drop@ == (if pre.drop_active() {
                    pre.minted_indexes_by_drop@ + allocated(pre.next_index_to_mint, k as int)
                } else {
                    pre.minted_indexes_by_drop@
                }),
                self.minted_per_address@ == (if k == 0 {
                    pre.minted_per_address@
                } else {
                    pre.minted_per_address@.insert(caller, (pre.counter_of(caller) + k) as u64)
                }),
                ContractState::same_config(pre, *self),
                ContractState::same_identity(pre, *self),
                self.paused == pre.paused,
                self.selling_price == pre.selling_price,
                self.amount_of_tokens_per_drop == pre.amount_of_tokens_per_drop,
                units@.len() == k,
                forall|j: int|
                    0 <= j < k ==> unit_matches(
                        #[trigger] units@[j],
                        pre,
                        j,
                        receiver_of(caller, giveaway_address),
                        payment_amount,
                    ),
            decreases count - k,
        {
            proof {
                if pre.drop_active() {
                    assert(self.spec_drop_left() == pre.spec_drop_left() - k);
                }
            }
            let ghost mid = *self;
            let unit = self.mint_single_nft(caller, payment_amount, giveaway_address);
            units.push(unit);
            proof {
                assert(self.minted_indexes@ =~= pre.minted_indexes@ + allocated(
                    pre.next_index_to_mint,
                    k as int + 1,
                ));
                if pre.drop_active() {
                    assert(self.minted_indexes_by_drop@ =~= pre.minted_indexes_by_drop@
                        + allocated(pre.next_index_to_mint, k as int + 1));
                }
                assert(mid.counter_of(caller) == pre.counter_of(caller) + k);
                assert(self.minted_per_address@ =~= pre.minted_per_address@.insert(
                    caller,
                    (pre.counter_of(caller) + k + 1) as u64,
                ));
            }
            k += 1;
        }
        proof {
            if pre.drop_active() {
                assert(self.spec_drop_left() == pre.spec_drop_left() - count);
            } else {
                assert(self.spec_total_left() == pre.spec_total_left() - count);
            }
        }
        units
    }
}

} // verus!
