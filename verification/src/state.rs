//! The contract state and its store: every persistent cell and set of the
//! collection, as one explicit value threaded through the operations.
//!
//! Access control and persistence are the host runtime's: it keeps one
//! `ElvenTools` value per deployed instance, executes each call to
//! completion before the next, discards the state of a call that fails, and
//! rejects calls to owner-only operations from anyone but the owner before
//! they reach this library.

use vstd::prelude::*;

use std::collections::HashMap;

verus! {

broadcast use vstd::std_specs::hash::group_hash_axioms;

/// Progress of the one-time token-class issuance.
///
/// The issuance request is an asynchronous sub-call: dispatching it moves
/// the contract to `Pending`, and the runtime later delivers the outcome to
/// the callback, which moves it to `Issued` on success and back to
/// `NotIssued` on failure.
#[derive(Clone, Copy, Debug, PartialEq, Eq, Structural)]
pub enum IssuanceStatus {
    NotIssued,
    Pending,
    Issued,
}

/// The royalties ceiling: 100% in basis points.
pub const ROYALTIES_MAX: u32 = 10_000;

/// The full persistent state of one deployed collection minter.
#[derive(Debug)]
pub struct ContractState {
    /// Content identifier under which the item images are stored. Immutable after deployment.
    pub image_base_cid: Vec<u8>,
    /// Content identifier under which the item metadata files are stored. Immutable after deployment.
    pub metadata_base_cid: Vec<u8>,
    /// Extension of the image files, `.png` when deployment supplied none. Immutable after deployment.
    pub file_extension: Vec<u8>,
    /// Free-form tag buffer serialized into every item's attributes. Immutable after deployment.
    pub tags: Vec<u8>,
    /// Provenance hash of the collection, possibly empty. Immutable after deployment.
    pub provenance_hash: Vec<u8>,
    /// Royalties of the token class, in basis points (at most [`ROYALTIES_MAX`]). Immutable after deployment.
    pub royalties: u32,
    /// Total number of units the collection can ever hold. Immutable after deployment.
    pub amount_of_tokens: u32,
    /// Cap on the units any single wallet may mint. Immutable after deployment.
    pub tokens_limit_per_address: u32,

    /// Handle of the issued token class; absent until issuance succeeds, set at most once.
    pub nft_token_id: Option<Vec<u8>>,
    /// Display name of the token class.
    pub nft_token_name: Vec<u8>,
    /// Where the one-time issuance stands.
    pub issuance_status: IssuanceStatus,

    /// While set, public minting is refused.
    pub paused: bool,
    /// Price of one unit, in the native currency's smallest denomination.
    pub selling_price: u128,
    /// The index the next minted unit will receive; starts at 1 and only grows.
    pub next_index_to_mint: u64,
    /// Every index ever allocated, in allocation order; never cleared.
    pub minted_indexes: Vec<u64>,
    /// The indexes allocated within the current drop; cleared whenever a drop is set or unset.
    pub minted_indexes_by_drop: Vec<u64>,
    /// Cap of the current drop; zero when no drop is active.
    pub amount_of_tokens_per_drop: u32,
    /// How many units each wallet has minted.
    pub minted_per_address: HashMap<u64, u64>,
}

impl ContractState {
    /// A drop is active exactly while its cap is nonzero.
    pub open spec fn drop_active(self) -> bool {
        self.amount_of_tokens_per_drop > 0
    }

    /// Units still mintable against the global supply.
    pub open spec fn spec_total_left(self) -> int {
        self.amount_of_tokens - self.minted_indexes@.len()
    }

    /// Units still mintable within the current drop.
    pub open spec fn spec_drop_left(self) -> int {
        self.amount_of_tokens_per_drop - self.minted_indexes_by_drop@.len()
    }

    /// Units still mintable right now: scoped to the drop while one is
    /// active, to the global supply otherwise.
    pub open spec fn spec_remaining(self) -> int {
        if self.drop_active() {
            self.spec_drop_left()
        } else {
            self.spec_total_left()
        }
    }

    /// How many units wallet `w` has minted; zero for a wallet never seen.
    pub open spec fn counter_of(self, w: u64) -> u64 {
        if self.minted_per_address@.contains_key(w) {
            self.minted_per_address@[w]
        } else {
            0
        }
    }

    /// Well-formedness of the contract state. Deployment establishes it and
    /// every operation preserves it.
    pub open spec fn wf(self) -> bool {
        &&& self.royalties <= ROYALTIES_MAX
        &&& self.amount_of_tokens >= 1
        &&& self.tokens_limit_per_address >= 1
        &&& self.next_index_to_mint >= 1
        &&& self.next_index_to_mint as int == self.minted_indexes@.len() + 1
        &&& forall|i: int|
            0 <= i < self.minted_indexes@.len() ==> #[trigger] self.minted_indexes@[i] as int == i
                + 1
        &&& forall|j: int|
            0 <= j < self.minted_indexes_by_drop@.len()
                ==> #[trigger] self.minted_indexes_by_drop@[j] as int
                == self.minted_indexes_by_drop@[0] + j
        &&& self.minted_indexes_by_drop@.len() > 0 ==> {
            &&& self.drop_active()
            &&& self.minted_indexes_by_drop@.last() as int == self.next_index_to_mint - 1
        }
        &&& self.minted_indexes_by_drop@.len() <= self.amount_of_tokens_per_drop
        &&& forall|w: u64|
            self.minted_per_address@.contains_key(w)
                ==> #[trigger] self.minted_per_address@[w] as int <= self.next_index_to_mint - 1
        &&& (self.issuance_status == IssuanceStatus::Issued <==> self.nft_token_id is Some)
    }

    /// The deployment-time collection configuration of `b` is that of `a`.
    pub open spec fn same_config(a: ContractState, b: ContractState) -> bool {
        &&& b.image_base_cid == a.image_base_cid
        &&& b.metadata_base_cid == a.metadata_base_cid
        &&& b.file_extension == a.file_extension
        &&& b.tags == a.tags
        &&& b.provenance_hash == a.provenance_hash
        &&& b.royalties == a.royalties
        &&& b.amount_of_tokens == a.amount_of_tokens
        &&& b.tokens_limit_per_address == a.tokens_limit_per_address
    }

    /// The token identity of `b` is that of `a`.
    pub open spec fn same_identity(a: ContractState, b: ContractState) -> bool {
        &&& b.nft_token_id == a.nft_token_id
        &&& b.nft_token_name == a.nft_token_name
        &&& b.issuance_status == a.issuance_status
    }

}

} // verus!
