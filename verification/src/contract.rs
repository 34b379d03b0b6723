//! The endpoint surface of the collection minter: one trait declaring every
//! callable operation with its full contract, implemented by the persistent
//! [`ContractState`].
//!
//! The host runtime owns everything around these calls: it keeps the state
//! across calls, executes each call to completion before the next, discards
//! the state of a call that fails, gates owner-only endpoints, answers the
//! role query, dispatches the returned asynchronous requests and delivers
//! their outcomes to the callback, and performs the transfers a settled
//! mint describes.

use vstd::prelude::*;

use crate::builder::decimal_bytes;
use crate::builder::default_img_file_extension;
use crate::builder::png_extension;
use crate::builder::spec_attributes;
use crate::builder::spec_gateway_uri;
use crate::builder::spec_scheme_uri;
use crate::builder::append_bytes;
use crate::errors::ContractError;
use crate::issuance::IssueAction;
use crate::issuance::IssueOutcome;
use crate::issuance::OwnerRefund;
use crate::issuance::SetRolesAction;
use crate::issuance::TokenProperties;
use crate::issuance::spec_issue_properties;
use crate::minting::MintedUnit;
use crate::minting::coerced_count;
use crate::minting::giveaway_refusal;
use crate::minting::mint_effects;
use crate::minting::mint_refusal;
use crate::minting::receiver_of;
use crate::minting::requested_mint_count;
use crate::minting::unit_matches;
use crate::state::ContractState;
use crate::state::IssuanceStatus;
use crate::state::ROYALTIES_MAX;
use vstd::arithmetic::div_mod::lemma_fundamental_div_mod;
use vstd::arithmetic::div_mod::lemma_fundamental_div_mod_converse;
use vstd::arithmetic::mul::lemma_mul_is_commutative;

verus! {

broadcast use vstd::std_specs::hash::group_hash_axioms;

/// The callable operations of the collection minter.
pub trait ElvenTools: Sized {
    /// The state model the contracts of every operation speak of.
    spec fn state(&self) -> ContractState;

    /// Deploys a collection: checks the configuration and returns the
    /// initial state, paused and with index 1 up next.
    fn init(
        image_base_cid: Vec<u8>,
        metadata_base_cid: Vec<u8>,
        amount_of_tokens: u32,
        tokens_limit_per_address: u32,
        royalties: u32,
        selling_price: u128,
        file_extension: Option<Vec<u8>>,
        tags: Option<Vec<u8>>,
        provenance_hash: Option<Vec<u8>>,
    ) -> (r: Result<Self, ContractError>)
        ensures
            r is Err <==> royalties > ROYALTIES_MAX || amount_of_tokens < 1
                || tokens_limit_per_address < 1,
            r is Err ==> r->Err_0 == ContractError::ConfigurationError,
            r is Ok ==> ({
                let c = r->Ok_0.state();
                &&& c.wf()
                &&& c.image_base_cid == image_base_cid
                &&& c.metadata_base_cid == metadata_base_cid
                &&& c.file_extension@ == (match file_extension {
                    Option::Some(e) => e@,
                    Option::None => default_img_file_extension(),
                })
                &&& c.tags@ == (match tags {
                    Option::Some(t) => t@,
                    Option::None => Seq::<u8>::empty(),
                })
                &&& c.provenance_hash@ == (match provenance_hash {
                    Option::Some(p) => p@,
                    Option::None => Seq::<u8>::empty(),
                })
                &&& c.royalties == royalties
                &&& c.amount_of_tokens == amount_of_tokens
                &&& c.tokens_limit_per_address == tokens_limit_per_address
                &&& c.nft_token_id is None
                &&& c.nft_token_name@ == Seq::<u8>::empty()
                &&& c.issuance_status == IssuanceStatus::NotIssued
                &&& c.paused == true
                &&& c.selling_price == selling_price
                &&& c.next_index_to_mint == 1
                &&& c.minted_indexes@ == Seq::<u64>::empty()
                &&& c.minted_indexes_by_drop@ == Seq::<u64>::empty()
                &&& c.amount_of_tokens_per_drop == 0
                &&& c.minted_per_address@ == Map::<u64, u64>::empty()
            }),
    ;

    /// Owner operation: requests issuance of the token class. Refuses while
    /// an issuance is in flight or one has already succeeded; otherwise
    /// moves the contract to `Pending` and returns the request to dispatch.
    /// The payment is forwarded to the issuance primitive untouched.
    fn issue_token(&mut self, issue_cost: u128, token_name: Vec<u8>, token_ticker: Vec<u8>) -> (r:
        Result<IssueAction, ContractError>)
        ensures
            r is Err <==> old(self).state().issuance_status != IssuanceStatus::NotIssued,
            r is Err ==> r->Err_0 == ContractError::AlreadyIssued && final(self).state() == old(
                self,
            ).state(),
            r is Ok ==> ({
                let action = r->Ok_0;
                &&& final(self).state() == (ContractState {
                    issuance_status: IssuanceStatus::Pending,
                    ..old(self).state()
                })
                &&& action.issue_cost == issue_cost
                &&& action.token_name == token_name
                &&& action.token_ticker == token_ticker
                &&& action.properties == spec_issue_properties()
            }),
            old(self).state().wf() ==> final(self).state().wf(),
    ;

    /// The issuance callback, invoked by the runtime exactly once when the
    /// sub-call resolves. On success the returned token id is stored, at
    /// most once, immutable thereafter. On failure the contract returns to
    /// `NotIssued`; if the returned payment is native currency and
    /// positive, the full refund is owed to the contract owner, and this
    /// call says so in its result.
    fn issue_callback(&mut self, result: IssueOutcome) -> (refund: Option<OwnerRefund>)
        requires
            old(self).state().issuance_status == IssuanceStatus::Pending,
        ensures
            match result {
                IssueOutcome::Success { token_id } => {
                    &&& final(self).state() == (ContractState {
                        issuance_status: IssuanceStatus::Issued,
                        nft_token_id: Some(token_id),
                        ..old(self).state()
                    })
                    &&& refund is None
                },
                IssueOutcome::Failure { returned_token_is_native, returned_amount } => {
                    &&& final(self).state() == (ContractState {
                        issuance_status: IssuanceStatus::NotIssued,
                        ..old(self).state()
                    })
                    &&& refund == (if returned_token_is_native && returned_amount > 0 {
                        Some(OwnerRefund { amount: returned_amount })
                    } else {
                        None::<OwnerRefund>
                    })
                },
            },
            old(self).state().wf() ==> final(self).state().wf(),
    ;

    /// Owner operation: requests the create-unit special role for the
    /// contract's own address, as a second asynchronous sub-call. Valid
    /// only once the token class is issued.
    fn set_local_roles(&self) -> (r: Result<SetRolesAction, ContractError>)
        requires
            self.state().wf(),
        ensures
            r is Err <==> self.state().issuance_status != IssuanceStatus::Issued,
            r is Err ==> r->Err_0 == ContractError::TokenNotIssued,
            r is Ok ==> self.state().nft_token_id is Some && r->Ok_0.token_id@ == self.state()
                .nft_token_id->0@,
    ;

    /// Owner operation: pauses public minting.
    fn pause_minting(&mut self)
        ensures
            final(self).state() == (ContractState { paused: true, ..old(self).state() }),
    ;

    /// Owner operation: opens (or reopens) public minting.
    fn start_minting(&mut self)
        ensures
            final(self).state() == (ContractState { paused: false, ..old(self).state() }),
    ;

    /// Owner operation: starts a drop capped at `amount_of_tokens_per_drop`
    /// units, with a fresh per-drop minted set. A cap of zero leaves no
    /// drop active.
    fn set_drop(&mut self, amount_of_tokens_per_drop: u32)
        ensures
            final(self).state().amount_of_tokens_per_drop == amount_of_tokens_per_drop,
            final(self).state().minted_indexes_by_drop@ == Seq::<u64>::empty(),
            ContractState::same_config(old(self).state(), final(self).state()),
            ContractState::same_identity(old(self).state(), final(self).state()),
            final(self).state().paused == old(self).state().paused,
            final(self).state().selling_price == old(self).state().selling_price,
            final(self).state().next_index_to_mint == old(self).state().next_index_to_mint,
            final(self).state().minted_indexes == old(self).state().minted_indexes,
            final(self).state().minted_per_address == old(self).state().minted_per_address,
            old(self).state().wf() ==> final(self).state().wf(),
    ;

    /// Owner operation: ends the drop; supply accounting falls back to the
    /// global scope.
    fn unset_drop(&mut self)
        ensures
            final(self).state().amount_of_tokens_per_drop == 0,
            final(self).state().minted_indexes_by_drop@ == Seq::<u64>::empty(),
            ContractState::same_config(old(self).state(), final(self).state()),
            ContractState::same_identity(old(self).state(), final(self).state()),
            final(self).state().paused == old(self).state().paused,
            final(self).state().selling_price == old(self).state().selling_price,
            final(self).state().next_index_to_mint == old(self).state().next_index_to_mint,
            final(self).state().minted_indexes == old(self).state().minted_indexes,
            final(self).state().minted_per_address == old(self).state().minted_per_address,
            old(self).state().wf() ==> final(self).state().wf(),
    ;

    /// Owner operation: changes the unit price for future mints.
    fn set_new_price(&mut self, price: u128)
        ensures
            final(self).state() == (ContractState { selling_price: price, ..old(self).state() }),
    ;

    /// Owner giveaway: mints `amount_of_tokens` units (at least one)
    /// without payment and owes them to `address` — or to the caller when
    /// `address` is the zero wallet. The units are counted against the
    /// caller's wallet; the pause flag and the per-address cap are not
    /// consulted.
    fn giveaway(&mut self, caller: u64, address: u64, amount_of_tokens: u32, has_create_role: bool) -> (r:
        Result<Vec<MintedUnit>, ContractError>)
        requires
            old(self).state().wf(),
        ensures
            final(self).state().wf(),
            ({
                let refusal = giveaway_refusal(old(self).state(), amount_of_tokens, has_create_role);
                match refusal {
                    Option::Some(e) => r is Err && r->Err_0 == e && final(self).state() == old(
                        self,
                    ).state(),
                    Option::None => r is Ok && mint_effects(
                        old(self).state(),
                        final(self).state(),
                        r->Ok_0@,
                        caller,
                        receiver_of(caller, Some(address)),
                        0,
                        coerced_count(amount_of_tokens) as int,
                    ),
                }
            }),
    ;

    /// Public minting: validates eligibility and payment, then mints
    /// `token_amount` units (at least one) to the caller, forwarding the
    /// unit price to the owner for each. `has_create_role` is the
    /// runtime's answer to whether the contract holds the create-unit
    /// role.
    ///
    /// Exactly one of two outcomes: the call refuses with the first failing
    /// check and an untouched state, or it settles with every effect of
    /// `mint_effects`.
    fn mint(
        &mut self,
        caller: u64,
        payment_amount: u128,
        token_amount: Option<u32>,
        has_create_role: bool,
    ) -> (r: Result<Vec<MintedUnit>, ContractError>)
        requires
            old(self).state().wf(),
        ensures
            final(self).state().wf(),
            ({
                let refusal = mint_refusal(
                    old(self).state(),
                    caller,
                    payment_amount,
                    token_amount,
                    has_create_role,
                );
                match refusal {
                    Option::Some(e) => r is Err && r->Err_0 == e && final(self).state() == old(
                        self,
                    ).state(),
                    Option::None => r is Ok && mint_effects(
                        old(self).state(),
                        final(self).state(),
                        r->Ok_0@,
                        caller,
                        caller,
                        old(self).state().selling_price,
                        requested_mint_count(token_amount) as int,
                    ),
                }
            }),
    ;

    /// Mints one unit: derives the references for the current index,
    /// allocates the index, counts it against `caller`'s wallet, and
    /// returns the unit owed to the receiver. Used by both public minting
    /// and the owner giveaway.
    fn mint_single_nft(&mut self, caller: u64, payment_amount: u128, giveaway_address: Option<u64>) -> (unit:
        MintedUnit)
        requires
            old(self).state().wf(),
            old(self).state().next_index_to_mint < u64::MAX,
            old(self).state().drop_active() ==> old(self).state().spec_drop_left() >= 1,
        ensures
            final(self).state().wf(),
            final(self).state().minted_indexes@ == old(self).state().minted_indexes@.push(
                old(self).state().next_index_to_mint,
            ),
            final(self).state().minted_indexes_by_drop@ == (if old(self).state().drop_active() {
                old(self).state().minted_indexes_by_drop@.push(old(self).state().next_index_to_mint)
            } else {
                old(self).state().minted_indexes_by_drop@
            }),
            final(self).state().next_index_to_mint == old(self).state().next_index_to_mint + 1,
            final(self).state().minted_per_address@ == old(self).state().minted_per_address@.insert(
                caller,
                (old(self).state().counter_of(caller) + 1) as u64,
            ),
            ContractState::same_config(old(self).state(), final(self).state()),
            ContractState::same_identity(old(self).state(), final(self).state()),
            final(self).state().paused == old(self).state().paused,
            final(self).state().selling_price == old(self).state().selling_price,
            final(self).state().amount_of_tokens_per_drop == old(
                self,
            ).state().amount_of_tokens_per_drop,
            unit_matches(
                unit,
                old(self).state(),
                0,
                receiver_of(caller, giveaway_address),
                payment_amount,
            ),
    ;

    /// Reserved for randomized index allocation. Until a randomness source
    /// is wired in, allocation stays sequential and this call changes
    /// nothing.
    fn shuffle(&self) -> (r: Result<(), ContractError>)
        ensures
            r is Ok,
    ;

    /// The index allocator: records the next index into the global minted
    /// set — and into the drop set while a drop is active — and advances
    /// the index counter. No index is ever handed out twice; the global
    /// set is never cleared.
    fn handle_next_index_setup(&mut self)
        requires
            old(self).state().wf(),
            old(self).state().next_index_to_mint < u64::MAX,
            old(self).state().drop_active() ==> old(self).state().spec_drop_left() >= 1,
        ensures
            final(self).state().wf(),
            final(self).state().minted_indexes@ == old(self).state().minted_indexes@.push(
                old(self).state().next_index_to_mint,
            ),
            final(self).state().minted_indexes_by_drop@ == (if old(self).state().drop_active() {
                old(self).state().minted_indexes_by_drop@.push(old(self).state().next_index_to_mint)
            } else {
                old(self).state().minted_indexes_by_drop@
            }),
            final(self).state().next_index_to_mint == old(self).state().next_index_to_mint + 1,
            final(self).state().minted_per_address == old(self).state().minted_per_address,
            ContractState::same_config(old(self).state(), final(self).state()),
            ContractState::same_identity(old(self).state(), final(self).state()),
            final(self).state().paused == old(self).state().paused,
            final(self).state().selling_price == old(self).state().selling_price,
            final(self).state().amount_of_tokens_per_drop == old(
                self,
            ).state().amount_of_tokens_per_drop,
    ;

    /// The two image references of the item at `index_to_mint`, in order:
    /// the gateway-resolvable URI, then the content-addressed scheme URI.
    fn build_uris_vec(&self, index_to_mint: u64) -> (r: (Vec<u8>, Vec<u8>))
        ensures
            r.0@ == spec_gateway_uri(
                self.state().image_base_cid@,
                self.state().file_extension@,
                index_to_mint as nat,
            ),
            r.1@ == spec_scheme_uri(
                self.state().image_base_cid@,
                self.state().file_extension@,
                index_to_mint as nat,
            ),
    ;

    /// The attribute buffer of the item at `index_to_mint`. The runtime
    /// hashes this buffer to form the on-chain attribute digest of the
    /// minted unit.
    fn build_attributes_buffer(&self, index_to_mint: u64) -> (r: Vec<u8>)
        ensures
            r@ == spec_attributes(
                self.state().tags@,
                self.state().metadata_base_cid@,
                index_to_mint as nat,
            ),
    ;

    /// The supply accountant: computes the units still mintable in the
    /// current scope and pauses the contract when none is left, so that
    /// the contract cannot mint past capacity even if the pause toggle was
    /// never explicitly flipped. Evaluated on every mint or giveaway that
    /// settles.
    fn get_current_left_tokens_amount(&mut self) -> (r: u64)
        ensures
            r == if old(self).state().spec_remaining() >= 0 {
                old(self).state().spec_remaining()
            } else {
                0
            },
            final(self).state() == (ContractState {
                paused: old(self).state().paused || r == 0,
                ..old(self).state()
            }),
    ;

    /// Read-only view: units still mintable within the current drop; zero
    /// when no drop is active (both the cap and the per-drop set are then
    /// empty) or on underflow.
    fn drop_tokens_left(&self) -> (r: u64)
        ensures
            r == if self.state().spec_drop_left() >= 0 {
                self.state().spec_drop_left()
            } else {
                0
            },
    ;

    /// Read-only view: units still mintable against the global supply;
    /// zero on underflow.
    fn total_tokens_left(&self) -> (r: u64)
        ensures
            r == if self.state().spec_total_left() >= 0 {
                self.state().spec_total_left()
            } else {
                0
            },
    ;

    /// Read-only view: the issued token class handle, if any.
    fn get_nft_token_id(&self) -> (r: &Option<Vec<u8>>)
        ensures
            *r == self.state().nft_token_id,
    ;

    /// Read-only view: the token class display name.
    fn get_nft_token_name(&self) -> (r: &Vec<u8>)
        ensures
            *r == self.state().nft_token_name,
    ;

    /// Read-only view: the current unit price.
    fn get_nft_price(&self) -> (r: u128)
        ensures
            r == self.state().selling_price,
    ;

    /// Read-only view: the provenance hash set at deployment.
    fn get_provenance_hash(&self) -> (r: &Vec<u8>)
        ensures
            *r == self.state().provenance_hash,
    ;
}

impl ElvenTools for ContractState {
    open spec fn state(&self) -> ContractState {
        *self
    }

    fn init(
        image_base_cid: Vec<u8>,
        metadata_base_cid: Vec<u8>,
        amount_of_tokens: u32,
        tokens_limit_per_address: u32,
        royalties: u32,
        selling_price: u128,
        file_extension: Option<Vec<u8>>,
        tags: Option<Vec<u8>>,
        provenance_hash: Option<Vec<u8>>,
    ) -> (r: Result<Self, ContractError>) {
        if royalties > ROYALTIES_MAX {
            return Err(ContractError::ConfigurationError);
        }
        if amount_of_tokens < 1 {
            return Err(ContractError::ConfigurationError);
        }
        if tokens_limit_per_address < 1 {
            return Err(ContractError::ConfigurationError);
        }
        let ext = match file_extension {
            Some(e) => e,
            None => png_extension(),
        };
        let tag_buffer = match tags {
            Some(t) => t,
            None => Vec::new(),
        };
        let provenance = match provenance_hash {
            Some(p) => p,
            None => Vec::new(),
        };
        Ok(ContractState {
            image_base_cid,
            metadata_base_cid,
            file_extension: ext,
            tags: tag_buffer,
            provenance_hash: provenance,
            royalties,
            amount_of_tokens,
            tokens_limit_per_address,
            nft_token_id: None,
            nft_token_name: Vec::new(),
            issuance_status: IssuanceStatus::NotIssued,
            paused: true,
            selling_price,
            next_index_to_mint: 1,
            minted_indexes: Vec::new(),
            minted_indexes_by_drop: Vec::new(),
            amount_of_tokens_per_drop: 0,
            minted_per_address: std::collections::HashMap::new(),
        })
    }

    fn issue_token(&mut self, issue_cost: u128, token_name: Vec<u8>, token_ticker: Vec<u8>) -> (r:
        Result<IssueAction, ContractError>) {
        match self.issuance_status {
            IssuanceStatus::NotIssued => {},
            _ => {
                return Err(ContractError::AlreadyIssued);
            },
        }
        self.issuance_status = IssuanceStatus::Pending;
        Ok(IssueAction {
            issue_cost,
            token_name,
            token_ticker,
            properties: TokenProperties {
                can_freeze: false,
                can_wipe: false,
                can_pause: false,
                can_change_owner: false,
                can_upgrade: false,
                can_add_special_roles: true,
            },
        })
    }

    fn issue_callback(&mut self, result: IssueOutcome) -> (refund: Option<OwnerRefund>) {
        match result {
            IssueOutcome::Success { token_id } => {
                self.nft_token_id = Some(token_id);
                self.issuance_status = IssuanceStatus::Issued;
                None
            },
            IssueOutcome::Failure { returned_token_is_native, returned_amount } => {
                self.issuance_status = IssuanceStatus::NotIssued;
                if returned_token_is_native && returned_amount > 0 {
                    Some(OwnerRefund { amount: returned_amount })
                } else {
                    None
                }
            },
        }
    }

    fn set_local_roles(&self) -> (r: Result<SetRolesAction, ContractError>) {
        match &self.nft_token_id {
            Some(token_id) => {
                let mut copy: Vec<u8> = Vec::new();
                append_bytes(&mut copy, token_id);
                Ok(SetRolesAction { token_id: copy })
            },
            None => Err(ContractError::TokenNotIssued),
        }
    }

    fn pause_minting(&mut self) {
        self.paused = true;
    }

    fn start_minting(&mut self) {
        self.paused = false;
    }

    fn set_drop(&mut self, amount_of_tokens_per_drop: u32) {
        self.minted_indexes_by_drop = Vec::new();
        self.amount_of_tokens_per_drop = amount_of_tokens_per_drop;
    }

    fn unset_drop(&mut self) {
        self.amount_of_tokens_per_drop = 0;
        self.minted_indexes_by_drop = Vec::new();
    }

    fn set_new_price(&mut self, price: u128) {
        self.selling_price = price;
    }

    fn giveaway(&mut self, caller: u64, address: u64, amount_of_tokens: u32, has_create_role: bool) -> (r:
        Result<Vec<MintedUnit>, ContractError>) {
        match self.issuance_status {
            IssuanceStatus::Issued => {},
            _ => {
                return Err(ContractError::TokenNotIssued);
            },
        }
        if !has_create_role {
            return Err(ContractError::RoleMissing);
        }

        let count: u32 = if amount_of_tokens < 1 {
            1
        } else {
            amount_of_tokens
        };

        let remaining: u64 = if self.amount_of_tokens_per_drop > 0 {
            self.drop_tokens_left()
        } else {
            self.total_tokens_left()
        };
        if remaining < count as u64 || count as u64 > u64::MAX - self.next_index_to_mint {
            return Err(ContractError::SupplyExhausted);
        }

        let units = self.mint_loop(caller, 0, Some(address), count);
        let _left_now: u64 = self.get_current_left_tokens_amount();
        Ok(units)
    }

    fn mint(
        &mut self,
        caller: u64,
        payment_amount: u128,
        token_amount: Option<u32>,
        has_create_role: bool,
    ) -> (r: Result<Vec<MintedUnit>, ContractError>) {
        if self.paused {
            return Err(ContractError::MintingPaused);
        }
        match self.issuance_status {
            IssuanceStatus::Issued => {},
            _ => {
                return Err(ContractError::TokenNotIssued);
            },
        }
        if !has_create_role {
            return Err(ContractError::RoleMissing);
        }

        let count: u32 = match token_amount {
            Some(c) => if c < 1 {
                1
            } else {
                c
            },
            None => 1,
        };

        let remaining: u64 = if self.amount_of_tokens_per_drop > 0 {
            self.drop_tokens_left()
        } else {
            self.total_tokens_left()
        };
        if remaining < count as u64 || count as u64 > u64::MAX - self.next_index_to_mint {
            return Err(ContractError::SupplyExhausted);
        }

        let minted_per_address: u64 = match self.minted_per_address.get(&caller) {
            Some(v) => *v,
            None => 0,
        };
        let tokens_limit_per_address: u64 = self.tokens_limit_per_address as u64;
        if minted_per_address >= tokens_limit_per_address || count as u64 > tokens_limit_per_address
            - minted_per_address {
            return Err(ContractError::PerAddressLimitExceeded);
        }

        let single_payment_amount: u128 = payment_amount / (count as u128);
        let remainder: u128 = payment_amount % (count as u128);
        let price_tag: u128 = self.selling_price;
        if remainder != 0 || single_payment_amount != price_tag {
            proof {
                if payment_amount as int == count as int * price_tag as int {
                    lemma_mul_is_commutative(count as int, price_tag as int);
                    lemma_fundamental_div_mod_converse(
                        payment_amount as int,
                        count as int,
                        price_tag as int,
                        0,
                    );
                }
            }
            return Err(ContractError::InvalidPayment);
        }
        proof {
            lemma_fundamental_div_mod(payment_amount as int, count as int);
            lemma_mul_is_commutative(count as int, price_tag as int);
        }

        let units = self.mint_loop(caller, single_payment_amount, None, count);
        let _left_now: u64 = self.get_current_left_tokens_amount();
        Ok(units)
    }

    fn mint_single_nft(&mut self, caller: u64, payment_amount: u128, giveaway_address: Option<u64>) -> (unit:
        MintedUnit) {
        let index = self.next_index_to_mint;
        let attributes = self.build_attributes_buffer(index);
        let uris = self.build_uris_vec(index);

        self.handle_next_index_setup();

        let receiver: u64 = match giveaway_address {
            Some(a) => if a == 0 {
                caller
            } else {
                a
            },
            None => caller,
        };

        let current: u64 = match self.minted_per_address.get(&caller) {
            Some(v) => *v,
            None => 0,
        };
        self.minted_per_address.insert(caller, current + 1);

        proof {
            let pre = old(self).state();
            let post = *self;
            assert forall|w: u64| post.minted_per_address@.contains_key(w) implies #[trigger] post
                .minted_per_address@[w] as int <= post.next_index_to_mint - 1 by {
                if w != caller {
                    assert(pre.minted_per_address@.contains_key(w));
                }
            }
        }

        MintedUnit {
            index,
            attributes,
            gateway_uri: uris.0,
            scheme_uri: uris.1,
            receiver,
            royalties: self.royalties,
            payment_to_owner: payment_amount,
        }
    }

    fn shuffle(&self) -> (r: Result<(), ContractError>) {
        Ok(())
    }

    fn handle_next_index_setup(&mut self) {
        let minted_index = self.next_index_to_mint;
        let drop_amount = self.amount_of_tokens_per_drop;
        self.minted_indexes.push(minted_index);
        if drop_amount > 0 {
            self.minted_indexes_by_drop.push(minted_index);
        }
        self.next_index_to_mint = minted_index + 1;
        proof {
            let pre = old(self).state();
            let post = *self;
            assert forall|i: int| 0 <= i < post.minted_indexes@.len() implies #[trigger] post
                .minted_indexes@[i] as int == i + 1 by {
                if i < pre.minted_indexes@.len() {
                    assert(pre.minted_indexes@[i] as int == i + 1);
                }
            }
            if pre.drop_active() {
                let dpre = pre.minted_indexes_by_drop@;
                let dpost = post.minted_indexes_by_drop@;
                assert forall|j: int| 0 <= j < dpost.len() implies #[trigger] dpost[j] as int
                    == dpost[0] + j by {
                    if dpre.len() > 0 {
                        assert(dpost[0] == dpre[0]);
                        if j < dpre.len() {
                            assert(dpre[j] as int == dpre[0] + j);
                        } else {
                            assert(dpre[dpre.len() - 1] as int == dpre[0] + (dpre.len() - 1));
                            assert(dpost[j] == pre.next_index_to_mint);
                        }
                    }
                }
            }
        }
    }

    fn build_uris_vec(&self, index_to_mint: u64) -> (r: (Vec<u8>, Vec<u8>)) {
        let file_index = decimal_bytes(index_to_mint);

        let mut img_ipfs_gateway_uri: Vec<u8> = Vec::new();
        crate::builder::append_gateway_host(&mut img_ipfs_gateway_uri);
        append_bytes(&mut img_ipfs_gateway_uri, &self.image_base_cid);
        img_ipfs_gateway_uri.push(47);
        append_bytes(&mut img_ipfs_gateway_uri, &file_index);
        append_bytes(&mut img_ipfs_gateway_uri, &self.file_extension);

        let mut img_ipfs_uri: Vec<u8> = Vec::new();
        crate::builder::append_scheme(&mut img_ipfs_uri);
        append_bytes(&mut img_ipfs_uri, &self.image_base_cid);
        img_ipfs_uri.push(47);
        append_bytes(&mut img_ipfs_uri, &file_index);
        append_bytes(&mut img_ipfs_uri, &self.file_extension);

        proof {
            assert(img_ipfs_gateway_uri@ =~= spec_gateway_uri(
                self.image_base_cid@,
                self.file_extension@,
                index_to_mint as nat,
            ));
            assert(img_ipfs_uri@ =~= spec_scheme_uri(
                self.image_base_cid@,
                self.file_extension@,
                index_to_mint as nat,
            ));
        }
        (img_ipfs_gateway_uri, img_ipfs_uri)
    }

    fn build_attributes_buffer(&self, index_to_mint: u64) -> (r: Vec<u8>) {
        let file_index = decimal_bytes(index_to_mint);

        let mut attributes: Vec<u8> = Vec::new();
        crate::builder::append_tags_key(&mut attributes);
        append_bytes(&mut attributes, &self.tags);
        attributes.push(59);
        crate::builder::append_metadata_key(&mut attributes);
        append_bytes(&mut attributes, &self.metadata_base_cid);
        attributes.push(47);
        append_bytes(&mut attributes, &file_index);
        crate::builder::append_json_extension(&mut attributes);

        proof {
            assert(attributes@ =~= spec_attributes(
                self.tags@,
                self.metadata_base_cid@,
                index_to_mint as nat,
            ));
        }
        attributes
    }

    fn get_current_left_tokens_amount(&mut self) -> (r: u64) {
        let drop_amount = self.amount_of_tokens_per_drop;
        let tokens_left: u64 = if drop_amount > 0 {
            self.drop_tokens_left()
        } else {
            self.total_tokens_left()
        };
        if tokens_left == 0 {
            self.paused = true;
        }
        tokens_left
    }

    fn drop_tokens_left(&self) -> (r: u64) {
        let minted_tokens = self.minted_indexes_by_drop.len() as u64;
        let amount_of_tokens = self.amount_of_tokens_per_drop as u64;
        if amount_of_tokens >= minted_tokens {
            amount_of_tokens - minted_tokens
        } else {
            0
        }
    }

    fn total_tokens_left(&self) -> (r: u64) {
        let minted_tokens = self.minted_indexes.len() as u64;
        let amount_of_tokens = self.amount_of_tokens as u64;
        if amount_of_tokens >= minted_tokens {
            amount_of_tokens - minted_tokens
        } else {
            0
        }
    }

    fn get_nft_token_id(&self) -> (r: &Option<Vec<u8>>) {
        &self.nft_token_id
    }

    fn get_nft_token_name(&self) -> (r: &Vec<u8>) {
        &self.nft_token_name
    }

    fn get_nft_price(&self) -> (r: u128) {
        self.selling_price
    }

    fn get_provenance_hash(&self) -> (r: &Vec<u8>) {
        &self.provenance_hash
    }
}

} // verus!
