//! The minting engine: eligibility, payment validation, per-address caps,
//! supply exhaustion, and the owner giveaway.

use elven_tools::errors::ContractError;
use elven_tools::issuance::IssueOutcome;
use elven_tools::contract::ElvenTools;
use elven_tools::state::ContractState;

const ALICE: u64 = 7;
const BOB: u64 = 8;
const OWNER: u64 = 1;

fn live_contract(total: u32, limit: u32, price: u128) -> ContractState {
    let mut s = ContractState::init(
        b"QmImage".to_vec(),
        b"QmMeta".to_vec(),
        total,
        limit,
        500,
        price,
        None,
        Some(b"elven,tools".to_vec()),
        None,
    )
    .unwrap();
    s.issue_token(50, b"ElvenToken".to_vec(), b"ELVN".to_vec())
        .unwrap();
    s.issue_callback(IssueOutcome::Success {
        token_id: b"ELVN-123456".to_vec(),
    });
    s.start_minting();
    s
}

#[test]
fn mint_two_then_limit_then_exhaust_supply() {
    let mut s = live_contract(3, 2, 100);

    let units = s.mint(ALICE, 200, Some(2), true).unwrap();
    assert_eq!(units.len(), 2);
    assert_eq!(units[0].index, 1);
    assert_eq!(units[1].index, 2);
    assert!(units.iter().all(|u| u.receiver == ALICE));
    assert!(units.iter().all(|u| u.payment_to_owner == 100));
    assert!(units.iter().all(|u| u.royalties == 500));
    assert_eq!(s.total_tokens_left(), 1);
    assert!(!s.paused);

    let again = s.mint(ALICE, 100, Some(1), true);
    assert_eq!(again.unwrap_err(), ContractError::PerAddressLimitExceeded);

    let units = s.mint(BOB, 100, Some(1), true).unwrap();
    assert_eq!(units[0].index, 3);
    assert_eq!(s.total_tokens_left(), 0);
    assert!(s.paused, "exhausting the supply pauses the contract");

    let after = s.mint(BOB, 100, Some(1), true);
    assert_eq!(after.unwrap_err(), ContractError::MintingPaused);
}

#[test]
fn mint_refuses_while_paused_and_changes_nothing() {
    let mut s = live_contract(3, 2, 100);
    s.pause_minting();
    let r = s.mint(ALICE, 100, Some(1), true);
    assert_eq!(r.unwrap_err(), ContractError::MintingPaused);
    assert_eq!(s.total_tokens_left(), 3);
    assert_eq!(s.next_index_to_mint, 1);
    assert!(s.minted_per_address.is_empty());
}

#[test]
fn mint_requires_issued_token() {
    let mut s = ContractState::init(
        b"QmImage".to_vec(),
        b"QmMeta".to_vec(),
        3,
        2,
        500,
        100,
        None,
        None,
        None,
    )
    .unwrap();
    s.start_minting();
    let r = s.mint(ALICE, 100, Some(1), true);
    assert_eq!(r.unwrap_err(), ContractError::TokenNotIssued);
}

#[test]
fn mint_requires_create_role() {
    let mut s = live_contract(3, 2, 100);
    let r = s.mint(ALICE, 100, Some(1), false);
    assert_eq!(r.unwrap_err(), ContractError::RoleMissing);
    assert_eq!(s.next_index_to_mint, 1);
}

#[test]
fn mint_rejects_payment_that_is_no_exact_multiple() {
    let mut s = live_contract(10, 10, 100);

    // a remainder is a mismatch even though each unit's share rounds to the price
    let r = s.mint(ALICE, 201, Some(2), true);
    assert_eq!(r.unwrap_err(), ContractError::InvalidPayment);
    assert_eq!(s.total_tokens_left(), 10);
    assert_eq!(s.next_index_to_mint, 1);
    assert!(s.minted_per_address.is_empty());
    assert!(!s.paused);

    let r = s.mint(ALICE, 250, Some(2), true);
    assert_eq!(r.unwrap_err(), ContractError::InvalidPayment);

    let r = s.mint(ALICE, 0, Some(2), true);
    assert_eq!(r.unwrap_err(), ContractError::InvalidPayment);

    let units = s.mint(ALICE, 200, Some(2), true).unwrap();
    assert_eq!(units.len(), 2);
}

#[test]
fn mint_coerces_counts_below_one_up_to_one() {
    let mut s = live_contract(10, 10, 100);
    let units = s.mint(ALICE, 100, Some(0), true).unwrap();
    assert_eq!(units.len(), 1);
    let units = s.mint(ALICE, 100, None, true).unwrap();
    assert_eq!(units.len(), 1);
    assert_eq!(s.total_tokens_left(), 8);
}

#[test]
fn mint_refuses_more_than_remaining_supply() {
    let mut s = live_contract(3, 10, 100);
    let r = s.mint(ALICE, 400, Some(4), true);
    assert_eq!(r.unwrap_err(), ContractError::SupplyExhausted);
    assert_eq!(s.total_tokens_left(), 3);
}

#[test]
fn exhausted_supply_then_giveaway_refused() {
    let mut s = live_contract(2, 10, 100);
    s.mint(ALICE, 200, Some(2), true).unwrap();
    assert!(s.paused);
    let g = s.giveaway(OWNER, BOB, 1, true);
    assert_eq!(g.unwrap_err(), ContractError::SupplyExhausted);
}

#[test]
fn giveaway_mints_free_units_to_target() {
    let mut s = live_contract(10, 2, 100);
    let units = s.giveaway(OWNER, BOB, 3, true).unwrap();
    assert_eq!(units.len(), 3);
    assert_eq!(units[0].index, 1);
    assert_eq!(units[2].index, 3);
    assert!(units.iter().all(|u| u.receiver == BOB));
    assert!(units.iter().all(|u| u.payment_to_owner == 0));
    // the units are counted against the calling owner's wallet
    assert_eq!(s.minted_per_address.get(&OWNER), Some(&3));
    assert_eq!(s.total_tokens_left(), 7);
}

#[test]
fn giveaway_to_zero_address_goes_to_caller() {
    let mut s = live_contract(10, 10, 100);
    let units = s.giveaway(OWNER, 0, 1, true).unwrap();
    assert_eq!(units[0].receiver, OWNER);
}

#[test]
fn giveaway_ignores_pause_and_coerces_count() {
    let mut s = live_contract(10, 10, 100);
    s.pause_minting();
    let units = s.giveaway(OWNER, BOB, 0, true).unwrap();
    assert_eq!(units.len(), 1);
    assert_eq!(s.total_tokens_left(), 9);
}

#[test]
fn giveaway_requires_issued_token_and_role() {
    let mut s = ContractState::init(
        b"QmImage".to_vec(),
        b"QmMeta".to_vec(),
        3,
        2,
        500,
        100,
        None,
        None,
        None,
    )
    .unwrap();
    let g = s.giveaway(OWNER, BOB, 1, true);
    assert_eq!(g.unwrap_err(), ContractError::TokenNotIssued);

    let mut s = live_contract(3, 2, 100);
    let g = s.giveaway(OWNER, BOB, 1, false);
    assert_eq!(g.unwrap_err(), ContractError::RoleMissing);
}

#[test]
fn indexes_are_allocated_once_across_callers() {
    let mut s = live_contract(6, 2, 100);
    let mut seen = Vec::new();
    seen.extend(s.mint(ALICE, 200, Some(2), true).unwrap().iter().map(|u| u.index));
    seen.extend(s.giveaway(OWNER, BOB, 2, true).unwrap().iter().map(|u| u.index));
    seen.extend(s.mint(BOB, 200, Some(2), true).unwrap().iter().map(|u| u.index));
    assert_eq!(seen, vec![1, 2, 3, 4, 5, 6]);
    assert_eq!(s.minted_indexes, vec![1, 2, 3, 4, 5, 6]);
}

#[test]
fn total_supply_accounting_holds_after_every_operation() {
    let mut s = live_contract(5, 5, 100);
    assert_eq!(s.total_tokens_left() as usize + s.minted_indexes.len(), 5);
    s.mint(ALICE, 200, Some(2), true).unwrap();
    assert_eq!(s.total_tokens_left() as usize + s.minted_indexes.len(), 5);
    s.giveaway(OWNER, BOB, 1, true).unwrap();
    assert_eq!(s.total_tokens_left() as usize + s.minted_indexes.len(), 5);
    s.set_drop(1);
    assert_eq!(s.total_tokens_left() as usize + s.minted_indexes.len(), 5);
}

#[test]
fn per_address_counters_stay_within_limit_under_public_minting() {
    let mut s = live_contract(10, 3, 100);
    s.mint(ALICE, 200, Some(2), true).unwrap();
    s.mint(ALICE, 100, Some(1), true).unwrap();
    assert!(s
        .minted_per_address
        .values()
        .all(|&c| c <= s.tokens_limit_per_address as u64));
    let r = s.mint(ALICE, 100, Some(1), true);
    assert_eq!(r.unwrap_err(), ContractError::PerAddressLimitExceeded);
    assert_eq!(s.minted_per_address.get(&ALICE), Some(&3));
}

#[test]
fn giveaway_can_push_the_owner_counter_past_the_limit() {
    // the giveaway skips the per-address check by design, so the owner's
    // own counter is not capped by it
    let mut s = live_contract(10, 2, 100);
    s.giveaway(OWNER, BOB, 5, true).unwrap();
    assert_eq!(s.minted_per_address.get(&OWNER), Some(&5));
}
