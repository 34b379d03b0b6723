//! Deployment validation and the token-issuance lifecycle.

use elven_tools::errors::ContractError;
use elven_tools::issuance::IssueOutcome;
use elven_tools::contract::ElvenTools;
use elven_tools::state::ContractState;
use elven_tools::state::IssuanceStatus;

fn deploy(total: u32, limit: u32, price: u128) -> ContractState {
    ContractState::init(
        b"QmImage".to_vec(),
        b"QmMeta".to_vec(),
        total,
        limit,
        500,
        price,
        None,
        Some(b"elven,tools".to_vec()),
        None,
    )
    .unwrap()
}

#[test]
fn init_rejects_royalties_above_limit() {
    let r = ContractState::init(
        b"QmImage".to_vec(),
        b"QmMeta".to_vec(),
        3,
        2,
        10_001,
        100,
        None,
        None,
        None,
    );
    assert_eq!(r.unwrap_err(), ContractError::ConfigurationError);
}

#[test]
fn init_rejects_zero_token_amount() {
    let r = ContractState::init(
        b"QmImage".to_vec(),
        b"QmMeta".to_vec(),
        0,
        2,
        500,
        100,
        None,
        None,
        None,
    );
    assert_eq!(r.unwrap_err(), ContractError::ConfigurationError);
}

#[test]
fn init_rejects_zero_per_address_limit() {
    let r = ContractState::init(
        b"QmImage".to_vec(),
        b"QmMeta".to_vec(),
        3,
        0,
        500,
        100,
        None,
        None,
        None,
    );
    assert_eq!(r.unwrap_err(), ContractError::ConfigurationError);
}

#[test]
fn init_defaults_and_initial_state() {
    let s = deploy(3, 2, 100);
    assert!(s.paused);
    assert_eq!(s.next_index_to_mint, 1);
    assert_eq!(s.file_extension, b".png".to_vec());
    assert_eq!(s.provenance_hash, Vec::<u8>::new());
    assert_eq!(s.issuance_status, IssuanceStatus::NotIssued);
    assert!(s.nft_token_id.is_none());
    assert_eq!(s.get_nft_price(), 100);
    assert_eq!(s.total_tokens_left(), 3);
    assert_eq!(s.drop_tokens_left(), 0);
}

#[test]
fn init_keeps_supplied_extension_and_provenance() {
    let s = ContractState::init(
        b"QmImage".to_vec(),
        b"QmMeta".to_vec(),
        3,
        2,
        500,
        100,
        Some(b".gif".to_vec()),
        None,
        Some(b"abcd1234".to_vec()),
    )
    .unwrap();
    assert_eq!(s.file_extension, b".gif".to_vec());
    assert_eq!(s.tags, Vec::<u8>::new());
    assert_eq!(s.get_provenance_hash(), &b"abcd1234".to_vec());
}

#[test]
fn issue_token_dispatches_create_only_request() {
    let mut s = deploy(3, 2, 100);
    let action = s
        .issue_token(50, b"ElvenToken".to_vec(), b"ELVN".to_vec())
        .unwrap();
    assert_eq!(s.issuance_status, IssuanceStatus::Pending);
    assert_eq!(action.issue_cost, 50);
    assert_eq!(action.token_name, b"ElvenToken".to_vec());
    assert_eq!(action.token_ticker, b"ELVN".to_vec());
    assert!(!action.properties.can_freeze);
    assert!(!action.properties.can_wipe);
    assert!(!action.properties.can_pause);
    assert!(!action.properties.can_change_owner);
    assert!(!action.properties.can_upgrade);
    assert!(action.properties.can_add_special_roles);
}

#[test]
fn issue_token_refuses_while_pending_or_issued() {
    let mut s = deploy(3, 2, 100);
    s.issue_token(50, b"ElvenToken".to_vec(), b"ELVN".to_vec())
        .unwrap();
    let again = s.issue_token(50, b"ElvenToken".to_vec(), b"ELVN".to_vec());
    assert_eq!(again.unwrap_err(), ContractError::AlreadyIssued);

    let refund = s.issue_callback(IssueOutcome::Success {
        token_id: b"ELVN-123456".to_vec(),
    });
    assert!(refund.is_none());
    let after = s.issue_token(50, b"ElvenToken".to_vec(), b"ELVN".to_vec());
    assert_eq!(after.unwrap_err(), ContractError::AlreadyIssued);
}

#[test]
fn issue_callback_success_stores_token_id_once() {
    let mut s = deploy(3, 2, 100);
    s.issue_token(50, b"ElvenToken".to_vec(), b"ELVN".to_vec())
        .unwrap();
    let refund = s.issue_callback(IssueOutcome::Success {
        token_id: b"ELVN-123456".to_vec(),
    });
    assert!(refund.is_none());
    assert_eq!(s.issuance_status, IssuanceStatus::Issued);
    assert_eq!(s.get_nft_token_id(), &Some(b"ELVN-123456".to_vec()));
}

#[test]
fn issue_callback_failure_refunds_positive_native_payment() {
    let mut s = deploy(3, 2, 100);
    s.issue_token(50, b"ElvenToken".to_vec(), b"ELVN".to_vec())
        .unwrap();
    let refund = s.issue_callback(IssueOutcome::Failure {
        returned_token_is_native: true,
        returned_amount: 50,
    });
    assert_eq!(refund.unwrap().amount, 50);
    assert_eq!(s.issuance_status, IssuanceStatus::NotIssued);
    assert!(s.nft_token_id.is_none());
}

#[test]
fn issue_callback_failure_without_native_refund() {
    let mut s = deploy(3, 2, 100);
    s.issue_token(50, b"ElvenToken".to_vec(), b"ELVN".to_vec())
        .unwrap();
    let refund = s.issue_callback(IssueOutcome::Failure {
        returned_token_is_native: false,
        returned_amount: 50,
    });
    assert!(refund.is_none());

    s.issue_token(50, b"ElvenToken".to_vec(), b"ELVN".to_vec())
        .unwrap();
    let refund = s.issue_callback(IssueOutcome::Failure {
        returned_token_is_native: true,
        returned_amount: 0,
    });
    assert!(refund.is_none());
    assert_eq!(s.issuance_status, IssuanceStatus::NotIssued);
}

#[test]
fn set_local_roles_requires_issued_token() {
    let mut s = deploy(3, 2, 100);
    assert_eq!(
        s.set_local_roles().unwrap_err(),
        ContractError::TokenNotIssued
    );
    s.issue_token(50, b"ElvenToken".to_vec(), b"ELVN".to_vec())
        .unwrap();
    s.issue_callback(IssueOutcome::Success {
        token_id: b"ELVN-123456".to_vec(),
    });
    let action = s.set_local_roles().unwrap();
    assert_eq!(action.token_id, b"ELVN-123456".to_vec());
}

#[test]
fn admin_setters_write_single_cells() {
    let mut s = deploy(3, 2, 100);
    s.set_new_price(250);
    assert_eq!(s.get_nft_price(), 250);
    s.start_minting();
    assert!(!s.paused);
    s.pause_minting();
    assert!(s.paused);
    assert!(s.shuffle().is_ok());
    assert_eq!(s.next_index_to_mint, 1);
}
