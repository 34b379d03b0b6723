//! The reference builder: byte-exact attribute buffers and image URIs.

use elven_tools::builder::decimal_bytes;
use elven_tools::contract::ElvenTools;
use elven_tools::state::ContractState;

fn configured() -> ContractState {
    ContractState::init(
        b"QmImageBase".to_vec(),
        b"QmMetaBase".to_vec(),
        100,
        10,
        500,
        100,
        None,
        Some(b"elven,tools,nft".to_vec()),
        None,
    )
    .unwrap()
}

#[test]
fn decimal_numerals_are_exact() {
    assert_eq!(decimal_bytes(0), b"0".to_vec());
    assert_eq!(decimal_bytes(7), b"7".to_vec());
    assert_eq!(decimal_bytes(10), b"10".to_vec());
    assert_eq!(decimal_bytes(12345), b"12345".to_vec());
    assert_eq!(
        decimal_bytes(u64::MAX),
        b"18446744073709551615".to_vec()
    );
}

#[test]
fn attribute_buffer_is_byte_exact() {
    let s = configured();
    assert_eq!(
        s.build_attributes_buffer(7),
        b"tags:elven,tools,nft;metadata:QmMetaBase/7.json".to_vec()
    );
    assert_eq!(
        s.build_attributes_buffer(12),
        b"tags:elven,tools,nft;metadata:QmMetaBase/12.json".to_vec()
    );
}

#[test]
fn attribute_buffer_with_empty_tags() {
    let s = ContractState::init(
        b"QmImageBase".to_vec(),
        b"QmMetaBase".to_vec(),
        100,
        10,
        500,
        100,
        None,
        None,
        None,
    )
    .unwrap();
    assert_eq!(
        s.build_attributes_buffer(1),
        b"tags:;metadata:QmMetaBase/1.json".to_vec()
    );
}

#[test]
fn uris_are_byte_exact_and_ordered() {
    let s = configured();
    let (gateway, scheme) = s.build_uris_vec(7);
    assert_eq!(gateway, b"https://ipfs.io/ipfs/QmImageBase/7.png".to_vec());
    assert_eq!(scheme, b"ipfs://QmImageBase/7.png".to_vec());
}

#[test]
fn uris_use_the_configured_extension() {
    let s = ContractState::init(
        b"QmImageBase".to_vec(),
        b"QmMetaBase".to_vec(),
        100,
        10,
        500,
        100,
        Some(b".gif".to_vec()),
        None,
        None,
    )
    .unwrap();
    let (gateway, scheme) = s.build_uris_vec(3);
    assert_eq!(gateway, b"https://ipfs.io/ipfs/QmImageBase/3.gif".to_vec());
    assert_eq!(scheme, b"ipfs://QmImageBase/3.gif".to_vec());
}

#[test]
fn builders_are_deterministic_under_unchanged_config() {
    let s = configured();
    assert_eq!(s.build_attributes_buffer(42), s.build_attributes_buffer(42));
    let first = s.build_uris_vec(42);
    let second = s.build_uris_vec(42);
    assert_eq!(first.0, second.0);
    assert_eq!(first.1, second.1);
}

#[test]
fn minted_units_carry_the_derived_references() {
    let mut s = configured();
    s.issue_token(50, b"ElvenToken".to_vec(), b"ELVN".to_vec())
        .unwrap();
    s.issue_callback(elven_tools::issuance::IssueOutcome::Success {
        token_id: b"ELVN-123456".to_vec(),
    });
    s.start_minting();
    let units = s.mint(7, 100, None, true).unwrap();
    assert_eq!(
        units[0].attributes,
        b"tags:elven,tools,nft;metadata:QmMetaBase/1.json".to_vec()
    );
    assert_eq!(
        units[0].gateway_uri,
        b"https://ipfs.io/ipfs/QmImageBase/1.png".to_vec()
    );
    assert_eq!(units[0].scheme_uri, b"ipfs://QmImageBase/1.png".to_vec());
}
