//! On-chain logic of a limited-edition NFT collection minter.
//!
//! The contract issues a non-fungible token class, gates public minting
//! behind pause/price/role checks, allocates a sequential index per minted
//! item, builds per-item metadata and image references, enforces per-wallet
//! and per-drop supply caps, and describes how payment and the minted asset
//! are routed to the correct parties.
//!
//! The host runtime (persistent storage, asynchronous cross-contract calls,
//! token transfers, hashing, identity resolution) is an external
//! collaborator: every operation here is a synchronous transition on an
//! explicit [`state::ContractState`] value, and anything the runtime must do on
//! the contract's behalf is returned to the caller as a plain description
//! (a minted unit to transfer, a payment to forward, an issuance request to
//! dispatch).

pub mod builder;
pub mod contract;
pub mod errors;
pub mod issuance;
pub mod laws;
pub mod minting;
pub mod state;
