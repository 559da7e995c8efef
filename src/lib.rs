//! A fungible-token ledger with stablecoin-style issuance controls: balances,
//! spender allowances, a tiered minting authority (master minter, controller,
//! minter), and pause / blacklist gates.
//!
//! [`token::Stablecoin`] is the contract; [`model::TokenState`] is its
//! abstract state, against which every entry point is specified.

pub mod address;
pub mod amount;
pub mod errors;
pub mod events;
pub mod laws;
pub mod ledger;
pub mod model;
pub mod modality;
pub mod roles;
pub mod token;

pub use address::Address;
pub use amount::Amount;
pub use errors::Error;
pub use events::Event;
pub use modality::{Cep18Modality, StablecoinModality};
pub use roles::Role;
pub use token::Stablecoin;
