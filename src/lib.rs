//! Event records of a cross-chain bridge, rendered as versioned JSON log
//! lines, and parsing of 20-byte Ethereum addresses from hex text.

pub mod address;
pub mod event;
pub mod json;

pub use address::{get_eth_address, AddressError, EthAddress};
pub use event::{
    AccountId, Event, EventMessage, Proof, TransferDataEthereum, TransferDataNear, STANDARD,
    VERSION,
};
