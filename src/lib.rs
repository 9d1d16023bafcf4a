//! A USD-priced NFT marketplace, with its one-shot initialization guard and
//! its ownership registries, written as verified state transitions.
//!
//! Every call into another contract (a price oracle, a payment token, the NFT
//! collection, an ownership resolver) is performed by the host that drives
//! these types: the library decides, the host calls and reports back.

pub mod uint;
pub mod address;
pub mod initialization;
pub mod ownable;
pub mod ownership;
pub mod delegation;
pub mod table;
pub mod pricing;
pub mod market;
pub mod seabrick;
