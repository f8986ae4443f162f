//! The link layer: Ethernet.
pub mod eth;

pub use eth::{EtherSize, EtherType, Ethernet};
