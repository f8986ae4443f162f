//! The network layer: IPv4 and its protocol numbers.
pub mod ipnum;
pub mod ipv4;

pub use ipnum::InetProtocol;
pub use ipv4::{IPv4, IPv4Size};
