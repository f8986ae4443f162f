//! The transport layer: TCP and UDP.
pub mod tcp;
pub mod udp;

pub use tcp::{Tcp, TcpSize};
pub use udp::Udp;
