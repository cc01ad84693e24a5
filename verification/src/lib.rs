//! Sans-I/O core of a SOCKS4/SOCKS4a/SOCKS5 proxy server.

pub mod address;
pub mod bytes;
pub mod driver;
pub mod error;
pub mod relay;
pub mod session;
pub mod socks4;
pub mod socks5;
pub mod upstream;
