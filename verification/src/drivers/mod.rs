//! Drivers written against the bindings.

pub mod dummy_rs;
pub mod e1000rs;
pub mod wireguard_rs;
