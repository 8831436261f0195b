//! Verified contract logic for the Soroswap aggregator adapters: the
//! Soroswap adapter contract and the instance storage of the Phoenix proxy.

pub mod adapter;
pub mod adapter_storage;
pub mod error;
pub mod host;
pub mod protocol_interface;
pub mod proxy_storage;
pub mod ttl;
