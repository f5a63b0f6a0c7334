//! Transport, identity and value-propagation machinery of a market-data
//! distribution server: a reusable slot registry, a latest-value slot, the
//! decisions of the connection multiplexer and a per-client work latch.

pub mod constants;
pub mod error_utils;
pub mod reuse_array;
pub mod keep_latest;
pub mod packet;
pub mod work;
pub mod dispatch;
pub mod settings;
pub mod subscription;
pub mod client_profile;
pub mod input;
