//! A sandboxed, gas-metered execution engine for guest modules: bounds-checked linear memory,
//! the length-prefixed buffer protocol, gas accounting, the host functions guest code calls, and
//! the cache of prepared instances that lets contracts call one another.

pub mod buffer;
pub mod cache;
pub mod codec;
pub mod env;
pub mod error;
pub mod gas;
pub mod host;
pub mod instance;
pub mod memory;
pub mod registry;
pub mod table;
pub mod text;
