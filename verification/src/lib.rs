//! A small gateway library over an Ethereum-style JSON-RPC node: it builds
//! JSON-RPC request envelopes, decides what each upstream reply means, and
//! converts hexadecimal wei balances into plain integers.

pub mod envelope;
pub mod gateway;
pub mod upstream;
pub mod wei;
