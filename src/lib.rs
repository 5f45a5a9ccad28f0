//! Ordered packet classification for a traffic-control ingress hook.
//!
//! The library holds the per-packet logic of two chained classifiers and the
//! ordering rules their control plane attaches them with:
//! - `accessor`: bounds-checked views into a packet buffer;
//! - `headers`: the tag-gated Ethernet then IPv4 parse;
//! - `action`: the action codes handed back to the hook;
//! - `classifier`: the decision and the two classifier entry points;
//! - `chain`: attach orders, the resulting chain and its walk.
pub mod accessor;
pub mod action;
pub mod chain;
pub mod classifier;
pub mod headers;
