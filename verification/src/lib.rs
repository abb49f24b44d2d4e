//! Lifetime extension and thread-affinity gating for window handles.
//!
//! A native window resource must stay alive while delayed consumers (such as
//! a pipelined renderer) still address it, and its handles must not be used
//! from arbitrary threads. This crate keeps the resource alive through
//! reference-counted shared ownership ([`holder::WindowWrapper`]), carries a
//! shareable reference to a handle source across subsystems
//! ([`capsule::RawHandleWrapper`]), and confines actual handle retrieval to a
//! thread-bound accessor ([`capsule::ThreadLockedRawWindowHandleWrapper`])
//! that callers obtain only at the moment of use.

pub mod capsule;
pub mod handle;
pub mod holder;
pub mod stub;
