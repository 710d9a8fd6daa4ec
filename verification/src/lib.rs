//! Composition algebra for protocol-upgrade handlers.
//!
//! A transport negotiation layer offers a set of sub-protocols over an
//! established byte stream. Each sub-protocol is spoken by an *upgrade
//! handler* that advertises the protocol identifiers it supports and, once an
//! identifier has been agreed on, performs the protocol's handshake. This
//! crate provides the machinery to combine two such handlers into one
//! composite handler: the composite advertises the concatenation of its
//! constituents' identifier sequences, dispatches an agreed identifier to the
//! constituent that advertised it (the first-listed handler winning ties), and
//! carries the chosen constituent's own result and error types through a
//! two-variant sum, so that no type information is erased.

pub mod either;
pub mod protocol;
pub mod ready;
pub mod select;
pub mod upgrade;
