//! The capability traits of an upgrade handler.
//!
//! A handler advertises a finite, ordered sequence of protocol identifiers
//! ([`UpgradeInfo`]) and, given a stream and an identifier the negotiation
//! exchange has already agreed on, starts that protocol's handshake in the
//! inbound or the outbound role ([`InboundUpgrade`], [`OutboundUpgrade`]).
//! Starting a handshake yields a *handshake computation*
//! ([`HandshakeFuture`]): a value that is later driven to completion and
//! resolves to the handler's own success or failure type. The negotiation
//! exchange guarantees that the agreed identifier is one the handler
//! advertised; the `requires` clauses below carry that guarantee, so
//! dispatching an unadvertised identifier is rejected at verification time.

use crate::protocol::identifiers_view;
use vstd::prelude::*;

verus! {

/// An in-flight handshake computation.
///
/// `may_resolve_to` is the implementor's own description of which outcomes
/// the computation can resolve to; how the outcome is reached (readiness of
/// the underlying stream, number of suspensions) is outside this model.
/// Driving the computation to completion yields one of those outcomes.
pub trait HandshakeFuture: Sized {
    /// The success value the computation resolves to.
    type Output;

    /// The failure value the computation resolves to.
    type Error;

    /// Which outcomes this computation may resolve to.
    spec fn may_resolve_to(self, outcome: Result<Self::Output, Self::Error>) -> bool;

    /// Drive the computation to completion.
    fn complete(self) -> (outcome: Result<Self::Output, Self::Error>)
        ensures
            self.may_resolve_to(outcome),
    ;
}

/// A handler's advertised protocol identifiers.
pub trait UpgradeInfo: Sized {
    /// The advertised identifier sequence, as a mathematical value.
    spec fn spec_protocols(self) -> Seq<Seq<u8>>;

    /// Produce the advertised identifier sequence.
    ///
    /// Each call produces a fresh sequence equal to `spec_protocols`; the
    /// handler is borrowed, never consumed or drained.
    fn protocol_info(&self) -> (protocols: Vec<Vec<u8>>)
        ensures
            identifiers_view(protocols@) == self.spec_protocols(),
    ;
}

/// A handler's inbound handshake entry point over streams of type `C`.
pub trait InboundUpgrade<C>: UpgradeInfo {
    /// The in-flight computation the entry point returns.
    type Future: HandshakeFuture;

    /// The computation started for a given stream and agreed identifier.
    spec fn spec_upgrade_inbound(self, sock: C, info: Vec<u8>) -> Self::Future;

    /// Start the inbound handshake for `info` on `sock`.
    ///
    /// The caller (the negotiation exchange) guarantees that `info` was
    /// advertised by this handler.
    fn upgrade_inbound(self, sock: C, info: Vec<u8>) -> (fut: Self::Future)
        requires
            self.spec_protocols().contains(info@),
        ensures
            fut == self.spec_upgrade_inbound(sock, info),
    ;
}

/// A handler's outbound handshake entry point over streams of type `C`.
pub trait OutboundUpgrade<C>: UpgradeInfo {
    /// The in-flight computation the entry point returns.
    type Future: HandshakeFuture;

    /// The computation started for a given stream and agreed identifier.
    spec fn spec_upgrade_outbound(self, sock: C, info: Vec<u8>) -> Self::Future;

    /// Start the outbound handshake for `info` on `sock`.
    ///
    /// The caller (the negotiation exchange) guarantees that `info` was
    /// advertised by this handler.
    fn upgrade_outbound(self, sock: C, info: Vec<u8>) -> (fut: Self::Future)
        requires
            self.spec_protocols().contains(info@),
        ensures
            fut == self.spec_upgrade_outbound(sock, info),
    ;
}

} // verus!
