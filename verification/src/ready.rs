//! A handler whose handshake is already decided.
//!
//! [`ReadyUpgrade`] advertises a fixed identifier sequence and, once
//! dispatched, yields a computation that resolves immediately to a fixed
//! outcome, carrying the stream and the identifier it was started with. It
//! is the simplest complete upgrade handler: a building block for protocols
//! whose handshake needs no further negotiation steps, and a convenient
//! constituent for exercising a [`SelectUpgrade`](crate::select::SelectUpgrade)
//! composition.

use crate::protocol::copy_identifiers;
use crate::protocol::identifiers_view;
use crate::upgrade::HandshakeFuture;
use crate::upgrade::InboundUpgrade;
use crate::upgrade::OutboundUpgrade;
use crate::upgrade::UpgradeInfo;
use vstd::prelude::*;

verus! {

/// An upgrade handler with a fixed identifier sequence and a fixed outcome.
#[derive(Debug)]
pub struct ReadyUpgrade<T, E> {
    /// The identifiers this handler advertises.
    pub protocols: Vec<Vec<u8>>,
    /// The outcome every handshake of this handler resolves to.
    pub outcome: Result<T, E>,
}

/// The already-resolved handshake computation of a [`ReadyUpgrade`]. It
/// keeps the stream and the identifier it was started with, and resolves to
/// the outcome the handler was built with.
#[derive(Debug)]
pub struct ReadyFuture<C, T, E> {
    /// The stream the handshake was started on, forwarded unmodified.
    pub sock: C,
    /// The negotiated identifier the handshake was started with.
    pub info: Vec<u8>,
    /// The outcome the computation resolves to.
    pub outcome: Result<T, E>,
}

impl<T, E> ReadyUpgrade<T, E> {
    /// A handler advertising `protocols` whose every handshake resolves to
    /// `outcome`.
    pub fn new(protocols: Vec<Vec<u8>>, outcome: Result<T, E>) -> (handler: Self)
        ensures
            handler == (ReadyUpgrade { protocols, outcome }),
    {
        ReadyUpgrade { protocols, outcome }
    }
}

impl<C, T, E> HandshakeFuture for ReadyFuture<C, T, E> {
    type Output = T;

    type Error = E;

    /// The computation resolves to its stored outcome and to nothing else.
    open spec fn may_resolve_to(self, outcome: Result<T, E>) -> bool {
        outcome == self.outcome
    }

    fn complete(self) -> (outcome: Result<T, E>) {
        self.outcome
    }
}

impl<T, E> UpgradeInfo for ReadyUpgrade<T, E> {
    open spec fn spec_protocols(self) -> Seq<Seq<u8>> {
        identifiers_view(self.protocols@)
    }

    fn protocol_info(&self) -> (protocols: Vec<Vec<u8>>) {
        copy_identifiers(&self.protocols)
    }
}

impl<C, T, E> InboundUpgrade<C> for ReadyUpgrade<T, E> {
    type Future = ReadyFuture<C, T, E>;

    open spec fn spec_upgrade_inbound(self, sock: C, info: Vec<u8>) -> ReadyFuture<C, T, E> {
        ReadyFuture { sock, info, outcome: self.outcome }
    }

    fn upgrade_inbound(self, sock: C, info: Vec<u8>) -> (fut: ReadyFuture<C, T, E>) {
        ReadyFuture { sock, info, outcome: self.outcome }
    }
}

impl<C, T, E> OutboundUpgrade<C> for ReadyUpgrade<T, E> {
    type Future = ReadyFuture<C, T, E>;

    open spec fn spec_upgrade_outbound(self, sock: C, info: Vec<u8>) -> ReadyFuture<C, T, E> {
        ReadyFuture { sock, info, outcome: self.outcome }
    }

    fn upgrade_outbound(self, sock: C, info: Vec<u8>) -> (fut: ReadyFuture<C, T, E>) {
        ReadyFuture { sock, info, outcome: self.outcome }
    }
}

} // verus!
