//! The selector combinator: two upgrade handlers composed into one.
//!
//! [`SelectUpgrade`] pairs a primary and a secondary handler. It advertises
//! the primary's identifiers followed by the secondary's, dispatches an
//! agreed identifier to the primary whenever the primary advertised it (so
//! the primary wins when both advertise the same identifier) and otherwise to
//! the secondary, and wraps the chosen constituent's handshake computation in
//! the matching [`EitherFuture`] variant. Larger compositions are built by
//! nesting selectors, since a selector is itself an upgrade handler.

use crate::either::EitherFuture;
use crate::protocol::contains_identifier;
use crate::protocol::identifiers_view;
use crate::upgrade::InboundUpgrade;
use crate::upgrade::OutboundUpgrade;
use crate::upgrade::UpgradeInfo;
use vstd::prelude::*;
use vstd::seq_lib::lemma_seq_concat_contains_all_elements;

verus! {

/// Upgrade that combines two upgrades into one. Supports all the protocols
/// supported by either sub-upgrade.
///
/// The protocols supported by the first element have a higher priority.
#[derive(Clone, Debug)]
pub struct SelectUpgrade<A, B>(A, B);

impl<A, B> SelectUpgrade<A, B> {
    /// The first, higher-priority constituent.
    pub closed spec fn primary(self) -> A {
        self.0
    }

    /// The second, lower-priority constituent.
    pub closed spec fn secondary(self) -> B {
        self.1
    }

    /// Combines two upgrades into an `SelectUpgrade`.
    ///
    /// The protocols supported by the first element have a higher priority.
    pub fn new(a: A, b: B) -> (selector: Self)
        ensures
            selector.primary() == a,
            selector.secondary() == b,
    {
        SelectUpgrade(a, b)
    }
}

impl<A: UpgradeInfo, B: UpgradeInfo> UpgradeInfo for SelectUpgrade<A, B> {
    /// The primary's identifiers first, then the secondary's. Duplicates are
    /// passed through unmodified.
    open spec fn spec_protocols(self) -> Seq<Seq<u8>> {
        self.primary().spec_protocols() + self.secondary().spec_protocols()
    }

    fn protocol_info(&self) -> (protocols: Vec<Vec<u8>>) {
        let mut protocols = self.0.protocol_info();
        let mut rest = self.1.protocol_info();
        proof {
            assert(identifiers_view(protocols@ + rest@) =~= identifiers_view(protocols@)
                + identifiers_view(rest@));
        }
        protocols.append(&mut rest);
        protocols
    }
}

impl<C, A: InboundUpgrade<C>, B: InboundUpgrade<C>> InboundUpgrade<C> for SelectUpgrade<A, B> {
    type Future = EitherFuture<A::Future, B::Future>;

    /// Dispatch: the primary's computation under the `First` tag whenever the
    /// primary advertised the identifier, else the secondary's under `Second`.
    open spec fn spec_upgrade_inbound(self, sock: C, info: Vec<u8>) -> EitherFuture<
        A::Future,
        B::Future,
    > {
        if self.primary().spec_protocols().contains(info@) {
            EitherFuture::First(self.primary().spec_upgrade_inbound(sock, info))
        } else {
            EitherFuture::Second(self.secondary().spec_upgrade_inbound(sock, info))
        }
    }

    fn upgrade_inbound(self, sock: C, info: Vec<u8>) -> (fut: EitherFuture<
        A::Future,
        B::Future,
    >) {
        let SelectUpgrade(a, b) = self;
        let a_protocols = a.protocol_info();
        if contains_identifier(&a_protocols, &info) {
            EitherFuture::First(a.upgrade_inbound(sock, info))
        } else {
            let b_protocols = b.protocol_info();
            proof {
                lemma_seq_concat_contains_all_elements(
                    a.spec_protocols(),
                    b.spec_protocols(),
                    info@,
                );
            }
            if contains_identifier(&b_protocols, &info) {
                EitherFuture::Second(b.upgrade_inbound(sock, info))
            } else {
                // The negotiated identifier was advertised by neither
                // constituent: a broken invariant between the negotiation
                // exchange and this selector. The `requires` clause makes
                // this branch unreachable in verified code; an unverified
                // caller that violates the contract aborts here.
                unreached()
            }
        }
    }
}

impl<C, A: OutboundUpgrade<C>, B: OutboundUpgrade<C>> OutboundUpgrade<C> for SelectUpgrade<A, B> {
    type Future = EitherFuture<A::Future, B::Future>;

    /// Dispatch: the primary's computation under the `First` tag whenever the
    /// primary advertised the identifier, else the secondary's under `Second`.
    open spec fn spec_upgrade_outbound(self, sock: C, info: Vec<u8>) -> EitherFuture<
        A::Future,
        B::Future,
    > {
        if self.primary().spec_protocols().contains(info@) {
            EitherFuture::First(self.primary().spec_upgrade_outbound(sock, info))
        } else {
            EitherFuture::Second(self.secondary().spec_upgrade_outbound(sock, info))
        }
    }

    fn upgrade_outbound(self, sock: C, info: Vec<u8>) -> (fut: EitherFuture<
        A::Future,
        B::Future,
    >) {
        let SelectUpgrade(a, b) = self;
        let a_protocols = a.protocol_info();
        if contains_identifier(&a_protocols, &info) {
            EitherFuture::First(a.upgrade_outbound(sock, info))
        } else {
            let b_protocols = b.protocol_info();
            proof {
                lemma_seq_concat_contains_all_elements(
                    a.spec_protocols(),
                    b.spec_protocols(),
                    info@,
                );
            }
            if contains_identifier(&b_protocols, &info) {
                EitherFuture::Second(b.upgrade_outbound(sock, info))
            } else {
                // See `upgrade_inbound`: unreachable under the contract,
                // an abort for a contract-violating unverified caller.
                unreached()
            }
        }
    }
}

/// Advertise concatenation: a selector's advertised sequence is exactly the
/// primary's sequence followed by the secondary's, each constituent's
/// internal order preserved. The same sequence serves the inbound and the
/// outbound role, both of which share [`UpgradeInfo::protocol_info`].
pub proof fn lemma_advertise_concatenation<A: UpgradeInfo, B: UpgradeInfo>(
    selector: SelectUpgrade<A, B>,
)
    ensures
        selector.spec_protocols() == selector.primary().spec_protocols()
            + selector.secondary().spec_protocols(),
{
}

/// Restartability of advertise: any two identifier sequences that
/// [`UpgradeInfo::protocol_info`] can produce for the same selector are
/// equal, since the entry point borrows the selector and its postcondition
/// pins the result to `spec_protocols`. Advertising never mutates or drains
/// the handlers.
pub proof fn lemma_advertise_restartable<A: UpgradeInfo, B: UpgradeInfo>(
    selector: SelectUpgrade<A, B>,
    first_call: Vec<Vec<u8>>,
    second_call: Vec<Vec<u8>>,
)
    requires
        identifiers_view(first_call@) == selector.spec_protocols(),
        identifiers_view(second_call@) == selector.spec_protocols(),
    ensures
        identifiers_view(first_call@) == identifiers_view(second_call@),
{
}

/// Priority on duplicate identifiers: whenever the primary advertises the
/// negotiated identifier — in particular when both constituents advertise
/// it — dispatch starts the primary's handshake and never the secondary's.
pub proof fn lemma_dispatch_priority<C, A: InboundUpgrade<C>, B: InboundUpgrade<C>>(
    selector: SelectUpgrade<A, B>,
    sock: C,
    info: Vec<u8>,
)
    requires
        selector.primary().spec_protocols().contains(info@),
    ensures
        selector.spec_upgrade_inbound(sock, info) == EitherFuture::<A::Future, B::Future>::First(
            selector.primary().spec_upgrade_inbound(sock, info),
        ),
{
}

/// Correct forwarding: an identifier the primary did not advertise is
/// forwarded to the secondary's handshake with the original stream and
/// identifier unmodified, under the `Second` tag; the primary's handshake is
/// not started.
pub proof fn lemma_dispatch_secondary<C, A: InboundUpgrade<C>, B: InboundUpgrade<C>>(
    selector: SelectUpgrade<A, B>,
    sock: C,
    info: Vec<u8>,
)
    requires
        !selector.primary().spec_protocols().contains(info@),
    ensures
        selector.spec_upgrade_inbound(sock, info) == EitherFuture::<A::Future, B::Future>::Second(
            selector.secondary().spec_upgrade_inbound(sock, info),
        ),
{
}

/// Priority on duplicate identifiers, outbound role.
pub proof fn lemma_dispatch_priority_outbound<C, A: OutboundUpgrade<C>, B: OutboundUpgrade<C>>(
    selector: SelectUpgrade<A, B>,
    sock: C,
    info: Vec<u8>,
)
    requires
        selector.primary().spec_protocols().contains(info@),
    ensures
        selector.spec_upgrade_outbound(sock, info) == EitherFuture::<A::Future, B::Future>::First(
            selector.primary().spec_upgrade_outbound(sock, info),
        ),
{
}

/// Correct forwarding, outbound role.
pub proof fn lemma_dispatch_secondary_outbound<C, A: OutboundUpgrade<C>, B: OutboundUpgrade<C>>(
    selector: SelectUpgrade<A, B>,
    sock: C,
    info: Vec<u8>,
)
    requires
        !selector.primary().spec_protocols().contains(info@),
    ensures
        selector.spec_upgrade_outbound(sock, info) == EitherFuture::<A::Future, B::Future>::Second(
            selector.secondary().spec_upgrade_outbound(sock, info),
        ),
{
}

} // verus!
