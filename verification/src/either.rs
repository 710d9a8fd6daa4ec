//! Two-variant sum containers for composing heterogeneous handlers.
//!
//! A composite handler must expose one concrete success type, one concrete
//! error type and one concrete computation type even though either of its two
//! constituents may have run. These three parallel containers carry whichever
//! constituent's value is relevant under a `First` or `Second` tag. The tag
//! chosen when a computation is constructed is the tag its eventual success
//! or failure carries: a computation never starts as `First` and resolves as
//! `Second`, nor the other way round ([`lemma_variant_consistency`]).

use crate::upgrade::HandshakeFuture;
use vstd::prelude::*;

verus! {

/// The success value of whichever constituent ran.
#[derive(Clone, Debug, PartialEq, Eq)]
pub enum EitherOutput<TA, TB> {
    First(TA),
    Second(TB),
}

/// The failure value of whichever constituent ran.
#[derive(Clone, Debug, PartialEq, Eq)]
pub enum EitherError<EA, EB> {
    First(EA),
    Second(EB),
}

/// The in-flight handshake computation of whichever constituent ran.
#[derive(Debug)]
pub enum EitherFuture<FA, FB> {
    First(FA),
    Second(FB),
}

impl<TA, TB> EitherOutput<TA, TB> {
    /// Whether this success value came from the first constituent.
    pub fn is_first(&self) -> (first: bool)
        ensures
            first <==> self is First,
    {
        match self {
            EitherOutput::First(_) => true,
            EitherOutput::Second(_) => false,
        }
    }
}

impl<EA, EB> EitherError<EA, EB> {
    /// Whether this failure value came from the first constituent.
    pub fn is_first(&self) -> (first: bool)
        ensures
            first <==> self is First,
    {
        match self {
            EitherError::First(_) => true,
            EitherError::Second(_) => false,
        }
    }
}

impl<E> EitherError<E, E> {
    /// Erase the variant tag once both constituents' failures share one
    /// type. The composition layer never erases the tag itself; this is the
    /// caller's explicit choice.
    pub fn into_inner(self) -> (error: E)
        ensures
            self is First ==> error == self->First_0,
            self is Second ==> error == self->Second_0,
    {
        match self {
            EitherError::First(e) => e,
            EitherError::Second(e) => e,
        }
    }
}

impl<FA, FB> EitherFuture<FA, FB> {
    /// Whether this computation is the first constituent's.
    pub fn is_first(&self) -> (first: bool)
        ensures
            first <==> self is First,
    {
        match self {
            EitherFuture::First(_) => true,
            EitherFuture::Second(_) => false,
        }
    }
}

impl<FA: HandshakeFuture, FB: HandshakeFuture> HandshakeFuture for EitherFuture<FA, FB> {
    type Output = EitherOutput<FA::Output, FB::Output>;

    type Error = EitherError<FA::Error, FB::Error>;

    /// A `First` computation resolves exactly to the outcomes of its inner
    /// computation, wrapped under the `First` tag; likewise for `Second`.
    open spec fn may_resolve_to(
        self,
        outcome: Result<EitherOutput<FA::Output, FB::Output>, EitherError<FA::Error, FB::Error>>,
    ) -> bool {
        match self {
            EitherFuture::First(fa) => match outcome {
                Ok(EitherOutput::First(o)) => fa.may_resolve_to(Ok(o)),
                Err(EitherError::First(e)) => fa.may_resolve_to(Err(e)),
                _ => false,
            },
            EitherFuture::Second(fb) => match outcome {
                Ok(EitherOutput::Second(o)) => fb.may_resolve_to(Ok(o)),
                Err(EitherError::Second(e)) => fb.may_resolve_to(Err(e)),
                _ => false,
            },
        }
    }

    fn complete(self) -> (outcome: Result<
        EitherOutput<FA::Output, FB::Output>,
        EitherError<FA::Error, FB::Error>,
    >) {
        match self {
            EitherFuture::First(fa) => match fa.complete() {
                Ok(o) => Ok(EitherOutput::First(o)),
                Err(e) => Err(EitherError::First(e)),
            },
            EitherFuture::Second(fb) => match fb.complete() {
                Ok(o) => Ok(EitherOutput::Second(o)),
                Err(e) => Err(EitherError::Second(e)),
            },
        }
    }
}

/// Variant consistency: every outcome a composite computation may resolve to
/// carries the tag the computation was constructed with — a `First`
/// computation yields a `First` success or a `First` failure, a `Second`
/// computation a `Second` one. No execution starts under one tag and
/// resolves under the other.
pub proof fn lemma_variant_consistency<FA: HandshakeFuture, FB: HandshakeFuture>(
    fut: EitherFuture<FA, FB>,
    outcome: Result<EitherOutput<FA::Output, FB::Output>, EitherError<FA::Error, FB::Error>>,
)
    requires
        fut.may_resolve_to(outcome),
    ensures
        fut is First <==> (match outcome {
            Ok(o) => o is First,
            Err(e) => e is First,
        }),
        fut is Second <==> (match outcome {
            Ok(o) => o is Second,
            Err(e) => e is Second,
        }),
{
}

} // verus!
