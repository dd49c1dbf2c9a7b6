//! Quality-of-service policy: an immutable value built once and attached to
//! every endpoint and topic created afterwards.
//!
//! The only option recognized by this engine is `reliability`. Blocking
//! times are measured in whole nanoseconds. A `Reliable` policy with a
//! zero maximum blocking time is pinned down to mean "do not wait at all":
//! a submit succeeds only if the acknowledgement is already available, and
//! otherwise fails immediately with a timeout.

use vstd::prelude::*;

verus! {

/// Delivery guarantee of a topic or endpoint.
#[derive(Clone, Copy, Debug, PartialEq, Eq, Structural)]
pub enum Reliability {
    /// No retransmission and no blocking: `submit` never suspends and
    /// never fails for lack of acknowledgement.
    BestEffort,
    /// `submit` may suspend up to `max_blocking_time_ns` nanoseconds
    /// waiting for acknowledgement or buffer space, then fails with a
    /// timeout. A zero bound means "fail at once unless already acknowledged".
    Reliable { max_blocking_time_ns: u64 },
}

/// An immutable delivery contract shared by reference wherever required.
#[derive(Clone, Copy, Debug, PartialEq, Eq, Structural)]
pub struct QosPolicy {
    pub reliability: Reliability,
}

/// Accumulates optional policy settings and produces an immutable
/// `QosPolicy`. Building always succeeds; defaults apply for unset options.
#[derive(Clone, Copy, Debug, PartialEq, Eq, Structural)]
pub struct QosPolicyBuilder {
    pub reliability: Option<Reliability>,
}

impl QosPolicyBuilder {
    /// A builder with no options set.
    pub fn new() -> (b: QosPolicyBuilder)
        ensures
            b.reliability is None,
    {
        QosPolicyBuilder { reliability: None }
    }

    /// Sets the reliability option, replacing any earlier choice.
    pub fn reliability(self, r: Reliability) -> (b: QosPolicyBuilder)
        ensures
            b.reliability == Some(r),
    {
        QosPolicyBuilder { reliability: Some(r) }
    }

    /// Produces the immutable policy. An unset reliability defaults to
    /// best-effort delivery.
    pub fn build(self) -> (q: QosPolicy)
        ensures
            q.reliability == (match self.reliability {
                Some(r) => r,
                None => Reliability::BestEffort,
            }),
    {
        QosPolicy {
            reliability: match self.reliability {
                Some(r) => r,
                None => Reliability::BestEffort,
            },
        }
    }
}

} // verus!
