//! Publishing and subscribing endpoints bound to one topic.
//!
//! `submit` models the blocking discipline of sending one sample: the
//! transport's acknowledgement behaviour is handed in as a plain value and
//! the call's outcome and suspension time are pinned down exactly for every
//! policy. Under best-effort delivery the call never suspends and never
//! fails for lack of acknowledgement; under reliable delivery it completes
//! within the policy's maximum blocking time or fails with a timeout —
//! never does it silently hang past the bound.

use vstd::prelude::*;

use crate::domain::TopicId;
use crate::errors::WriteError;
use crate::payload::Payload;
use crate::qos::{QosPolicy, Reliability};

verus! {

/// How the transport acknowledges one submitted sample: after a measured
/// delay, or never (peer gone, buffers full for good).
#[derive(Clone, Copy, Debug, PartialEq, Eq, Structural)]
pub enum TransportAck {
    Acked { after_ns: u64 },
    NoAck,
}

/// Outcome of one `submit` call: its result and for how long the call
/// suspended the task, in nanoseconds.
#[derive(Clone, Copy, Debug, PartialEq, Eq)]
pub struct SubmitReport {
    pub outcome: Result<(), WriteError>,
    pub suspended_ns: u64,
}

/// Local handle to send on a topic. `history` records the samples handed
/// to the transport, in submission order.
#[derive(Debug)]
pub struct PublishingEndpoint {
    pub topic: TopicId,
    pub qos: QosPolicy,
    pub history: Vec<Payload>,
}

/// Local handle to receive from a topic. Its sample and status streams are
/// consumed by the session loop through plain events.
#[derive(Clone, Copy, Debug, PartialEq, Eq, Structural)]
pub struct SubscribingEndpoint {
    pub topic: TopicId,
    pub qos: QosPolicy,
}

/// The result a `submit` call owes for policy `qos` when the transport
/// behaves as `ack`: success exactly when no acknowledgement is needed or
/// one arrives within the blocking bound, a timeout otherwise.
pub open spec fn spec_submit_outcome(qos: QosPolicy, ack: TransportAck) -> Result<
    (),
    WriteError,
> {
    match qos.reliability {
        Reliability::BestEffort => Ok(()),
        Reliability::Reliable { max_blocking_time_ns: d } => match ack {
            TransportAck::Acked { after_ns } => if after_ns <= d {
                Ok(())
            } else {
                Err(WriteError::WriteTimeout)
            },
            TransportAck::NoAck => Err(WriteError::WriteTimeout),
        },
    }
}

/// For how long a `submit` call suspends the task: not at all under
/// best-effort delivery, and never longer than the blocking bound under
/// reliable delivery.
pub open spec fn spec_submit_suspension(qos: QosPolicy, ack: TransportAck) -> u64 {
    match qos.reliability {
        Reliability::BestEffort => 0,
        Reliability::Reliable { max_blocking_time_ns: d } => match ack {
            TransportAck::Acked { after_ns } => if after_ns <= d {
                after_ns
            } else {
                d
            },
            TransportAck::NoAck => d,
        },
    }
}

impl PublishingEndpoint {
    /// Submits one payload for distribution. One delivery attempt at most
    /// is made per call: on success the sample is appended to the
    /// submission history, on failure nothing is. The outcome and the
    /// suspension time follow the endpoint's policy exactly; in
    /// particular the call never suspends under best-effort delivery and
    /// never suspends past the blocking bound under reliable delivery.
    pub fn submit(&mut self, payload: Payload, ack: TransportAck) -> (r: SubmitReport)
        ensures
            final(self).topic == old(self).topic,
            final(self).qos == old(self).qos,
            r.outcome == spec_submit_outcome(old(self).qos, ack),
            r.suspended_ns == spec_submit_suspension(old(self).qos, ack),
            old(self).qos.reliability is BestEffort ==> r.suspended_ns == 0 && r.outcome is Ok,
            old(self).qos.reliability matches Reliability::Reliable { max_blocking_time_ns: d }
                ==> r.suspended_ns <= d && (r.outcome is Ok || r.outcome == Err::<
                (),
                WriteError,
            >(WriteError::WriteTimeout)),
            r.outcome is Ok ==> final(self).history@ == old(self).history@.push(payload),
            r.outcome is Err ==> final(self).history@ == old(self).history@,
    {
        match self.qos.reliability {
            Reliability::BestEffort => {
                self.history.push(payload);
                SubmitReport { outcome: Ok(()), suspended_ns: 0 }
            },
            Reliability::Reliable { max_blocking_time_ns: d } => match ack {
                TransportAck::Acked { after_ns } => {
                    if after_ns <= d {
                        self.history.push(payload);
                        SubmitReport { outcome: Ok(()), suspended_ns: after_ns }
                    } else {
                        SubmitReport {
                            outcome: Err(WriteError::WriteTimeout),
                            suspended_ns: d,
                        }
                    }
                },
                TransportAck::NoAck => {
                    SubmitReport { outcome: Err(WriteError::WriteTimeout), suspended_ns: d }
                },
            },
        }
    }
}

impl crate::domain::Publisher {
    /// Creates the writer for `topic`. A policy of the writer's own may be
    /// given; otherwise the publisher's policy applies. The submission
    /// history starts empty.
    pub fn create_datawriter(&self, topic: TopicId, qos: Option<QosPolicy>) -> (w:
        PublishingEndpoint)
        ensures
            w.topic == topic,
            w.qos == (match qos {
                Some(q) => q,
                None => self.qos,
            }),
            w.history@.len() == 0,
    {
        PublishingEndpoint {
            topic,
            qos: match qos {
                Some(q) => q,
                None => self.qos,
            },
            history: Vec::new(),
        }
    }
}

impl crate::domain::Subscriber {
    /// Creates the reader for `topic`. A policy of the reader's own may be
    /// given; otherwise the subscriber's policy applies.
    pub fn create_datareader(&self, topic: TopicId, qos: Option<QosPolicy>) -> (r:
        SubscribingEndpoint)
        ensures
            r.topic == topic,
            r.qos == (match qos {
                Some(q) => q,
                None => self.qos,
            }),
    {
        SubscribingEndpoint {
            topic,
            qos: match qos {
                Some(q) => q,
                None => self.qos,
            },
        }
    }
}

} // verus!
