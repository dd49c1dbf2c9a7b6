use dds_pubsub::domain::{DomainMembership, TopicKind};
use dds_pubsub::endpoint::{PublishingEndpoint, TransportAck};
use dds_pubsub::errors::WriteError;
use dds_pubsub::payload::{payload_for_tick, Payload};
use dds_pubsub::qos::{QosPolicyBuilder, Reliability};

fn writer_with(reliability: Reliability) -> PublishingEndpoint {
    let q = QosPolicyBuilder::new().reliability(reliability).build();
    let mut dm = DomainMembership::join(0).unwrap();
    let topic = dm
        .create_topic("some_topic".to_string(), "SomeType".to_string(), q, TopicKind::NoKey)
        .unwrap();
    dm.create_publisher(q).create_datawriter(topic, None)
}

#[test]
fn best_effort_never_suspends_and_never_fails() {
    let mut w = writer_with(Reliability::BestEffort);
    let p = Payload { a: 1, b: 2, c: 3 };
    let r = w.submit(p, TransportAck::NoAck);
    assert_eq!(r.outcome, Ok(()));
    assert_eq!(r.suspended_ns, 0);
    let r = w.submit(p, TransportAck::Acked { after_ns: u64::MAX });
    assert_eq!(r.outcome, Ok(()));
    assert_eq!(r.suspended_ns, 0);
    assert_eq!(w.history, vec![p, p]);
}

#[test]
fn reliable_completes_within_bound_when_acknowledged() {
    let mut w = writer_with(Reliability::Reliable {
        max_blocking_time_ns: 1_000,
    });
    let p = payload_for_tick(4);
    let r = w.submit(p, TransportAck::Acked { after_ns: 600 });
    assert_eq!(r.outcome, Ok(()));
    assert_eq!(r.suspended_ns, 600);
    assert_eq!(w.history, vec![p]);
}

#[test]
fn reliable_times_out_at_the_bound_without_ack() {
    let mut w = writer_with(Reliability::Reliable {
        max_blocking_time_ns: 1_000,
    });
    let p = payload_for_tick(0);
    let r = w.submit(p, TransportAck::NoAck);
    assert_eq!(r.outcome, Err(WriteError::WriteTimeout));
    assert_eq!(r.suspended_ns, 1_000);
    assert!(w.history.is_empty());
}

#[test]
fn reliable_times_out_when_ack_is_late() {
    let mut w = writer_with(Reliability::Reliable {
        max_blocking_time_ns: 1_000,
    });
    let r = w.submit(payload_for_tick(1), TransportAck::Acked { after_ns: 1_001 });
    assert_eq!(r.outcome, Err(WriteError::WriteTimeout));
    assert_eq!(r.suspended_ns, 1_000);
    assert!(w.history.is_empty());
}

#[test]
fn reliable_zero_bound_fails_at_once_unless_already_acknowledged() {
    let mut w = writer_with(Reliability::Reliable {
        max_blocking_time_ns: 0,
    });
    let r = w.submit(payload_for_tick(2), TransportAck::NoAck);
    assert_eq!(r.outcome, Err(WriteError::WriteTimeout));
    assert_eq!(r.suspended_ns, 0);
    let r = w.submit(payload_for_tick(2), TransportAck::Acked { after_ns: 0 });
    assert_eq!(r.outcome, Ok(()));
    assert_eq!(r.suspended_ns, 0);
    assert_eq!(w.history.len(), 1);
}

#[test]
fn payload_formula_exact_values() {
    assert_eq!(payload_for_tick(0), Payload { a: 0, b: 0, c: 0 });
    assert_eq!(payload_for_tick(7), Payload { a: 7, b: 70, c: 700 });
    assert_eq!(
        payload_for_tick(21474836),
        Payload {
            a: 21474836,
            b: 214748360,
            c: 2147483600
        }
    );
}
