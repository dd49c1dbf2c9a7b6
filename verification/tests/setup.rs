use dds_pubsub::domain::{DomainMembership, TopicKind};
use dds_pubsub::errors::SetupError;
use dds_pubsub::qos::{QosPolicy, QosPolicyBuilder, Reliability};

fn reliable(ns: u64) -> QosPolicy {
    QosPolicyBuilder::new()
        .reliability(Reliability::Reliable {
            max_blocking_time_ns: ns,
        })
        .build()
}

#[test]
fn qos_defaults_to_best_effort() {
    let q = QosPolicyBuilder::new().build();
    assert_eq!(q.reliability, Reliability::BestEffort);
}

#[test]
fn qos_keeps_last_reliability_setting() {
    let q = QosPolicyBuilder::new()
        .reliability(Reliability::BestEffort)
        .reliability(Reliability::Reliable {
            max_blocking_time_ns: 0,
        })
        .build();
    assert_eq!(
        q.reliability,
        Reliability::Reliable {
            max_blocking_time_ns: 0
        }
    );
}

#[test]
fn join_succeeds_with_empty_registry() {
    let dm = DomainMembership::join(0).unwrap();
    assert_eq!(dm.domain_id, 0);
    assert_eq!(dm.topics.len(), 0);
}

#[test]
fn create_topic_twice_returns_same_handle() {
    let mut dm = DomainMembership::join(0).unwrap();
    let q = reliable(0);
    let first = dm
        .create_topic("some_topic".to_string(), "SomeType".to_string(), q, TopicKind::NoKey)
        .unwrap();
    let second = dm
        .create_topic("some_topic".to_string(), "SomeType".to_string(), q, TopicKind::NoKey)
        .unwrap();
    assert_eq!(first, second);
    assert_eq!(dm.topics.len(), 1);
}

#[test]
fn create_topic_distinct_names_get_distinct_handles() {
    let mut dm = DomainMembership::join(3).unwrap();
    let q = QosPolicyBuilder::new().build();
    let a = dm
        .create_topic("alpha".to_string(), "SomeType".to_string(), q, TopicKind::NoKey)
        .unwrap();
    let b = dm
        .create_topic("beta".to_string(), "SomeType".to_string(), q, TopicKind::NoKey)
        .unwrap();
    assert_ne!(a, b);
    assert_eq!(dm.topics.len(), 2);
}

#[test]
fn create_topic_incompatible_type_is_refused() {
    let mut dm = DomainMembership::join(0).unwrap();
    let q = QosPolicyBuilder::new().build();
    dm.create_topic("some_topic".to_string(), "SomeType".to_string(), q, TopicKind::NoKey)
        .unwrap();
    let r = dm.create_topic(
        "some_topic".to_string(),
        "OtherType".to_string(),
        q,
        TopicKind::NoKey,
    );
    assert_eq!(r, Err(SetupError::ResourceCreationFailed));
    assert_eq!(dm.topics.len(), 1);
}

#[test]
fn create_topic_incompatible_kind_is_refused() {
    let mut dm = DomainMembership::join(0).unwrap();
    let q = QosPolicyBuilder::new().build();
    dm.create_topic("some_topic".to_string(), "SomeType".to_string(), q, TopicKind::NoKey)
        .unwrap();
    let r = dm.create_topic(
        "some_topic".to_string(),
        "SomeType".to_string(),
        q,
        TopicKind::Keyed,
    );
    assert_eq!(r, Err(SetupError::ResourceCreationFailed));
}

#[test]
fn endpoints_inherit_or_override_qos() {
    let dm = DomainMembership::join(1).unwrap();
    let q = reliable(1_000_000);
    let publisher = dm.create_publisher(q);
    let subscriber = dm.create_subscriber(q);
    assert_eq!(publisher.qos, q);
    assert_eq!(subscriber.qos, q);

    let mut dm = dm;
    let topic = dm
        .create_topic("some_topic".to_string(), "SomeType".to_string(), q, TopicKind::NoKey)
        .unwrap();
    let writer = publisher.create_datawriter(topic, None);
    assert_eq!(writer.qos, q);
    assert_eq!(writer.topic, topic);
    assert!(writer.history.is_empty());

    let best_effort = QosPolicyBuilder::new().build();
    let reader = subscriber.create_datareader(topic, Some(best_effort));
    assert_eq!(reader.qos, best_effort);
    assert_eq!(reader.topic, topic);
}

#[test]
fn setup_error_descriptions() {
    assert_eq!(SetupError::DomainUnavailable.describe(), "domain unavailable");
    assert_eq!(
        SetupError::ResourceCreationFailed.describe(),
        "resource creation failed"
    );
}
