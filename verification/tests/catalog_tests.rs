use amqmon::catalog::{resolve, ConnectionParams, ConfigError, ResourceKind, WireFormat};

fn sample_params() -> ConnectionParams {
    ConnectionParams {
        hostname: String::from("localhost"),
        port: String::from("8161"),
        broker_name: String::from("localhost"),
        queue_name: Some(String::from("RTestQ")),
    }
}

#[test]
fn resolve_version_url() {
    let spec = resolve(ResourceKind::Version, &sample_params()).unwrap();
    assert_eq!(spec.url, "http://localhost:8161/api/jolokia");
    assert_eq!(spec.format, WireFormat::Json);
    assert_eq!(spec.kind, ResourceKind::Version);
}

#[test]
fn resolve_broker_url() {
    let spec = resolve(ResourceKind::Broker, &sample_params()).unwrap();
    assert_eq!(
        spec.url,
        "http://localhost:8161/api/jolokia/read/org.apache.activemq:type=Broker,brokerName=localhost"
    );
    assert!(spec.url.ends_with("brokerName=localhost"));
    assert_eq!(spec.format, WireFormat::Json);
}

#[test]
fn resolve_heap_url() {
    let spec = resolve(ResourceKind::HeapMemoryUsage, &sample_params()).unwrap();
    assert_eq!(
        spec.url,
        "http://localhost:8161/api/jolokia/read/java.lang:type=Memory/HeapMemoryUsage"
    );
    assert_eq!(spec.format, WireFormat::Json);
}

#[test]
fn resolve_queues_url() {
    let spec = resolve(ResourceKind::Queues, &sample_params()).unwrap();
    assert_eq!(spec.url, "http://localhost:8161/admin/xml/queues.jsp");
    assert_eq!(spec.format, WireFormat::Xml);
}

#[test]
fn resolve_topics_url() {
    let spec = resolve(ResourceKind::Topics, &sample_params()).unwrap();
    assert_eq!(spec.url, "http://localhost:8161/admin/xml/topics.jsp");
    assert_eq!(spec.format, WireFormat::Xml);
}

#[test]
fn resolve_subscribers_url() {
    let spec = resolve(ResourceKind::Subscribers, &sample_params()).unwrap();
    assert_eq!(spec.url, "http://localhost:8161/admin/xml/subscribers.jsp");
    assert_eq!(spec.format, WireFormat::Xml);
}

#[test]
fn resolve_queue_browse_url() {
    let spec = resolve(ResourceKind::QueueBrowse, &sample_params()).unwrap();
    assert_eq!(spec.url, "http://localhost:8161/admin/queueBrowse/RTestQ");
    assert_eq!(spec.format, WireFormat::Xml);
}

#[test]
fn resolve_queue_feed_atom_url() {
    let spec = resolve(ResourceKind::QueueFeedAtom, &sample_params()).unwrap();
    assert_eq!(
        spec.url,
        "http://localhost:8161/admin/queueBrowse/RTestQ?view=rss&feedType=atom_1.0"
    );
    assert_eq!(spec.format, WireFormat::Xml);
}

#[test]
fn resolve_queue_feed_rss_url() {
    let spec = resolve(ResourceKind::QueueFeedRss, &sample_params()).unwrap();
    assert_eq!(
        spec.url,
        "http://localhost:8161/admin/queueBrowse/RTestQ?view=rss&feedType=rss_2.0"
    );
    assert_eq!(spec.format, WireFormat::Xml);
}

#[test]
fn resolve_queue_scoped_without_queue_name_is_missing_parameter() {
    let params = ConnectionParams {
        hostname: String::from("localhost"),
        port: String::from("8161"),
        broker_name: String::from("localhost"),
        queue_name: None,
    };
    for kind in [
        ResourceKind::QueueBrowse,
        ResourceKind::QueueFeedAtom,
        ResourceKind::QueueFeedRss,
    ] {
        assert_eq!(resolve(kind, &params).unwrap_err(), ConfigError::MissingParameter);
    }
    // broker-wide kinds do not need the queue name
    assert!(resolve(ResourceKind::Queues, &params).is_ok());
    assert!(resolve(ResourceKind::Broker, &params).is_ok());
}
