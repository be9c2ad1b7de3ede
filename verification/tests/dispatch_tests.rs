use amqmon::catalog::{ResourceKind, WireFormat};
use amqmon::dispatch::{dispatch, classify_status, ResponseType, FetchError, TransportFailure};

const BROKER_JSON: &str = r#"{
  "request": {"mbean": "org.apache.activemq:brokerName=localhost,type=Broker", "type": "read"},
  "value": {
    "AverageMessageSize": 1024,
    "BrokerId": "ID:broker-1",
    "BrokerName": "localhost",
    "BrokerVersion": "5.15.0",
    "CurrentConnectionsCount": 2,
    "DataDirectory": "/opt/activemq/data",
    "DurableTopicSubscribers": [],
    "DynamicDestinationProducers": [],
    "InactiveDurableTopicSubscribers": [],
    "JmsJobScheduler": null,
    "JobSchedulerStoreLimit": 0,
    "JobSchedulerStorePercentUsage": 0,
    "MaxMessageSize": 1024,
    "MemoryLimit": 700000000,
    "MemoryPercentUsage": 0,
    "MinMessageSize": 1024,
    "Persistent": true,
    "QueueProducers": [],
    "QueueSubscribers": [],
    "Queues": [],
    "Slave": false,
    "StatisticsEnabled": true,
    "StoreLimit": 10737418240,
    "StorePercentUsage": 0,
    "TempLimit": 5368709120,
    "TempPercentUsage": 0,
    "TemporaryQueueProducers": [],
    "TemporaryQueueSubscribers": [],
    "TemporaryQueues": [],
    "TemporaryTopicProducers": [],
    "TemporaryTopicSubscribers": [],
    "TemporaryTopics": [],
    "TopicProducers": [],
    "TopicSubscribers": [],
    "Topics": [],
    "TotalConnectionsCount": 5,
    "TotalConsumerCount": 3,
    "TotalDequeueCount": 100,
    "TotalEnqueueCount": 120,
    "TotalMessageCount": 20,
    "TotalProducerCount": 4,
    "TransportConnectors": {
      "amqp": "amqp://h:5672",
      "mqtt": "mqtt://h:1883",
      "openwire": "tcp://h:61616",
      "stomp": "stomp://h:61613",
      "ws": "ws://h:61614"
    },
    "Uptime": "2 hours",
    "UptimeMillis": 7200000,
    "VMURL": "vm://localhost"
  },
  "timestamp": 1500000002,
  "status": 200
}"#;

// end-to-end: a fixed broker fixture dispatches to a broker-tagged payload
// with the fixture's values, and no failure
#[test]
fn broker_fixture_dispatches_end_to_end() {
    let r = dispatch(ResourceKind::Broker, Ok(String::from(BROKER_JSON)));
    match r {
        Ok(resp) => {
            assert_eq!(resp.kind(), ResourceKind::Broker);
            match resp {
                ResponseType::Broker(p) => {
                    assert_eq!(p.value.broker_name, "localhost");
                    assert!(p.value.persistent);
                    assert_eq!(p.value.queues.len(), 0);
                },
                other => panic!("wrong tag: {:?}", other),
            }
        },
        Err(e) => panic!("dispatch failed: {:?}", e),
    }
}

// a transport failure is fatal for the request and the decoder never runs
#[test]
fn transport_failure_passes_through_untouched() {
    let r = dispatch(ResourceKind::Broker, Err(TransportFailure::AuthRejected));
    assert_eq!(
        r.unwrap_err(),
        FetchError::Transport { kind: ResourceKind::Broker, failure: TransportFailure::AuthRejected }
    );
    let r = dispatch(ResourceKind::Queues, Err(TransportFailure::Unreachable));
    assert_eq!(
        r.unwrap_err(),
        FetchError::Transport { kind: ResourceKind::Queues, failure: TransportFailure::Unreachable }
    );
    let r = dispatch(ResourceKind::Topics, Err(TransportFailure::BodyReadError));
    assert_eq!(
        r.unwrap_err(),
        FetchError::Transport { kind: ResourceKind::Topics, failure: TransportFailure::BodyReadError }
    );
    let r = dispatch(ResourceKind::Version, Err(TransportFailure::NonSuccessStatus(503)));
    assert_eq!(
        r.unwrap_err(),
        FetchError::Transport {
            kind: ResourceKind::Version,
            failure: TransportFailure::NonSuccessStatus(503),
        }
    );
}

// HTTP 401 classifies as a rejected authentication
#[test]
fn status_401_is_auth_rejected() {
    assert_eq!(classify_status(401), Some(TransportFailure::AuthRejected));
    let r = dispatch(ResourceKind::Version, Err(classify_status(401).unwrap()));
    assert_eq!(
        r.unwrap_err(),
        FetchError::Transport {
            kind: ResourceKind::Version,
            failure: TransportFailure::AuthRejected,
        }
    );
}

#[test]
fn status_classification_covers_the_taxonomy() {
    assert_eq!(classify_status(200), None);
    assert_eq!(classify_status(204), None);
    assert_eq!(classify_status(299), None);
    assert_eq!(classify_status(302), Some(TransportFailure::NonSuccessStatus(302)));
    assert_eq!(classify_status(404), Some(TransportFailure::NonSuccessStatus(404)));
    assert_eq!(classify_status(500), Some(TransportFailure::NonSuccessStatus(500)));
}

// a body that does not match the schema dispatches to a decode failure
// carrying the kind and the declared format
#[test]
fn schema_mismatch_dispatches_to_decode_failure() {
    let r = dispatch(ResourceKind::Broker, Ok(String::from("{}")));
    match r.unwrap_err() {
        FetchError::Decode(f) => {
            assert_eq!(f.kind, ResourceKind::Broker);
            assert_eq!(f.format, WireFormat::Json);
            assert!(!f.cause.is_empty());
        },
        other => panic!("wrong stage: {:?}", other),
    }
}

// the declared format is used even when the bytes look like the other
// format: JSON bytes for an XML kind fail as XML
#[test]
fn format_is_declared_not_sniffed() {
    let r = dispatch(ResourceKind::Queues, Ok(String::from("{\"queues\": []}")));
    match r.unwrap_err() {
        FetchError::Decode(f) => {
            assert_eq!(f.kind, ResourceKind::Queues);
            assert_eq!(f.format, WireFormat::Xml);
        },
        other => panic!("wrong stage: {:?}", other),
    }
}
