use amqmon::catalog::{ResourceKind, WireFormat};
use amqmon::dispatch::{decode_response, DecodeFailure, ResponseType};
use amqmon::payloads::{VersionResponse, HeapMemoryUsageResponse, BrokerResponse};

const VERSION_JSON: &str = r#"{
  "request": {"type": "version"},
  "status": 200,
  "timestamp": 1500000000,
  "value": {
    "agent": "1.3.6",
    "protocol": "7.2",
    "config": {"agentId": "a1", "agentType": "servlet", "allowErrorDetails": "true"},
    "info": {"product": "activemq", "vendor": "Apache", "version": "5.15.0"}
  }
}"#;

const HEAP_JSON: &str = r#"{
  "request": {"mbean": "java.lang:type=Memory", "attribute": "HeapMemoryUsage", "type": "read"},
  "status": 200,
  "timestamp": 1500000001,
  "value": {"init": 268435456, "committed": 518979584, "max": 518979584, "used": 59662760}
}"#;

const BROKER_JSON: &str = r#"{
  "request": {"mbean": "org.apache.activemq:brokerName=localhost,type=Broker", "type": "read"},
  "value": {
    "AverageMessageSize": 1024,
    "BrokerId": "ID:broker-1",
    "BrokerName": "localhost",
    "BrokerVersion": "5.15.0",
    "CurrentConnectionsCount": 2,
    "DataDirectory": "/opt/activemq/data",
    "DurableTopicSubscribers": [],
    "DynamicDestinationProducers": [],
    "InactiveDurableTopicSubscribers": [],
    "JmsJobScheduler": null,
    "JobSchedulerStoreLimit": 0,
    "JobSchedulerStorePercentUsage": 0,
    "MaxMessageSize": 1024,
    "MemoryLimit": 700000000,
    "MemoryPercentUsage": 0,
    "MinMessageSize": 1024,
    "Persistent": true,
    "QueueProducers": [],
    "QueueSubscribers": [{"objectName": "org.apache.activemq:destinationName=Q1,endpoint=Consumer"}],
    "Queues": [],
    "Slave": false,
    "StatisticsEnabled": true,
    "StoreLimit": 10737418240,
    "StorePercentUsage": 0,
    "TempLimit": 5368709120,
    "TempPercentUsage": 0,
    "TemporaryQueueProducers": [],
    "TemporaryQueueSubscribers": [],
    "TemporaryQueues": [],
    "TemporaryTopicProducers": [],
    "TemporaryTopicSubscribers": [],
    "TemporaryTopics": [],
    "TopicProducers": [],
    "TopicSubscribers": [],
    "Topics": [{"objectName": "org.apache.activemq:destinationName=ActiveMQ.Advisory.MasterBroker"}],
    "TotalConnectionsCount": 5,
    "TotalConsumerCount": 3,
    "TotalDequeueCount": 100,
    "TotalEnqueueCount": 120,
    "TotalMessageCount": 20,
    "TotalProducerCount": 4,
    "TransportConnectors": {
      "amqp": "amqp://h:5672",
      "mqtt": "mqtt://h:1883",
      "openwire": "tcp://h:61616",
      "stomp": "stomp://h:61613",
      "ws": "ws://h:61614"
    },
    "Uptime": "2 hours",
    "UptimeMillis": 7200000,
    "VMURL": "vm://localhost"
  },
  "timestamp": 1500000002,
  "status": 200
}"#;

fn decode_version_text(text: &str) -> Result<VersionResponse, DecodeFailure> {
    match decode_response(ResourceKind::Version, text)? {
        ResponseType::Version(p) => Ok(p),
        other => panic!("wrong tag: {:?}", other),
    }
}

fn decode_heap_text(text: &str) -> Result<HeapMemoryUsageResponse, DecodeFailure> {
    match decode_response(ResourceKind::HeapMemoryUsage, text)? {
        ResponseType::HeapMemoryUsage(p) => Ok(p),
        other => panic!("wrong tag: {:?}", other),
    }
}

fn decode_broker_text(text: &str) -> Result<BrokerResponse, DecodeFailure> {
    match decode_response(ResourceKind::Broker, text)? {
        ResponseType::Broker(p) => Ok(p),
        other => panic!("wrong tag: {:?}", other),
    }
}

#[test]
fn version_fixture_decodes_exactly() {
    let p = decode_version_text(VERSION_JSON).unwrap();
    assert_eq!(p.request.request_type, "version");
    assert_eq!(p.status, 200);
    assert_eq!(p.timestamp, 1500000000);
    assert_eq!(p.value.agent, "1.3.6");
    assert_eq!(p.value.protocol, "7.2");
    assert_eq!(p.value.config.agent_id, "a1");
    assert_eq!(p.value.config.agent_type, "servlet");
    assert_eq!(p.value.config.allow_error_details, "true");
    assert_eq!(p.value.info.product, "activemq");
    assert_eq!(p.value.info.vendor, "Apache");
    assert_eq!(p.value.info.version, "5.15.0");
}

#[test]
fn heap_fixture_decodes_exactly() {
    let p = decode_heap_text(HEAP_JSON).unwrap();
    assert_eq!(p.request.mbean, "java.lang:type=Memory");
    assert_eq!(p.request.attribute, "HeapMemoryUsage");
    assert_eq!(p.request.request_type, "read");
    assert_eq!(p.status, 200);
    assert_eq!(p.timestamp, 1500000001);
    assert_eq!(p.value.init, 268435456);
    assert_eq!(p.value.committed, 518979584);
    assert_eq!(p.value.max, 518979584);
    assert_eq!(p.value.used, 59662760);
}

#[test]
fn broker_fixture_decodes_exactly() {
    let p = decode_broker_text(BROKER_JSON).unwrap();
    assert_eq!(p.request.mbean, "org.apache.activemq:brokerName=localhost,type=Broker");
    assert_eq!(p.value.broker_name, "localhost");
    assert_eq!(p.value.broker_version, "5.15.0");
    assert_eq!(p.value.average_message_size, 1024);
    assert_eq!(p.value.current_connections_count, 2);
    assert!(p.value.persistent);
    assert!(!p.value.slave);
    assert!(p.value.statistics_enabled);
    assert_eq!(p.value.queue_subscribers.len(), 1);
    assert_eq!(
        p.value.queue_subscribers[0].object_name,
        "org.apache.activemq:destinationName=Q1,endpoint=Consumer"
    );
    assert_eq!(p.value.queues.len(), 0);
    assert_eq!(p.value.topics.len(), 1);
    assert_eq!(p.value.transport_connectors.openwire, "tcp://h:61616");
    assert_eq!(p.value.uptime, "2 hours");
    assert_eq!(p.value.uptime_millis, 7200000);
    assert_eq!(p.value.vm_url, "vm://localhost");
    assert_eq!(p.timestamp, 1500000002);
    assert_eq!(p.status, 200);
}

// a `null` scheduler field decodes to the explicit absent state
#[test]
fn broker_null_scheduler_is_absent() {
    let p = decode_broker_text(BROKER_JSON).unwrap();
    assert_eq!(p.value.jms_job_scheduler, None);
}

// a present scheduler string decodes to the present state
#[test]
fn broker_scheduler_string_is_present() {
    let text = BROKER_JSON.replace(
        "\"JmsJobScheduler\": null",
        "\"JmsJobScheduler\": \"JMS\"",
    );
    let p = decode_broker_text(&text).unwrap();
    assert_eq!(p.value.jms_job_scheduler, Some(String::from("JMS")));
}

// decoding the same raw text against the same schema twice yields
// value-equal results
#[test]
fn decoding_is_deterministic() {
    let a = decode_response(ResourceKind::Broker, BROKER_JSON).unwrap();
    let b = decode_response(ResourceKind::Broker, BROKER_JSON).unwrap();
    assert_eq!(a, b);
    let c = decode_response(ResourceKind::Version, VERSION_JSON).unwrap();
    let d = decode_response(ResourceKind::Version, VERSION_JSON).unwrap();
    assert_eq!(c, d);
}

// a malformed numeric field is a decode failure, never a substituted zero
#[test]
fn mistyped_status_is_rejected() {
    let text = VERSION_JSON.replace("\"status\": 200", "\"status\": \"ok\"");
    let f = decode_version_text(&text).unwrap_err();
    assert_eq!(f.kind, ResourceKind::Version);
    assert_eq!(f.format, WireFormat::Json);
}

// an out-of-range numeric field is a decode failure, never a truncation
#[test]
fn out_of_range_width_is_rejected() {
    let text = BROKER_JSON.replace(
        "\"CurrentConnectionsCount\": 2",
        "\"CurrentConnectionsCount\": 70000",
    );
    assert!(decode_broker_text(&text).is_err());
}

// a missing required field is a decode failure
#[test]
fn missing_field_is_rejected() {
    let text = HEAP_JSON.replace("\"max\": 518979584, ", "");
    assert!(decode_heap_text(&text).is_err());
}

// text that is not JSON at all is a decode failure naming the kind and format
#[test]
fn unparsable_json_is_rejected() {
    let f = decode_heap_text("not json").unwrap_err();
    assert_eq!(f.kind, ResourceKind::HeapMemoryUsage);
    assert_eq!(f.format, WireFormat::Json);
}

// the decoded payload arrives under the tag of the requested kind
#[test]
fn json_payloads_arrive_under_their_tag() {
    let v = decode_response(ResourceKind::Version, VERSION_JSON).unwrap();
    assert_eq!(v.kind(), ResourceKind::Version);
    let h = decode_response(ResourceKind::HeapMemoryUsage, HEAP_JSON).unwrap();
    assert_eq!(h.kind(), ResourceKind::HeapMemoryUsage);
}
