//! Decoding the JSON-encoded resource kinds — the JMX bridge's version,
//! broker, and heap memory payloads — from a parsed tree into their typed
//! payloads.
//!
//! Each decoder is all-or-nothing: it succeeds exactly on a tree of its
//! schema's shape, with every renamed field present and every numeric field
//! an integer of the declared width, and never exposes a partial payload.

use vstd::prelude::*;
use crate::json::{JsonValue, jget, jstr, ju64, jusize, ju16, ju8, ji32, jbool, jnullstr, jarr};
use crate::json::{jv_field, jv_str, jv_u64, jv_usize, jv_u16, jv_u8, jv_i32, jv_bool, jv_opt_str, jv_arr};
use crate::payloads::{
    VersionResponse, VersionRequest, VersionValue, VersionValueConfig, VersionValueInfo,
    VersionResponseView, VersionRequestView, VersionValueView, VersionValueConfigView,
    VersionValueInfoView, HeapMemoryUsageResponse, HeapMemoryUsageRequest, HeapMemoryUsageValue,
    HeapMemoryUsageResponseView, HeapMemoryUsageRequestView, BrokerResponse, BrokerRequest,
    BrokerValue, Object, TransportConnector, BrokerResponseView, BrokerRequestView,
    BrokerValueView, ObjectView, TransportConnectorView, views_of,
};
use crate::util::seq_decode;
use crate::util::lemma_seq_decode_none;

verus! {

// ---------------------------------------------------------------------------
// API version
// ---------------------------------------------------------------------------
/// The shape a version payload must have.
pub open spec fn version_ok(v: JsonValue) -> bool {
    &&& jget(v, "request"@) matches Some(req)
    &&& jstr(req, "type"@) is Some
    &&& ji32(v, "status"@) is Some
    &&& ju64(v, "timestamp"@) is Some
    &&& jget(v, "value"@) matches Some(val)
    &&& jstr(val, "agent"@) is Some
    &&& jstr(val, "protocol"@) is Some
    &&& jget(val, "config"@) matches Some(cfg)
    &&& jstr(cfg, "agentId"@) is Some
    &&& jstr(cfg, "agentType"@) is Some
    &&& jstr(cfg, "allowErrorDetails"@) is Some
    &&& jget(val, "info"@) matches Some(inf)
    &&& jstr(inf, "product"@) is Some
    &&& jstr(inf, "vendor"@) is Some
    &&& jstr(inf, "version"@) is Some
}

/// The version payload a well-shaped tree decodes to.
pub open spec fn version_of(v: JsonValue) -> VersionResponseView
    recommends
        version_ok(v),
{
    let req = jget(v, "request"@)->Some_0;
    let val = jget(v, "value"@)->Some_0;
    let cfg = jget(val, "config"@)->Some_0;
    let inf = jget(val, "info"@)->Some_0;
    VersionResponseView {
        request: VersionRequestView { request_type: jstr(req, "type"@)->Some_0@ },
        status: ji32(v, "status"@)->Some_0,
        timestamp: ju64(v, "timestamp"@)->Some_0,
        value: VersionValueView {
            agent: jstr(val, "agent"@)->Some_0@,
            protocol: jstr(val, "protocol"@)->Some_0@,
            config: VersionValueConfigView {
                agent_id: jstr(cfg, "agentId"@)->Some_0@,
                agent_type: jstr(cfg, "agentType"@)->Some_0@,
                allow_error_details: jstr(cfg, "allowErrorDetails"@)->Some_0@,
            },
            info: VersionValueInfoView {
                product: jstr(inf, "product"@)->Some_0@,
                vendor: jstr(inf, "vendor"@)->Some_0@,
                version: jstr(inf, "version"@)->Some_0@,
            },
        },
    }
}

/// Decode a version payload: succeeds exactly on a tree of the version
/// schema's shape, and then returns exactly the payload the tree denotes.
pub fn decode_version(v: &JsonValue) -> (r: Result<VersionResponse, String>)
    ensures
        r is Ok <==> version_ok(*v),
        r matches Ok(p) ==> p@ == version_of(*v),
{
    let req = jv_field(v, "request")?;
    let request_type = jv_str(req, "type")?;
    let status = jv_i32(v, "status")?;
    let timestamp = jv_u64(v, "timestamp")?;
    let val = jv_field(v, "value")?;
    let agent = jv_str(val, "agent")?;
    let protocol = jv_str(val, "protocol")?;
    let cfg = jv_field(val, "config")?;
    let agent_id = jv_str(cfg, "agentId")?;
    let agent_type = jv_str(cfg, "agentType")?;
    let allow_error_details = jv_str(cfg, "allowErrorDetails")?;
    let inf = jv_field(val, "info")?;
    let product = jv_str(inf, "product")?;
    let vendor = jv_str(inf, "vendor")?;
    let version = jv_str(inf, "version")?;
    Ok(
        VersionResponse {
            request: VersionRequest { request_type },
            status,
            timestamp,
            value: VersionValue {
                agent,
                protocol,
                config: VersionValueConfig { agent_id, agent_type, allow_error_details },
                info: VersionValueInfo { product, vendor, version },
            },
        },
    )
}

// ---------------------------------------------------------------------------
// Heap memory usage
// ---------------------------------------------------------------------------
/// The shape a heap memory payload must have.
pub open spec fn heap_ok(v: JsonValue) -> bool {
    &&& jget(v, "request"@) matches Some(req)
    &&& jstr(req, "mbean"@) is Some
    &&& jstr(req, "attribute"@) is Some
    &&& jstr(req, "type"@) is Some
    &&& ji32(v, "status"@) is Some
    &&& ju64(v, "timestamp"@) is Some
    &&& jget(v, "value"@) matches Some(val)
    &&& jusize(val, "init"@) is Some
    &&& jusize(val, "committed"@) is Some
    &&& jusize(val, "max"@) is Some
    &&& jusize(val, "used"@) is Some
}

/// The heap memory payload a well-shaped tree decodes to.
pub open spec fn heap_of(v: JsonValue) -> HeapMemoryUsageResponseView
    recommends
        heap_ok(v),
{
    let req = jget(v, "request"@)->Some_0;
    let val = jget(v, "value"@)->Some_0;
    HeapMemoryUsageResponseView {
        request: HeapMemoryUsageRequestView {
            mbean: jstr(req, "mbean"@)->Some_0@,
            attribute: jstr(req, "attribute"@)->Some_0@,
            request_type: jstr(req, "type"@)->Some_0@,
        },
        status: ji32(v, "status"@)->Some_0,
        timestamp: ju64(v, "timestamp"@)->Some_0,
        value: HeapMemoryUsageValue {
            init: jusize(val, "init"@)->Some_0,
            committed: jusize(val, "committed"@)->Some_0,
            max: jusize(val, "max"@)->Some_0,
            used: jusize(val, "used"@)->Some_0,
        },
    }
}

/// Decode a heap memory payload: succeeds exactly on a tree of the heap
/// schema's shape, and then returns exactly the payload the tree denotes.
pub fn decode_heap(v: &JsonValue) -> (r: Result<HeapMemoryUsageResponse, String>)
    ensures
        r is Ok <==> heap_ok(*v),
        r matches Ok(p) ==> p@ == heap_of(*v),
{
    let req = jv_field(v, "request")?;
    let mbean = jv_str(req, "mbean")?;
    let attribute = jv_str(req, "attribute")?;
    let request_type = jv_str(req, "type")?;
    let status = jv_i32(v, "status")?;
    let timestamp = jv_u64(v, "timestamp")?;
    let val = jv_field(v, "value")?;
    let init = jv_usize(val, "init")?;
    let committed = jv_usize(val, "committed")?;
    let max = jv_usize(val, "max")?;
    let used = jv_usize(val, "used")?;
    Ok(
        HeapMemoryUsageResponse {
            request: HeapMemoryUsageRequest { mbean, attribute, request_type },
            status,
            timestamp,
            value: HeapMemoryUsageValue { init, committed, max, used },
        },
    )
}

// ---------------------------------------------------------------------------
// Broker
// ---------------------------------------------------------------------------
/// An object reference: a one-field object naming a JMX object.
pub open spec fn object_of(v: JsonValue) -> Option<ObjectView> {
    match jstr(v, "objectName"@) {
        Some(s) => Some(ObjectView { object_name: s@ }),
        None => None,
    }
}

/// Every element of an array decoded as an object reference; nothing when
/// any element fails.
pub open spec fn objects_of(s: Seq<JsonValue>) -> Option<Seq<ObjectView>> {
    seq_decode(s, |x: JsonValue| object_of(x))
}

/// An array field of object references.
pub open spec fn jobjects(v: JsonValue, key: Seq<char>) -> Option<Seq<ObjectView>> {
    match jarr(v, key) {
        Some(a) => objects_of(a),
        None => None,
    }
}

/// The view of an optional string.
pub open spec fn opt_view(o: Option<String>) -> Option<Seq<char>> {
    match o {
        Some(s) => Some(s@),
        None => None,
    }
}

/// Decode an object reference.
pub fn decode_object(v: &JsonValue) -> (r: Result<Object, String>)
    ensures
        r is Ok <==> object_of(*v) is Some,
        r matches Ok(o) ==> object_of(*v) == Some(o@),
{
    let object_name = jv_str(v, "objectName")?;
    Ok(Object { object_name })
}

/// Decode an array field of object references: succeeds exactly when the
/// field is an array and every element an object reference, and then
/// returns them all, in the array's order.
pub fn decode_objects(v: &JsonValue, key: &str) -> (r: Result<Vec<Object>, String>)
    ensures
        r is Ok <==> jobjects(*v, key@) is Some,
        r matches Ok(os) ==> jobjects(*v, key@) == Some(views_of(os@)),
{
    let arr = jv_arr(v, key)?;
    let n = arr.len();
    let mut out: Vec<Object> = Vec::new();
    let mut i: usize = 0;
    while i < n
        invariant
            n == arr.len(),
            i <= n,
            jarr(*v, key@) == Some(arr@),
            objects_of(arr@.take(i as int)) == Some(views_of(out@)),
        decreases n - i,
    {
        proof {
            assert(arr@.take(i as int + 1).drop_last() =~= arr@.take(i as int));
            assert(arr@.take(i as int + 1).last() == arr@[i as int]);
        }
        match decode_object(&arr[i]) {
            Ok(o) => {
                let ghost prev = out@;
                out.push(o);
                proof {
                    assert(views_of(out@) =~= views_of(prev).push(o@));
                }
            },
            Err(e) => {
                proof {
                    lemma_seq_decode_none(arr@, |x: JsonValue| object_of(x), i as int);
                }
                return Err(e);
            },
        }
        i += 1;
    }
    proof {
        assert(arr@.take(n as int) =~= arr@);
    }
    Ok(out)
}

/// The shape the broker's transport connector listing must have.
pub open spec fn tconn_of(v: JsonValue) -> Option<TransportConnectorView> {
    if {
        &&& jstr(v, "amqp"@) is Some
        &&& jstr(v, "mqtt"@) is Some
        &&& jstr(v, "openwire"@) is Some
        &&& jstr(v, "stomp"@) is Some
        &&& jstr(v, "ws"@) is Some
    } {
        Some(
            TransportConnectorView {
                amqp: jstr(v, "amqp"@)->Some_0@,
                mqtt: jstr(v, "mqtt"@)->Some_0@,
                openwire: jstr(v, "openwire"@)->Some_0@,
                stomp: jstr(v, "stomp"@)->Some_0@,
                ws: jstr(v, "ws"@)->Some_0@,
            },
        )
    } else {
        None
    }
}

/// Decode the broker's transport connector listing.
pub fn decode_tconn(v: &JsonValue) -> (r: Result<TransportConnector, String>)
    ensures
        r is Ok <==> tconn_of(*v) is Some,
        r matches Ok(t) ==> tconn_of(*v) == Some(t@),
{
    let amqp = jv_str(v, "amqp")?;
    let mqtt = jv_str(v, "mqtt")?;
    let openwire = jv_str(v, "openwire")?;
    let stomp = jv_str(v, "stomp")?;
    let ws = jv_str(v, "ws")?;
    Ok(TransportConnector { amqp, mqtt, openwire, stomp, ws })
}

/// The shape the broker metrics object must have: every metric present
/// under its PascalCase wire name, at its declared width; the scheduler
/// field nullable; the collection metrics arrays of object references.
pub open spec fn broker_value_ok(v: JsonValue) -> bool {
    &&& ju64(v, "AverageMessageSize"@) is Some
    &&& jstr(v, "BrokerId"@) is Some
    &&& jstr(v, "BrokerName"@) is Some
    &&& jstr(v, "BrokerVersion"@) is Some
    &&& ju16(v, "CurrentConnectionsCount"@) is Some
    &&& jstr(v, "DataDirectory"@) is Some
    &&& jobjects(v, "DurableTopicSubscribers"@) is Some
    &&& jobjects(v, "DynamicDestinationProducers"@) is Some
    &&& jobjects(v, "InactiveDurableTopicSubscribers"@) is Some
    &&& jnullstr(v, "JmsJobScheduler"@) is Some
    &&& ju64(v, "JobSchedulerStoreLimit"@) is Some
    &&& ju8(v, "JobSchedulerStorePercentUsage"@) is Some
    &&& ju64(v, "MaxMessageSize"@) is Some
    &&& ju64(v, "MemoryLimit"@) is Some
    &&& ju8(v, "MemoryPercentUsage"@) is Some
    &&& ju16(v, "MinMessageSize"@) is Some
    &&& jbool(v, "Persistent"@) is Some
    &&& jobjects(v, "QueueProducers"@) is Some
    &&& jobjects(v, "QueueSubscribers"@) is Some
    &&& jobjects(v, "Queues"@) is Some
    &&& jbool(v, "Slave"@) is Some
    &&& jbool(v, "StatisticsEnabled"@) is Some
    &&& ju64(v, "StoreLimit"@) is Some
    &&& ju8(v, "StorePercentUsage"@) is Some
    &&& ju64(v, "TempLimit"@) is Some
    &&& ju8(v, "TempPercentUsage"@) is Some
    &&& jobjects(v, "TemporaryQueueProducers"@) is Some
    &&& jobjects(v, "TemporaryQueueSubscribers"@) is Some
    &&& jobjects(v, "TemporaryQueues"@) is Some
    &&& jobjects(v, "TemporaryTopicProducers"@) is Some
    &&& jobjects(v, "TemporaryTopicSubscribers"@) is Some
    &&& jobjects(v, "TemporaryTopics"@) is Some
    &&& jobjects(v, "TopicProducers"@) is Some
    &&& jobjects(v, "TopicSubscribers"@) is Some
    &&& jobjects(v, "Topics"@) is Some
    &&& ju64(v, "TotalConnectionsCount"@) is Some
    &&& ju16(v, "TotalConsumerCount"@) is Some
    &&& ju64(v, "TotalDequeueCount"@) is Some
    &&& ju64(v, "TotalEnqueueCount"@) is Some
    &&& ju64(v, "TotalMessageCount"@) is Some
    &&& ju64(v, "TotalProducerCount"@) is Some
    &&& jget(v, "TransportConnectors"@) matches Some(tc)
    &&& tconn_of(tc) is Some
    &&& jstr(v, "Uptime"@) is Some
    &&& ju64(v, "UptimeMillis"@) is Some
    &&& jstr(v, "VMURL"@) is Some
}

/// The broker metrics a well-shaped tree decodes to.
pub open spec fn broker_value_of(v: JsonValue) -> BrokerValueView
    recommends
        broker_value_ok(v),
{
    BrokerValueView {
        average_message_size: ju64(v, "AverageMessageSize"@)->Some_0,
        broker_id: jstr(v, "BrokerId"@)->Some_0@,
        broker_name: jstr(v, "BrokerName"@)->Some_0@,
        broker_version: jstr(v, "BrokerVersion"@)->Some_0@,
        current_connections_count: ju16(v, "CurrentConnectionsCount"@)->Some_0,
        data_directory: jstr(v, "DataDirectory"@)->Some_0@,
        durable_topic_subscribers: jobjects(v, "DurableTopicSubscribers"@)->Some_0,
        dynamic_destination_producers: jobjects(v, "DynamicDestinationProducers"@)->Some_0,
        inactive_durable_topic_subscribers: jobjects(v, "InactiveDurableTopicSubscribers"@)->Some_0,
        jms_job_scheduler: opt_view(jnullstr(v, "JmsJobScheduler"@)->Some_0),
        job_scheduler_store_limit: ju64(v, "JobSchedulerStoreLimit"@)->Some_0,
        job_scheduler_store_percent_usage: ju8(v, "JobSchedulerStorePercentUsage"@)->Some_0,
        max_message_size: ju64(v, "MaxMessageSize"@)->Some_0,
        memory_limit: ju64(v, "MemoryLimit"@)->Some_0,
        memory_percent_usage: ju8(v, "MemoryPercentUsage"@)->Some_0,
        min_message_size: ju16(v, "MinMessageSize"@)->Some_0,
        persistent: jbool(v, "Persistent"@)->Some_0,
        queue_producers: jobjects(v, "QueueProducers"@)->Some_0,
        queue_subscribers: jobjects(v, "QueueSubscribers"@)->Some_0,
        queues: jobjects(v, "Queues"@)->Some_0,
        slave: jbool(v, "Slave"@)->Some_0,
        statistics_enabled: jbool(v, "StatisticsEnabled"@)->Some_0,
        store_limit: ju64(v, "StoreLimit"@)->Some_0,
        store_percent_usage: ju8(v, "StorePercentUsage"@)->Some_0,
        temp_limit: ju64(v, "TempLimit"@)->Some_0,
        temp_percent_usage: ju8(v, "TempPercentUsage"@)->Some_0,
        temporary_queue_producers: jobjects(v, "TemporaryQueueProducers"@)->Some_0,
        temporary_queue_subscribers: jobjects(v, "TemporaryQueueSubscribers"@)->Some_0,
        temporary_queues: jobjects(v, "TemporaryQueues"@)->Some_0,
        temporary_topic_producers: jobjects(v, "TemporaryTopicProducers"@)->Some_0,
        temporary_topic_subscribers: jobjects(v, "TemporaryTopicSubscribers"@)->Some_0,
        temporary_topics: jobjects(v, "TemporaryTopics"@)->Some_0,
        topic_producers: jobjects(v, "TopicProducers"@)->Some_0,
        topic_subscribers: jobjects(v, "TopicSubscribers"@)->Some_0,
        topics: jobjects(v, "Topics"@)->Some_0,
        total_connections_count: ju64(v, "TotalConnectionsCount"@)->Some_0,
        total_consumer_count: ju16(v, "TotalConsumerCount"@)->Some_0,
        total_dequeue_count: ju64(v, "TotalDequeueCount"@)->Some_0,
        total_enqueue_count: ju64(v, "TotalEnqueueCount"@)->Some_0,
        total_message_count: ju64(v, "TotalMessageCount"@)->Some_0,
        total_producer_count: ju64(v, "TotalProducerCount"@)->Some_0,
        transport_connectors: tconn_of(jget(v, "TransportConnectors"@)->Some_0)->Some_0,
        uptime: jstr(v, "Uptime"@)->Some_0@,
        uptime_millis: ju64(v, "UptimeMillis"@)->Some_0,
        vm_url: jstr(v, "VMURL"@)->Some_0@,
    }
}

/// Decode the broker metrics object: succeeds exactly on a tree of the
/// broker metrics schema's shape, and then returns exactly the metrics the
/// tree denotes.
#[verifier::rlimit(60)]
pub fn decode_broker_value(v: &JsonValue) -> (r: Result<BrokerValue, String>)
    ensures
        r is Ok <==> broker_value_ok(*v),
        r matches Ok(p) ==> p@ == broker_value_of(*v),
{
    let average_message_size = jv_u64(v, "AverageMessageSize")?;
    let broker_id = jv_str(v, "BrokerId")?;
    let broker_name = jv_str(v, "BrokerName")?;
    let broker_version = jv_str(v, "BrokerVersion")?;
    let current_connections_count = jv_u16(v, "CurrentConnectionsCount")?;
    let data_directory = jv_str(v, "DataDirectory")?;
    let durable_topic_subscribers = decode_objects(v, "DurableTopicSubscribers")?;
    let dynamic_destination_producers = decode_objects(v, "DynamicDestinationProducers")?;
    let inactive_durable_topic_subscribers = decode_objects(v, "InactiveDurableTopicSubscribers")?;
    let jms_job_scheduler = jv_opt_str(v, "JmsJobScheduler")?;
    let job_scheduler_store_limit = jv_u64(v, "JobSchedulerStoreLimit")?;
    let job_scheduler_store_percent_usage = jv_u8(v, "JobSchedulerStorePercentUsage")?;
    let max_message_size = jv_u64(v, "MaxMessageSize")?;
    let memory_limit = jv_u64(v, "MemoryLimit")?;
    let memory_percent_usage = jv_u8(v, "MemoryPercentUsage")?;
    let min_message_size = jv_u16(v, "MinMessageSize")?;
    let persistent = jv_bool(v, "Persistent")?;
    let queue_producers = decode_objects(v, "QueueProducers")?;
    let queue_subscribers = decode_objects(v, "QueueSubscribers")?;
    let queues = decode_objects(v, "Queues")?;
    let slave = jv_bool(v, "Slave")?;
    let statistics_enabled = jv_bool(v, "StatisticsEnabled")?;
    let store_limit = jv_u64(v, "StoreLimit")?;
    let store_percent_usage = jv_u8(v, "StorePercentUsage")?;
    let temp_limit = jv_u64(v, "TempLimit")?;
    let temp_percent_usage = jv_u8(v, "TempPercentUsage")?;
    let temporary_queue_producers = decode_objects(v, "TemporaryQueueProducers")?;
    let temporary_queue_subscribers = decode_objects(v, "TemporaryQueueSubscribers")?;
    let temporary_queues = decode_objects(v, "TemporaryQueues")?;
    let temporary_topic_producers = decode_objects(v, "TemporaryTopicProducers")?;
    let temporary_topic_subscribers = decode_objects(v, "TemporaryTopicSubscribers")?;
    let temporary_topics = decode_objects(v, "TemporaryTopics")?;
    let topic_producers = decode_objects(v, "TopicProducers")?;
    let topic_subscribers = decode_objects(v, "TopicSubscribers")?;
    let topics = decode_objects(v, "Topics")?;
    let total_connections_count = jv_u64(v, "TotalConnectionsCount")?;
    let total_consumer_count = jv_u16(v, "TotalConsumerCount")?;
    let total_dequeue_count = jv_u64(v, "TotalDequeueCount")?;
    let total_enqueue_count = jv_u64(v, "TotalEnqueueCount")?;
    let total_message_count = jv_u64(v, "TotalMessageCount")?;
    let total_producer_count = jv_u64(v, "TotalProducerCount")?;
    let tc = jv_field(v, "TransportConnectors")?;
    let transport_connectors = decode_tconn(tc)?;
    let uptime = jv_str(v, "Uptime")?;
    let uptime_millis = jv_u64(v, "UptimeMillis")?;
    let vm_url = jv_str(v, "VMURL")?;
    Ok(
        BrokerValue {
            average_message_size,
            broker_id,
            broker_name,
            broker_version,
            current_connections_count,
            data_directory,
            durable_topic_subscribers,
            dynamic_destination_producers,
            inactive_durable_topic_subscribers,
            jms_job_scheduler,
            job_scheduler_store_limit,
            job_scheduler_store_percent_usage,
            max_message_size,
            memory_limit,
            memory_percent_usage,
            min_message_size,
            persistent,
            queue_producers,
            queue_subscribers,
            queues,
            slave,
            statistics_enabled,
            store_limit,
            store_percent_usage,
            temp_limit,
            temp_percent_usage,
            temporary_queue_producers,
            temporary_queue_subscribers,
            temporary_queues,
            temporary_topic_producers,
            temporary_topic_subscribers,
            temporary_topics,
            topic_producers,
            topic_subscribers,
            topics,
            total_connections_count,
            total_consumer_count,
            total_dequeue_count,
            total_enqueue_count,
            total_message_count,
            total_producer_count,
            transport_connectors,
            uptime,
            uptime_millis,
            vm_url,
        },
    )
}

/// The shape a broker payload must have.
pub open spec fn broker_ok(v: JsonValue) -> bool {
    &&& jget(v, "request"@) matches Some(req)
    &&& jstr(req, "mbean"@) is Some
    &&& jstr(req, "type"@) is Some
    &&& jget(v, "value"@) matches Some(val)
    &&& broker_value_ok(val)
    &&& ju64(v, "timestamp"@) is Some
    &&& ji32(v, "status"@) is Some
}

/// The broker payload a well-shaped tree decodes to.
pub open spec fn broker_of(v: JsonValue) -> BrokerResponseView
    recommends
        broker_ok(v),
{
    let req = jget(v, "request"@)->Some_0;
    let val = jget(v, "value"@)->Some_0;
    BrokerResponseView {
        request: BrokerRequestView {
            mbean: jstr(req, "mbean"@)->Some_0@,
            request_type: jstr(req, "type"@)->Some_0@,
        },
        value: broker_value_of(val),
        timestamp: ju64(v, "timestamp"@)->Some_0,
        status: ji32(v, "status"@)->Some_0,
    }
}

/// Decode a broker payload: succeeds exactly on a tree of the broker
/// schema's shape, and then returns exactly the payload the tree denotes.
pub fn decode_broker(v: &JsonValue) -> (r: Result<BrokerResponse, String>)
    ensures
        r is Ok <==> broker_ok(*v),
        r matches Ok(p) ==> p@ == broker_of(*v),
{
    let req = jv_field(v, "request")?;
    let mbean = jv_str(req, "mbean")?;
    let request_type = jv_str(req, "type")?;
    let val = jv_field(v, "value")?;
    let value = decode_broker_value(val)?;
    let timestamp = jv_u64(v, "timestamp")?;
    let status = jv_i32(v, "status")?;
    Ok(BrokerResponse { request: BrokerRequest { mbean, request_type }, value, timestamp, status })
}

/// A broker payload whose scheduler field reads JSON `null` decodes it to
/// the explicit absent state — never to an error, never to a substituted
/// default.
pub proof fn lemma_null_scheduler_decodes_absent(v: JsonValue)
    requires
        broker_ok(v),
        jget(jget(v, "value"@)->Some_0, "JmsJobScheduler"@) == Some(JsonValue::Null),
    ensures
        broker_of(v).value.jms_job_scheduler is None,
{
}

/// A numeric field carrying anything but an integer of its declared width
/// fails the whole decode: a payload whose `status` field holds a string is
/// never accepted, by any of the JSON decoders.
pub proof fn lemma_mistyped_status_rejected(v: JsonValue, s: String)
    requires
        jget(v, "status"@) == Some(JsonValue::Str(s)),
    ensures
        !version_ok(v),
        !heap_ok(v),
        !broker_ok(v),
{
}

} // verus!
